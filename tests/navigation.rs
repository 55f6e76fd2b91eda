use nspanel_server::cards::Card;
use nspanel_server::clock::LocalTime;
use nspanel_server::command::{Command, Page};
use nspanel_server::config::{
    BrightnessScheduler, Cards, Config, Connectivity, Device, DeviceConfig, Entity, Hass, Model,
    Mqtt, MqttClient,
};
use nspanel_server::mqttc::{
    commands_matching, commands_matching_at, downlink_topic, handle_uplink_message, request_for_tokens, uplink_device,
};
use nspanel_server::state::{DeviceState, DeviceStore, Page as Shown, WeatherCache};

fn entity(id: &str, name: &str, icon: &str) -> Entity {
    Entity { entity: id.to_string(), name: Some(name.to_string()), icon: Some(icon.to_string()) }
}

fn card(type_: &str, entities: Vec<Entity>) -> Cards {
    Cards {
        type_: type_.to_string(),
        title: Some(format!("{} title", type_)),
        data: Some("WIFI:S:home;;".to_string()),
        entities,
    }
}

fn device(cards: Vec<Cards>) -> Device {
    Device {
        module: "nspanel".to_string(),
        id: "panel".to_string(),
        mqtt: Mqtt { rx_topic: "cmnd/panel".to_string(), tx_topic: "tele/panel".to_string() },
        model: Model::EU,
        config: DeviceConfig {
            timeout_to_screensaver: 30,
            screensaver_brightness: vec![BrightnessScheduler { time: "07:00".to_string(), value: 10 }],
            locale: "en_US".to_string(),
            timezone: "Europe/Berlin".to_string(),
        },
        cards,
    }
}

fn config_with(cards: Vec<Cards>) -> Config {
    Config {
        connectivity: Connectivity {
            mqtt: MqttClient {
                type_: "mqtt".to_string(),
                id: "gateway".to_string(),
                host: "localhost".to_string(),
                port: 1883,
                user: "user".to_string(),
                password: "secret".to_string(),
            },
            hass: Hass { type_: "hass".to_string(), host: "localhost".to_string(), port: 8123, token: "token".to_string() },
        },
        devices: vec![("panel".to_string(), device(cards))],
        icons: vec![
            ("home-thermometer-outline".to_string(), 'T'),
            ("key".to_string(), 'K'),
            ("shield-lock".to_string(), 'L'),
            ("wifi".to_string(), 'W'),
        ],
    }
}

fn three_cards() -> Vec<Cards> {
    vec![
        card("screensaver", vec![]),
        card("cardQR", vec![entity("sensor.ssid", "SSID", "wifi"), entity("sensor.pass", "Password", "key")]),
        card("cardThermo", vec![entity("climate.room", "thermo", "wifi")]),
        card("cardHome", vec![]),
    ]
}

fn noon() -> LocalTime {
    LocalTime { year: 2024, month: 1, day: 1, hour: 7, minute: 5 }
}

#[test]
fn card_names_read_ignoring_case() {
    assert_eq!(Card::parse("CARDqr"), Some(Card::CardQR));
    assert_eq!(Card::parse("Screensaver"), Some(Card::Screensaver));
    assert_eq!(Card::parse("cardGarage"), None);
    assert_eq!(Card::CardThermo.as_str(), "cardThermo");
    assert_eq!(Page::parse("existscreensaver"), Some(Page::ExistScreensaver));
    assert_eq!(Page::parse("nothing"), None);
}

#[test]
fn shown_cards_leave_out_the_screensaver() {
    let config = config_with(three_cards());
    let cards = config.devices[0].1.get_cards();
    let types: Vec<&str> = cards.iter().map(|c| c.type_.as_str()).collect();
    assert_eq!(types, vec!["cardQR", "cardThermo", "cardHome"]);
}

#[test]
fn adjacent_cards_wrap_both_ways() {
    let config = config_with(three_cards());
    assert_eq!(config.get_adjacent_card("panel", "cardHome", true).unwrap().type_, "cardQR");
    assert_eq!(config.get_adjacent_card("panel", "cardQR", false).unwrap().type_, "cardHome");
    assert_eq!(config.get_adjacent_card("panel", "cardQR", true).unwrap().type_, "cardThermo");
    assert!(config.get_adjacent_card("panel", "cardGarage", true).is_none());
    assert!(config.get_adjacent_card("other", "cardQR", true).is_none());
}

#[test]
fn entity_queries_follow_card_order() {
    let config = config_with(three_cards());
    assert_eq!(config.get_entity_by_name("panel", "Password").unwrap().entity, "sensor.pass");
    assert!(config.get_entity_by_name("panel", "none").is_none());
    assert_eq!(config.get_card_by_name("panel", "cardThermo").unwrap().entities.len(), 1);
    assert_eq!(
        config.get_entity_by_name_and_by_card("panel", "cardQR", "SSID").unwrap().entity,
        "sensor.ssid"
    );
    assert!(config.get_entity_by_name_and_by_card("panel", "cardThermo", "SSID").is_none());
    assert_eq!(config.devices[0].1.get_entity_by_name("thermo").unwrap().entity, "climate.room");
    let entities = config.get_entities();
    assert_eq!(entities.len(), 1);
    assert_eq!(entities[0].0, "panel");
    assert_eq!(entities[0].1, vec!["sensor.ssid", "sensor.pass", "climate.room"]);
}

#[test]
fn exit_screensaver_opens_first_card() {
    let config = config_with(three_cards());
    let mut store = DeviceStore::new();
    let cache = WeatherCache::new();
    let frames = Command::new(&config, "panel").execute_at(&mut store, &cache, Page::ExistScreensaver, &noon());
    assert_eq!(
        frames,
        vec![
            "pageType~cardQR".to_string(),
            "entityUpd~cardQR title~1|1~WIFI:S:home;;~text~sensor.ssid~W~17299~SSID~text~sensor.pass~K~17299~Password".to_string(),
        ]
    );
    let page = store.get("panel").page.unwrap();
    assert_eq!(page, Shown { current: Card::CardQR, previous: Card::Screensaver });
}

#[test]
fn exit_screensaver_without_cards_stays() {
    let config = config_with(vec![]);
    let mut store = DeviceStore::new();
    let cache = WeatherCache::new();
    let frames = Command::new(&config, "panel").execute_at(&mut store, &cache, Page::ExistScreensaver, &noon());
    assert_eq!(frames[0], "X");
    assert_eq!(frames[5], "pageType~screensaver");
    let page = store.get("panel").page.unwrap();
    assert_eq!(page, Shown { current: Card::Screensaver, previous: Card::Screensaver });
}

#[test]
fn exit_screensaver_returns_to_previous_page() {
    let config = config_with(three_cards());
    let mut store = DeviceStore::new();
    let cache = WeatherCache::new();
    let command = Command::new(&config, "panel");
    command.execute_at(&mut store, &cache, Page::CardThermo, &noon());
    command.execute_at(&mut store, &cache, Page::Screensaver, &noon());
    let frames = command.execute_at(&mut store, &cache, Page::ExistScreensaver, &noon());
    assert_eq!(frames[0], "pageType~cardThermo");
    assert_eq!(store.get("panel").page.unwrap(), Shown { current: Card::CardThermo, previous: Card::Screensaver });
}

#[test]
fn unknown_device_gets_no_frames() {
    let config = config_with(three_cards());
    let mut store = DeviceStore::new();
    let cache = WeatherCache::new();
    let frames = Command::new(&config, "ghost").execute_at(&mut store, &cache, Page::Startup, &noon());
    assert!(frames.is_empty());
    let frames = commands_matching(&config, &mut store, &cache, "ghost", r#"{"CustomRecv":"event,startup,1,eu"}"#);
    assert!(frames.is_empty());
    assert!(store.get("ghost").page.is_some());
    assert_eq!(store.get("ghost").page.unwrap(), Shown { current: Card::Screensaver, previous: Card::Screensaver });
}

#[test]
fn screensaver_frames_are_exact() {
    let config = config_with(vec![]);
    let mut store = DeviceStore::new();
    let mut temp = DeviceState::empty();
    temp.temp = Some("21.5".to_string());
    store.merge_update("panel", temp);
    let mut cache = WeatherCache::new();
    cache.update = Some("weatherUpdate~x".to_string());
    cache.color = Some("color~y".to_string());
    let frames = Command::new(&config, "panel").execute_at(&mut store, &cache, Page::Startup, &noon());
    assert_eq!(
        frames,
        vec![
            "X",
            "time~07:05",
            "date~Monday, 01. January 2024",
            "timeout~30",
            "dimmode~10~100~6371",
            "pageType~screensaver",
            "temperature~T~21.5°C",
            "weatherUpdate~x",
            "color~y",
        ]
    );
}

#[test]
fn paging_buttons_move_between_cards() {
    let config = config_with(three_cards());
    let mut store = DeviceStore::new();
    let cache = WeatherCache::new();
    let frames = commands_matching_at(
        &config,
        &mut store,
        &cache,
        "panel",
        r#"{"CustomRecv":"event,buttonPress2,cardHome,bNext"}"#,
        &noon(),
    );
    assert_eq!(frames[0], "pageType~cardQR");
    let frames = commands_matching_at(
        &config,
        &mut store,
        &cache,
        "panel",
        r#"{"CustomRecv":"event,buttonPress2,cardQR,bPrev"}"#,
        &noon(),
    );
    assert_eq!(
        frames,
        vec![
            "pageType~cardHome".to_string(),
            "entityUpd~cardHome title~1|1~WIFI:S:home;;~text~~\0~17299~~text~~\0~17299~".to_string(),
        ]
    );
    assert_eq!(store.get("panel").page.unwrap(), Shown { current: Card::CardHome, previous: Card::CardQR });
}

#[test]
fn panel_tokens_classify_by_prefix() {
    let config = config_with(three_cards());
    assert_eq!(request_for_tokens(&config, "panel", "\"event,startup,1,eu\"", &None), Some(Page::Startup));
    assert_eq!(request_for_tokens(&config, "panel", "\"event,sleepReached,cardQR\"", &None), Some(Page::Screensaver));
    assert_eq!(
        request_for_tokens(&config, "panel", "\"event,buttonPress2,screensaver,bExit,1\"", &None),
        Some(Page::ExistScreensaver)
    );
    let groups = Some(vec![
        Some("event,buttonPress2,cardThermo,bNext".to_string()),
        Some("cardThermo".to_string()),
        Some("bNext".to_string()),
    ]);
    assert_eq!(request_for_tokens(&config, "panel", "\"event,buttonPress2,cardThermo,bNext\"", &groups), Some(Page::CardHome));
    assert_eq!(request_for_tokens(&config, "panel", "\"event,other\"", &None), None);
}

#[test]
fn malformed_payload_yields_nothing() {
    let config = config_with(three_cards());
    let mut store = DeviceStore::new();
    let cache = WeatherCache::new();
    assert!(commands_matching_at(&config, &mut store, &cache, "panel", "not json", &noon()).is_empty());
    assert!(commands_matching_at(&config, &mut store, &cache, "panel", r#"{"Other":"event,startup,"}"#, &noon()).is_empty());
}

#[test]
fn topics_map_to_devices() {
    let config = config_with(three_cards());
    assert_eq!(uplink_device(&config, "tele/panel"), Some("panel".to_string()));
    assert_eq!(uplink_device(&config, "cmnd/panel"), None);
    assert_eq!(downlink_topic(&config, "panel"), Some("cmnd/panel".to_string()));
    assert_eq!(downlink_topic(&config, "ghost"), None);
}

#[test]
fn execute_reads_the_clock() {
    let config = config_with(three_cards());
    let mut store = DeviceStore::new();
    let cache = WeatherCache::new();
    assert!(Command::new(&config, "ghost").execute(&mut store, &cache, Page::Startup).is_empty());
    let frames = Command::new(&config, "panel").execute(&mut store, &cache, Page::Startup);
    assert_eq!(frames.len(), 7);
    assert_eq!(frames[0], "X");
    assert!(frames[1].starts_with("time~") && frames[1].len() == "time~HH:MM".len());
    assert!(frames[2].starts_with("date~") && frames[2].len() > "date~".len());
    assert_eq!(Page::from_card(Card::CardHome), Page::CardHome);
}

#[test]
fn uplink_messages_answer_on_the_frame_topic() {
    let config = config_with(three_cards());
    let mut store = DeviceStore::new();
    let cache = WeatherCache::new();
    let payload = r#"{"CustomRecv":"event,buttonPress2,cardQR,bNext"}"#;
    let (topic, frames) = handle_uplink_message(&config, &mut store, &cache, "tele/panel", payload).unwrap();
    assert_eq!(topic, "cmnd/panel");
    assert_eq!(frames[0], "pageType~cardThermo");
    assert!(handle_uplink_message(&config, &mut store, &cache, "tele/other", payload).is_none());
}

#[test]
fn screensaver_cards_are_never_paged_to() {
    let mut cards = three_cards();
    cards[0].type_ = "ScreenSaver".to_string();
    cards.insert(2, card("SCREENSAVER", vec![]));
    let config = config_with(cards);
    let types: Vec<String> = config.devices[0].1.get_cards().into_iter().map(|c| c.type_).collect();
    assert_eq!(types, vec!["cardQR", "cardThermo", "cardHome"]);
    assert_eq!(config.get_adjacent_card("panel", "cardQR", true).unwrap().type_, "cardThermo");
    let mut store = DeviceStore::new();
    let cache = WeatherCache::new();
    let frames = Command::new(&config, "panel").execute_at(&mut store, &cache, Page::ExistScreensaver, &noon());
    assert_eq!(frames[0], "pageType~cardQR");
}

#[test]
fn configurations_need_unique_ordered_keys() {
    let mut config = config_with(three_cards());
    assert!(config.is_well_formed());
    config.devices.push(("panel".to_string(), device(vec![])));
    assert!(!config.is_well_formed());
    config.devices.pop();
    config.devices.insert(0, ("zulu".to_string(), device(vec![])));
    assert!(!config.is_well_formed());
    config.devices.remove(0);
    config.icons.reverse();
    assert!(!config.is_well_formed());
    config.icons.sort_by(|a, b| a.0.cmp(&b.0));
    assert!(config.is_well_formed());
}
