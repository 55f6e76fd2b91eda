use nspanel_server::alarm::{alarm_update_frame, modes_text_exec, Alarm};
use nspanel_server::cards::Card;
use nspanel_server::clock::LocalTime;
use nspanel_server::command::{Command, Page};
use nspanel_server::config::{
    Cards, Config, Connectivity, Device, DeviceConfig, Entity, Hass, Model, Mqtt, MqttClient,
};
use nspanel_server::events::{
    push_tenths, AlarmEvent, AlarmEventData, EntityValue, Event, RootEvent, Tenths, WeatherEvent,
    WeatherEventData, WeatherForecast,
};
use nspanel_server::mqttc::{parse_hass_event, time_update_frame};
use nspanel_server::pages::{get_room_temperature, get_weather_and_colors, temperature_frame, weather_frames};
use nspanel_server::screensaver::Screensaver;
use nspanel_server::state::{AlarmState, DeviceState, DeviceStore, WeatherCache};
use nspanel_server::weather::{get_screensaver_color_output, get_weather_icon};

fn named(id: &str, name: &str) -> Entity {
    Entity { entity: id.to_string(), name: Some(name.to_string()), icon: None }
}

fn config() -> Config {
    let cards = vec![
        Cards {
            type_: "screensaver".to_string(),
            title: None,
            data: None,
            entities: vec![
                named("sensor.room_temperature", "temperatureSensor"),
                named("weather.home", "weather"),
            ],
        },
        Cards {
            type_: "cardAlarm".to_string(),
            title: None,
            data: None,
            entities: vec![named("alarm_control_panel.home", "alarm")],
        },
    ];
    Config {
        connectivity: Connectivity {
            mqtt: MqttClient {
                type_: "mqtt".to_string(),
                id: "gateway".to_string(),
                host: "localhost".to_string(),
                port: 1883,
                user: "user".to_string(),
                password: "secret".to_string(),
            },
            hass: Hass { type_: "hass".to_string(), host: "localhost".to_string(), port: 8123, token: "token".to_string() },
        },
        devices: vec![(
            "panel".to_string(),
            Device {
                module: "nspanel".to_string(),
                id: "panel".to_string(),
                mqtt: Mqtt { rx_topic: "cmnd/panel".to_string(), tx_topic: "tele/panel".to_string() },
                model: Model::EU,
                config: DeviceConfig {
                    timeout_to_screensaver: 30,
                    screensaver_brightness: vec![],
                    locale: "en_US".to_string(),
                    timezone: "Europe/Berlin".to_string(),
                },
                cards,
            },
        )],
        icons: vec![
            ("bell-ring".to_string(), 'B'),
            ("home-thermometer-outline".to_string(), 'T'),
            ("shield".to_string(), 'S'),
            ("shield-lock".to_string(), 'L'),
            ("shield-off".to_string(), 'O'),
            ("weather-rainy".to_string(), 'R'),
            ("weather-sunny".to_string(), 'U'),
        ],
    }
}

fn day(datetime: &str, condition: &str, high: i32, low: i32) -> WeatherForecast {
    WeatherForecast {
        datetime: Some(datetime.to_string()),
        condition: Some(condition.to_string()),
        temperature: Some(Tenths { value: high }),
        templow: Some(Tenths { value: low }),
    }
}

fn weather(days: usize) -> WeatherEvent {
    let all = vec![
        day("2024-01-01T12:00:00+00:00", "sunny", 215, 98),
        day("2024-01-02T12:00:00+00:00", "rainy", 120, -5),
        day("2024-01-03T12:00:00+00:00", "fog", 80, 10),
        day("2024-01-04T12:00:00+00:00", "snowy", -20, -75),
        day("2024-01-05T12:00:00+00:00", "sunny", 100, 0),
    ];
    WeatherEvent {
        state: Some("sunny".to_string()),
        data: Some(WeatherEventData { temperature: Some(Tenths { value: 183 }), forecast: all.into_iter().take(days).collect() }),
    }
}

fn alarm_value(state: &str) -> EntityValue {
    EntityValue {
        text: format!("{{\"s\":\"{}\",\"a\":{{\"supported_features\":3}}}}", state),
        flat_weather: None,
        nested_weather: None,
        flat_alarm: Some(AlarmEvent {
            state: Some(state.to_string()),
            data: Some(AlarmEventData { supported_features: Some(3), code_arm_required: Some(true) }),
        }),
        nested_alarm: None,
    }
}

fn alarm_event(state: &str) -> (String, RootEvent) {
    let raw = format!(
        "{{\"id\":1,\"type\":\"event\",\"event\":{{\"a\":{{\"alarm_control_panel.home\":{{\"s\":\"{}\",\"a\":{{\"supported_features\":3}}}}}}}}}}",
        state
    );
    let event = RootEvent {
        id: 1,
        type_: "event".to_string(),
        event: Event { entities: vec![("alarm_control_panel.home".to_string(), alarm_value(state))] },
    };
    (raw, event)
}

fn noon() -> LocalTime {
    LocalTime { year: 2024, month: 1, day: 1, hour: 12, minute: 0 }
}

fn stored_alarm(state: &str, code_arm_required: Option<bool>) -> AlarmState {
    AlarmState {
        state: state.to_string(),
        supported_mode: "Arm Away~arm_away".to_string(),
        code_arm_required,
        entity: "alarm_control_panel.home".to_string(),
        icon: (String::new(), 0),
    }
}

#[test]
fn alarm_states_pick_icon_and_flags() {
    let icons = config().icons;
    assert_eq!(
        alarm_update_frame(&icons, &stored_alarm("armed_away", None)),
        "entityUpd~alarm_control_panel.home~1|1~Arm Away~arm_away~L~55907~enable~disable~"
    );
    assert_eq!(
        alarm_update_frame(&icons, &stored_alarm("pending", None)),
        "entityUpd~alarm_control_panel.home~1|1~Arm Away~arm_away~S~62848~enable~enable~"
    );
    assert_eq!(
        alarm_update_frame(&icons, &stored_alarm("triggered", None)),
        "entityUpd~alarm_control_panel.home~1|1~Arm Away~arm_away~B~55907~enable~enable~"
    );
    assert_eq!(
        alarm_update_frame(&icons, &stored_alarm("disarmed", Some(false))),
        "entityUpd~alarm_control_panel.home~1|1~Arm Away~arm_away~O~3334~disable~disable~"
    );
    assert_eq!(
        alarm_update_frame(&icons, &stored_alarm("disarmed", None)),
        "entityUpd~alarm_control_panel.home~1|1~Arm Away~arm_away~O~3334~enable~disable~"
    );
    assert_eq!(
        alarm_update_frame(&icons, &stored_alarm("jammed", None)),
        "entityUpd~alarm_control_panel.home~1|1~Arm Away~arm_away~~0~disable~disable~"
    );
}

#[test]
fn feature_bits_list_arming_modes() {
    assert_eq!(modes_text_exec(0), "");
    assert_eq!(modes_text_exec(2), "Arm Away~arm_away");
    assert_eq!(modes_text_exec(1 | 2 | 32), "Arm Home~arm_home~Arm Away~arm_away~Arm Vacation~arm_vacation");
    assert_eq!(modes_text_exec(4 | 8), "Arm Night~arm_night");
}

#[test]
fn alarm_hidden_on_screensaver_is_still_stored() {
    let config = config();
    let mut store = DeviceStore::new();
    let mut cache = WeatherCache::new();
    let (raw, event) = alarm_event("armed_away");
    let frames = parse_hass_event(&config, &mut store, &mut cache, "panel", &raw, &event);
    assert!(frames.is_empty());
    let alarm = store.get("panel").alarm.unwrap();
    assert_eq!(alarm.state, "armed_away");
    assert_eq!(alarm.supported_mode, "Arm Home~arm_home~Arm Away~arm_away");
    assert_eq!(alarm.icon, ("L".to_string(), 55907));
    let shown = Command::new(&config, "panel").execute_at(&mut store, &cache, Page::CardAlarm, &noon());
    assert_eq!(
        shown,
        vec![
            "pageType~cardAlarm".to_string(),
            "entityUpd~alarm_control_panel.home~1|1~Arm Home~arm_home~Arm Away~arm_away~L~55907~enable~disable~".to_string(),
        ]
    );
}

#[test]
fn alarm_frame_reaches_the_alarm_card() {
    let config = config();
    let mut store = DeviceStore::new();
    let mut cache = WeatherCache::new();
    Command::new(&config, "panel").execute_at(&mut store, &cache, Page::CardAlarm, &noon());
    let (raw, event) = alarm_event("pending");
    let frames = parse_hass_event(&config, &mut store, &mut cache, "panel", &raw, &event);
    assert_eq!(
        frames,
        vec!["entityUpd~alarm_control_panel.home~1|1~Arm Home~arm_home~Arm Away~arm_away~S~62848~enable~enable~".to_string()]
    );
}

#[test]
fn placeholder_alarm_is_skipped() {
    let config = config();
    let mut store = DeviceStore::new();
    let mut messages = Vec::new();
    let (raw, mut event) = alarm_event("unavailable");
    event.event.entities[0].1.text = "{\"s\":\"unavailable\"}".to_string();
    Alarm::process_alarm_data(&config, &raw, "panel", &config.devices[0].1, &event, &mut store, &mut messages);
    assert!(messages.is_empty());
    assert!(store.get("panel").alarm.is_none());
}

#[test]
fn alarm_fields_merge_one_by_one() {
    let mut store = DeviceStore::new();
    let mut first = DeviceState::empty();
    first.alarm = Some(AlarmState {
        state: "armed_home".to_string(),
        supported_mode: String::new(),
        code_arm_required: None,
        entity: String::new(),
        icon: (String::new(), 0),
    });
    DeviceState::read_process_overwrite(&mut store, "panel", first);
    let mut second = DeviceState::empty();
    second.alarm = Some(AlarmState {
        state: String::new(),
        supported_mode: String::new(),
        code_arm_required: None,
        entity: String::new(),
        icon: ("H".to_string(), 55907),
    });
    DeviceState::read_process_overwrite(&mut store, "panel", second);
    let alarm = DeviceState::get_state(&store, "panel").alarm.unwrap();
    assert_eq!(alarm.state, "armed_home");
    assert_eq!(alarm.icon, ("H".to_string(), 55907));
}

#[test]
fn room_temperature_is_read_from_event_text() {
    let config = config();
    let mut store = DeviceStore::new();
    let mut messages = Vec::new();
    let raw = r#"{"id":1,"type":"event","event":{"c":{"sensor.room_temperature":{"+":{"s":"22.4","lc":1}}}}}"#;
    Screensaver::process_temperature_sensor(&config, raw, "panel", &config.devices[0].1, &mut store, &mut messages);
    assert_eq!(messages, vec![(Card::Screensaver, "temperature~T~22.4°C".to_string())]);
    assert_eq!(store.get("panel").temp, Some("22.4".to_string()));
    let frame = get_room_temperature(&config, &raw.to_string(), named("sensor.room_temperature", "temperatureSensor"));
    assert_eq!(frame, Some("temperature~T~22.4°C".to_string()));
    assert_eq!(get_room_temperature(&config, &raw.to_string(), named("sensor.other", "x")), None);
    assert_eq!(temperature_frame(&config, "19.0"), "temperature~T~19.0°C");
}

#[test]
fn short_forecast_leaves_cache_alone() {
    let config = config();
    let mut cache = WeatherCache::new();
    cache.update = Some("weatherUpdate~old".to_string());
    cache.color = Some("color~old".to_string());
    let frames = Screensaver::get_weather_and_colors(&config, &weather(3), &mut cache);
    assert!(frames.is_empty());
    assert_eq!(cache.update, Some("weatherUpdate~old".to_string()));
    assert_eq!(cache.color, Some("color~old".to_string()));
    assert_eq!(get_weather_and_colors(&config, &weather(0)), None);
}

#[test]
fn four_day_forecast_gives_both_frames() {
    let config = config();
    let mut cache = WeatherCache::new();
    let frames = Screensaver::get_weather_and_colors(&config, &weather(4), &mut cache);
    assert_eq!(frames.len(), 2);
    let update = &frames[0];
    assert_eq!(
        update,
        "weatherUpdate~U~18.3°C~Mon~U~21.5°C~9.8°C~Tue~R~12.0°C~-0.5°C~Wed~\0~8.0°C~1.0°C~Thu~\0~-2.0°C~-7.5°C~"
    );
    let color = &frames[1];
    let fields: Vec<&str> = color.split('~').collect();
    assert_eq!(fields[0], "color");
    assert_eq!(fields.len(), 23);
    assert_eq!(
        color,
        "color~0~65535~65535~65535~63469~65535~65535~65535~65535~65535~63469~33759~21130~65535~65535~65535~65535~65535~65535~65535~65535~65535"
    );
    assert_eq!(cache.update.as_deref(), Some(update.as_str()));
    assert_eq!(cache.color.as_deref(), Some(color.as_str()));
}

#[test]
fn unreadable_forecast_date_skips_weather() {
    let config = config();
    let mut w = weather(4);
    w.data.as_mut().unwrap().forecast[2].datetime = Some("yesterday".to_string());
    assert_eq!(get_weather_and_colors(&config, &w), None);
}

#[test]
fn weather_frames_use_given_weekdays() {
    let config = config();
    let (color, update) = weather_frames(&config, &weather(5), &vec![6, 0, 1, 2]).unwrap();
    assert!(update.starts_with("weatherUpdate~U~18.3°C~Sun~U~21.5°C~9.8°C~Mon~"));
    assert!(color.starts_with("color~0~"));
    assert_eq!(weather_frames(&config, &weather(5), &vec![0, 1]), None);
}

#[test]
fn weather_event_updates_cache_and_screensaver() {
    let config = config();
    let mut store = DeviceStore::new();
    let mut cache = WeatherCache::new();
    let raw = r#"{"id":1,"type":"event","event":{"a":{"weather.home":{"s":"sunny","a":{}}}}}"#;
    let event = RootEvent {
        id: 1,
        type_: "event".to_string(),
        event: Event {
            entities: vec![(
                "weather.home".to_string(),
                EntityValue {
                    text: "{\"s\":\"sunny\",\"a\":{}}".to_string(),
                    flat_weather: Some(weather(4)),
                    nested_weather: None,
                    flat_alarm: None,
                    nested_alarm: None,
                },
            )],
        },
    };
    let frames = parse_hass_event(&config, &mut store, &mut cache, "panel", raw, &event);
    assert_eq!(frames.len(), 2);
    assert!(frames[0].starts_with("weatherUpdate~"));
    assert!(frames[1].starts_with("color~"));
    assert_eq!(cache.update.as_ref(), Some(&frames[0]));
    let nested_raw = r#"{"id":1,"type":"event","event":{"c":{"weather.home":{"+":{"s":"sunny"}}}}}"#;
    let mut other = WeatherCache::new();
    assert!(parse_hass_event(&config, &mut store, &mut other, "panel", nested_raw, &event).is_empty());
    assert!(other.update.is_none());
}

#[test]
fn weather_colors_follow_conditions() {
    let pairs = vec![
        ("tMainIcon".to_string(), "cloudy".to_string()),
        ("tF4Icon".to_string(), "pouring".to_string()),
        ("tF2Icon".to_string(), "tornado".to_string()),
        ("time".to_string(), "sunny".to_string()),
    ];
    assert_eq!(
        get_screensaver_color_output(&pairs),
        "color~0~65535~65535~65535~31728~65535~65535~65535~65535~65535~65535~65535~65535~249~65535~65535~65535~65535~65535~65535~65535~65535"
    );
    let icons = config().icons;
    assert_eq!(get_weather_icon("rainy".to_string(), &icons), 'R');
    assert_eq!(get_weather_icon("hail".to_string(), &icons), '\0');
    assert_eq!(get_weather_icon("tornado".to_string(), &icons), '\0');
}

#[test]
fn temperatures_keep_one_decimal() {
    let mut s = String::new();
    push_tenths(&mut s, Tenths { value: -5 });
    s.push(' ');
    push_tenths(&mut s, Tenths { value: 0 });
    s.push(' ');
    push_tenths(&mut s, Tenths { value: 1234 });
    assert_eq!(s, "-0.5 0.0 123.4");
}

#[test]
fn clock_frame_pads_hours_and_minutes() {
    let t = LocalTime { year: 2024, month: 6, day: 9, hour: 9, minute: 7 };
    assert_eq!(time_update_frame(&t), "time~09:07~");
    let t = LocalTime { year: 2024, month: 6, day: 9, hour: 23, minute: 59 };
    assert_eq!(time_update_frame(&t), "time~23:59~");
}
