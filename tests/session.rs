use nspanel_server::config::{
    Cards, Config, Connectivity, Device, DeviceConfig, Entity, Hass, Model, Mqtt, MqttClient,
};
use nspanel_server::hass::{
    auth_message, device_for_id, route_event, session_step, subscribe_message, subscriptions,
    SessionAction, SessionEvent, SessionState,
};
use nspanel_server::watcher::FolderWatcher;

fn device(id: &str, entities: &[&str]) -> (String, Device) {
    (
        id.to_string(),
        Device {
            module: "nspanel".to_string(),
            id: id.to_string(),
            mqtt: Mqtt { rx_topic: format!("cmnd/{}", id), tx_topic: format!("tele/{}", id) },
            model: Model::US,
            config: DeviceConfig {
                timeout_to_screensaver: 20,
                screensaver_brightness: vec![],
                locale: "en_US".to_string(),
                timezone: "UTC".to_string(),
            },
            cards: vec![Cards {
                type_: "screensaver".to_string(),
                title: None,
                data: None,
                entities: entities
                    .iter()
                    .map(|e| Entity { entity: e.to_string(), name: None, icon: None })
                    .collect(),
            }],
        },
    )
}

fn config() -> Config {
    Config {
        connectivity: Connectivity {
            mqtt: MqttClient {
                type_: "mqtt".to_string(),
                id: "gateway".to_string(),
                host: "localhost".to_string(),
                port: 1883,
                user: "user".to_string(),
                password: "secret".to_string(),
            },
            hass: Hass { type_: "hass".to_string(), host: "hub".to_string(), port: 8123, token: "abc".to_string() },
        },
        devices: vec![device("hall", &["sensor.a", "weather.b"]), device("kitchen", &[])],
        icons: vec![],
    }
}

#[test]
fn session_messages_are_exact() {
    let config = config();
    assert_eq!(auth_message(&config), r#"{ "type": "auth", "access_token": "abc" }"#);
    assert_eq!(
        subscribe_message(7, &vec!["sensor.a".to_string(), "weather.\"b\"".to_string()]),
        r#"{ "id": 7, "type": "subscribe_entities", "entity_ids": ["sensor.a", "weather.\"b\""] }"#
    );
    let subs = subscriptions(&config);
    assert_eq!(subs.len(), 2);
    assert_eq!(subs[0].id, 1);
    assert_eq!(subs[0].device_id, "hall");
    assert_eq!(subs[0].message, r#"{ "id": 1, "type": "subscribe_entities", "entity_ids": ["sensor.a", "weather.b"] }"#);
    assert_eq!(subs[1].id, 2);
    assert_eq!(subs[1].message, r#"{ "id": 2, "type": "subscribe_entities", "entity_ids": [] }"#);
}

#[test]
fn hub_events_route_by_subscription_id() {
    let subs = subscriptions(&config());
    assert_eq!(route_event(&subs, r#"{"id":2,"type":"event","event":{"a":{}}}"#), Some("kitchen".to_string()));
    assert_eq!(route_event(&subs, r#"{"id":3,"type":"event","event":{"a":{}}}"#), None);
    assert_eq!(route_event(&subs, r#"{"id":1,"type":"result","success":true}"#), None);
    assert_eq!(device_for_id(&subs, "1"), Some("hall".to_string()));
    assert_eq!(device_for_id(&subs, "01"), None);
}

#[test]
fn supervisor_reconnects_until_shutdown() {
    assert_eq!(session_step(SessionState::Connecting, SessionEvent::Connected, false), (SessionState::Live, SessionAction::Subscribe));
    assert_eq!(
        session_step(SessionState::Connecting, SessionEvent::ConnectFailed, false),
        (SessionState::Connecting, SessionAction::RetryAfterDelay)
    );
    assert_eq!(session_step(SessionState::Live, SessionEvent::Closed, false), (SessionState::Connecting, SessionAction::RetryAfterDelay));
    assert_eq!(session_step(SessionState::Live, SessionEvent::Failed, false), (SessionState::Connecting, SessionAction::RetryAfterDelay));
    assert_eq!(session_step(SessionState::Live, SessionEvent::Closed, true), (SessionState::Stopped, SessionAction::Stop));
    assert_eq!(session_step(SessionState::Stopped, SessionEvent::Connected, false), (SessionState::Stopped, SessionAction::Stop));
}

#[test]
fn watcher_uses_the_folder_of_a_file() {
    let w = FolderWatcher::from_folder("./config/config.yaml", true, vec!["config.yaml".to_string(), "icons.yaml".to_string()]);
    assert_eq!(w.path(), "./config");
    assert!(w.watches("icons.yaml"));
    assert!(!w.watches("other.yaml"));
    let w = FolderWatcher::from_folder("./config/", false, vec![]);
    assert_eq!(w.path(), "./config/");
    let w = FolderWatcher::from_file("./config/icons.yaml", true).unwrap();
    assert_eq!(w.path(), "./config");
    assert!(w.watches("icons.yaml"));
    assert!(FolderWatcher::from_file("/", false).is_none());
}

