use opendoor_monitor::config::{
    config_dir_identity, config_file_in, get_config_dir, get_config_path, resolve_loaded_config, window_move_due, AppConfig, ConfigError,
    DisplayConfig, MqttConfig, WindowConfig,
};
use opendoor_monitor::mqtt::{handle_event, ConnectionLoop, LoopAction, MqttEvent, MqttManager};
use opendoor_monitor::state::{
    contacts_count_open, contacts_get_all, mqtt_connect, mqtt_disconnect, mqtt_subscribe,
    mqtt_unsubscribe, AppState,
};
use opendoor_monitor::topics::TopicSet;
use opendoor_monitor::contact::ContactParseError;

fn publish(topic: &str, payload: &str) -> MqttEvent {
    MqttEvent::Publish { topic: topic.to_string(), payload: payload.as_bytes().to_vec() }
}

#[test]
fn app_state_starts_empty() {
    let s = AppState::default();
    assert_eq!(s.count_open(), 0);
    assert!(!s.mqtt_status.connected);
    assert_eq!(s.mqtt_status.broker, "");
    assert!(s.mqtt_manager.is_none());
    assert_eq!(contacts_get_all(&s).unwrap().len(), 0);
}

#[test]
fn connect_command_reports_broker_and_client() {
    let mut s = AppState::default();
    let msg = mqtt_connect(&mut s, "192.168.1.55".to_string(), 1883, "monitor".to_string()).unwrap();
    assert_eq!(msg, "Connected to 192.168.1.55 as monitor");
    assert!(s.mqtt_status.connected);
    assert_eq!(s.mqtt_status.broker, "192.168.1.55");
    assert_eq!(s.mqtt_status.client_name, "monitor");
    mqtt_disconnect(&mut s).unwrap();
    assert!(!s.mqtt_status.connected);
    assert_eq!(s.mqtt_status.broker, "192.168.1.55");
}

#[test]
fn subscribe_command_adds_closed_contact() {
    let mut s = AppState::default();
    mqtt_subscribe(&mut s, "zigbee2mqtt/mcmdhome/Front Door".to_string(), "Front door".to_string()).unwrap();
    let all = contacts_get_all(&s).unwrap();
    assert_eq!(all.len(), 1);
    assert_eq!(all[0].friendly_name, "Front door");
    assert!(all[0].contact);
    assert_eq!(all[0].battery, None);
    assert_eq!(all[0].payload, "");
    assert_eq!(contacts_count_open(&s).unwrap(), 0);
    mqtt_unsubscribe(&mut s, "zigbee2mqtt/mcmdhome/Front Door".to_string()).unwrap();
    assert_eq!(contacts_get_all(&s).unwrap().len(), 0);
}

#[test]
fn reports_update_contacts_and_open_count() {
    let mut s = AppState::default();
    let mut lp = ConnectionLoop::new();
    mqtt_subscribe(&mut s, "door".to_string(), "Front door".to_string()).unwrap();
    let a = handle_event(&mut lp, &mut s, publish("door", r#"{"contact": false, "battery": 98}"#));
    assert!(matches!(a, LoopAction::Idle));
    assert_eq!(contacts_count_open(&s).unwrap(), 1);
    let door = s.contacts.get("door").unwrap();
    assert_eq!(door.friendly_name, "Front door");
    assert!(!door.contact);
    assert_eq!(door.battery, Some(98));
    // A battery-only heartbeat keeps the door open.
    handle_event(&mut lp, &mut s, publish("door", r#"{"battery": 97}"#));
    let door = s.contacts.get("door").unwrap();
    assert!(!door.contact);
    assert_eq!(door.battery, Some(97));
    assert_eq!(contacts_count_open(&s).unwrap(), 1);
    // Closing it.
    handle_event(&mut lp, &mut s, publish("door", r#"{"contact": true}"#));
    assert_eq!(contacts_count_open(&s).unwrap(), 0);
    // A sensor heard of first through a report.
    handle_event(&mut lp, &mut s, publish("garage", r#"{"contact": false}"#));
    assert_eq!(s.contacts.get("garage").unwrap().friendly_name, "garage");
    assert_eq!(contacts_count_open(&s).unwrap(), 1);
}

#[test]
fn unreadable_report_changes_nothing() {
    let mut s = AppState::default();
    let mut lp = ConnectionLoop::new();
    match handle_event(&mut lp, &mut s, publish("door", "garbage")) {
        LoopAction::PayloadRejected { topic, error } => {
            assert_eq!(topic, "door");
            assert_eq!(error, ContactParseError::InvalidJson);
        }
        other => panic!("unexpected {:?}", other),
    }
    assert!(!s.contacts.contains("door"));
}

#[test]
fn conn_ack_resubscribes_every_topic() {
    let mut s = AppState::default();
    let mut lp = ConnectionLoop::new();
    let mut session = MqttManager::new();
    session.record_subscribed("a".to_string());
    session.record_subscribed("b".to_string());
    session.record_subscribed("a".to_string());
    assert_eq!(session.subscribed_topics().len(), 2);
    s.mqtt_manager = Some(session);
    match handle_event(&mut lp, &mut s, MqttEvent::ConnAck { session_present: false }) {
        LoopAction::Resubscribe(mut v) => {
            v.sort();
            assert_eq!(v, vec!["a".to_string(), "b".to_string()]);
        }
        other => panic!("unexpected {:?}", other),
    }
    assert!(s.mqtt_status.connected);
    assert!(lp.was_connected);
    let a = handle_event(&mut lp, &mut s, MqttEvent::Disconnect);
    assert!(matches!(a, LoopAction::Idle));
    assert!(!s.mqtt_status.connected);
}

#[test]
fn conn_ack_without_session_resubscribes_nothing() {
    let mut s = AppState::default();
    let mut lp = ConnectionLoop::new();
    match handle_event(&mut lp, &mut s, MqttEvent::ConnAck { session_present: false }) {
        LoopAction::Resubscribe(v) => assert!(v.is_empty()),
        other => panic!("unexpected {:?}", other),
    }
}

#[test]
fn topic_sets_hold_each_topic_once() {
    let mut t = TopicSet::new();
    t.insert("x".to_string());
    t.insert("y".to_string());
    t.insert("x".to_string());
    assert_eq!(t.len(), 2);
    assert!(t.contains("x"));
    t.remove("x");
    assert!(!t.contains("x"));
    assert_eq!(t.to_vec(), vec!["y".to_string()]);
    t.clear();
    assert_eq!(t.len(), 0);
}

#[test]
fn reconnect_waits_double_up_to_thirty_two_seconds() {
    let mut s = AppState::default();
    let mut lp = ConnectionLoop::new();
    let mut waits = Vec::new();
    for _ in 0..9 {
        match handle_event(&mut lp, &mut s, MqttEvent::PollFailed) {
            LoopAction::Backoff { wait_ms, connection_lost } => {
                assert!(!connection_lost);
                waits.push(wait_ms);
            }
            other => panic!("unexpected {:?}", other),
        }
    }
    assert_eq!(waits, vec![500, 1000, 2000, 4000, 8000, 16000, 32000, 32000, 32000]);
    handle_event(&mut lp, &mut s, MqttEvent::ConnAck { session_present: true });
    assert_eq!(lp.reconnect_delay_ms, 500);
    match handle_event(&mut lp, &mut s, MqttEvent::PollFailed) {
        LoopAction::Backoff { wait_ms, connection_lost } => {
            assert_eq!(wait_ms, 500);
            assert!(connection_lost);
        }
        other => panic!("unexpected {:?}", other),
    }
    assert!(!s.mqtt_status.connected);
    assert_eq!(lp.reconnect_delay_ms, 1000);
}

#[test]
fn other_events_change_nothing() {
    let mut s = AppState::default();
    let mut lp = ConnectionLoop::new();
    for e in [MqttEvent::SubAck, MqttEvent::PingResp, MqttEvent::Outgoing, MqttEvent::Other] {
        assert!(matches!(handle_event(&mut lp, &mut s, e), LoopAction::Idle));
    }
    assert_eq!(lp.reconnect_delay_ms, 500);
    assert!(!s.mqtt_status.connected);
}

#[test]
fn manager_tracks_session() {
    let mut m = MqttManager::new();
    assert!(!m.has_client());
    assert_eq!(m.port(), 1883);
    assert_eq!(m.broker(), "");
    let settings = m.connect("broker".to_string(), 1884, "me".to_string(), Some("u".to_string()), Some("p".to_string()));
    assert_eq!(settings.client_id, "me");
    assert_eq!(settings.host, "broker");
    assert_eq!(settings.port, 1884);
    assert_eq!(settings.keep_alive_secs, 30);
    assert_eq!(settings.max_incoming_packet_size, 10 * 1024);
    assert_eq!(settings.max_outgoing_packet_size, 10 * 1024);
    assert!(settings.clean_session);
    assert_eq!(settings.request_capacity, 10);
    assert_eq!(settings.credentials, Some(("u".to_string(), "p".to_string())));
    assert!(m.has_client());
    assert_eq!(m.client_name(), "me");
    m.record_subscribed("t1".to_string());
    m.record_subscribed("t2".to_string());
    m.record_unsubscribed("t1");
    assert!(m.subscribed_topics().contains("t2"));
    assert!(!m.subscribed_topics().contains("t1"));
    m.disconnect();
    assert!(!m.has_client());
    assert_eq!(m.subscribed_topics().len(), 0);
    assert_eq!(m.broker(), "broker");
}

#[test]
fn credentials_need_user_and_password() {
    let mut m = MqttManager::new();
    let s = m.connect("b".to_string(), 1883, "c".to_string(), Some("u".to_string()), None);
    assert_eq!(s.credentials, None);
    let s = m.connect("b".to_string(), 1883, "c".to_string(), None, Some("p".to_string()));
    assert_eq!(s.credentials, None);
}

#[test]
fn default_config_matches_documentation() {
    let c = AppConfig::default();
    assert_eq!(c.mqtt.broker, "192.168.1.1");
    assert_eq!(c.mqtt.port, 1883);
    assert_eq!(c.mqtt.client_name, "opendoor_monitor_linux");
    assert_eq!(c.display.brightness, 100);
    assert!(!c.display.flip_screen);
    assert_eq!(c.display.scroll_interval_ms, 1750);
    assert_eq!(c.window.x, 0);
    assert_eq!(c.window.y, 0);
    assert!(c.window.always_on_top);
    assert_eq!(c.window.transparency, 255);
    assert!(c.subscriptions.is_empty());
    assert_eq!(MqttConfig::default().port, 1883);
    assert_eq!(DisplayConfig::default().brightness, 100);
    assert_eq!(WindowConfig::default().transparency, 255);
}

#[test]
fn config_file_sits_in_its_directory() {
    assert_eq!(
        config_file_in(b"/home/u/.config/opendoor-monitor".to_vec()),
        b"/home/u/.config/opendoor-monitor/config.toml".to_vec()
    );
    assert_eq!(config_file_in(b"/tmp/".to_vec()), b"/tmp/config.toml".to_vec());
    assert_eq!(config_file_in(Vec::new()), b"config.toml".to_vec());
    assert_eq!(config_file_in(vec![0x2f, 0xff, 0x61]), vec![0x2f, 0xff, 0x61, 0x2f, b'c', b'o', b'n', b'f', b'i', b'g', b'.', b't', b'o', b'm', b'l']);
    match get_config_path() {
        Ok(p) => assert!(p.ends_with(b"/config.toml")),
        Err(e) => assert_eq!(e.message(), "Could not determine config directory"),
    }
    assert_eq!(ConfigError::NoConfigDir.message(), "Could not determine config directory");
}

#[test]
fn config_directory_is_looked_up_for_this_application() {
    assert_eq!(config_dir_identity(), ("com", "merlin", "opendoor-monitor"));
    if let Ok(dir) = get_config_dir() {
        assert!(!dir.is_empty());
    }
}

#[test]
fn missing_config_file_is_replaced_by_defaults() {
    let (c, save) = resolve_loaded_config(None);
    assert!(save);
    assert_eq!(c.display.scroll_interval_ms, 1750);
    let mut stored = AppConfig::default();
    stored.window.x = 42;
    let (c, save) = resolve_loaded_config(Some(stored));
    assert!(!save);
    assert_eq!(c.window.x, 42);
}

#[test]
fn window_moves_are_saved_at_most_every_300_ms() {
    assert!(!window_move_due(0));
    assert!(!window_move_due(299));
    assert!(window_move_due(300));
    assert!(window_move_due(5000));
}

#[test]
fn disconnected_session_resubscribes_nothing() {
    let mut s = AppState::default();
    let mut lp = ConnectionLoop::new();
    let mut session = MqttManager::new();
    session.connect("b".to_string(), 1883, "c".to_string(), None, None);
    session.record_subscribed("door".to_string());
    session.disconnect();
    s.mqtt_manager = Some(session);
    match handle_event(&mut lp, &mut s, MqttEvent::ConnAck { session_present: false }) {
        LoopAction::Resubscribe(v) => assert!(v.is_empty()),
        other => panic!("unexpected {:?}", other),
    }
}
