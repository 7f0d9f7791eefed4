use opendoor_monitor::contact::{merge_report, parse_contact_message, ContactParseError, ContactStatus, ParsedContact};
use opendoor_monitor::json::{json_member, parse_json, JsonNumber, JsonValue};
use opendoor_monitor::text::str_equal;
use opendoor_monitor::table::ContactTable;

fn status(topic: &str, name: &str, contact: bool) -> ContactStatus {
    ContactStatus {
        topic: topic.to_string(),
        friendly_name: name.to_string(),
        contact,
        last_seen: None,
        battery: None,
        payload: String::new(),
    }
}

#[test]
fn parses_full_zigbee2mqtt_report() {
    let payload = br#"{"contact": true, "battery": 98, "last_seen": "2025-08-26T14:32:00Z"}"#;
    let p = parse_contact_message(payload).unwrap();
    assert_eq!(p.contact, Some(true));
    assert_eq!(p.battery, Some(98));
    assert_eq!(p.last_seen.as_deref(), Some("2025-08-26T14:32:00Z"));
    assert_eq!(p.payload.as_bytes(), &payload[..]);
}

#[test]
fn open_report_reads_contact_false() {
    let p = parse_contact_message(br#"{"contact": false}"#).unwrap();
    assert_eq!(p.contact, Some(false));
    assert_eq!(p.battery, None);
    assert_eq!(p.last_seen, None);
}

#[test]
fn partial_report_has_no_contact() {
    let p = parse_contact_message(br#"{"battery": 50}"#).unwrap();
    assert_eq!(p.contact, None);
    assert_eq!(p.battery, Some(50));
}

#[test]
fn battery_is_cut_to_its_low_byte() {
    let p = parse_contact_message(br#"{"battery": 300}"#).unwrap();
    assert_eq!(p.battery, Some(44));
}

#[test]
fn battery_needs_a_non_negative_integer() {
    assert_eq!(parse_contact_message(br#"{"battery": -5}"#).unwrap().battery, None);
    assert_eq!(parse_contact_message(br#"{"battery": 98.5}"#).unwrap().battery, None);
    assert_eq!(parse_contact_message(br#"{"battery": "98"}"#).unwrap().battery, None);
}

#[test]
fn fields_of_another_type_are_ignored() {
    let p = parse_contact_message(br#"{"contact": "yes", "last_seen": 12}"#).unwrap();
    assert_eq!(p.contact, None);
    assert_eq!(p.last_seen, None);
}

#[test]
fn non_object_document_has_no_fields() {
    let p = parse_contact_message(b"[1, 2]").unwrap();
    assert_eq!(p.contact, None);
    assert_eq!(p.battery, None);
    assert_eq!(p.payload, "[1, 2]");
}

#[test]
fn invalid_utf8_is_rejected() {
    assert_eq!(parse_contact_message(&[0x7b, 0xff, 0x7d]).unwrap_err(), ContactParseError::InvalidUtf8);
}

#[test]
fn invalid_json_is_rejected() {
    assert_eq!(parse_contact_message(b"not json").unwrap_err(), ContactParseError::InvalidJson);
    assert_eq!(parse_contact_message(b"").unwrap_err(), ContactParseError::InvalidJson);
}

#[test]
fn json_documents_are_mirrored() {
    let doc = parse_json(r#"{"a": [1, -2, 3.5, null], "b": {"c": true}}"#).unwrap();
    match json_member(&doc, "a") {
        Some(JsonValue::Array(items)) => {
            assert_eq!(items.len(), 4);
            assert!(matches!(items[0], JsonValue::Number(JsonNumber::PosInt(1))));
            assert!(matches!(items[1], JsonValue::Number(JsonNumber::NegInt(-2))));
            assert!(matches!(items[2], JsonValue::Number(JsonNumber::Float)));
            assert!(matches!(items[3], JsonValue::Null));
        }
        other => panic!("unexpected {:?}", other),
    }
    assert!(matches!(json_member(&doc, "b"), Some(JsonValue::Object(_))));
    assert!(json_member(&doc, "z").is_none());
    assert!(parse_json("{").is_none());
}

#[test]
fn duplicate_keys_keep_the_last_value() {
    let p = parse_contact_message(br#"{"contact": true, "contact": false}"#).unwrap();
    assert_eq!(p.contact, Some(false));
}

#[test]
fn strings_compare_by_characters() {
    assert!(str_equal("Front door", "Front door"));
    assert!(!str_equal("Front door", "Front doo"));
    assert!(!str_equal("a", "b"));
    assert!(str_equal("", ""));
}

#[test]
fn first_report_names_sensor_by_topic() {
    let report = ParsedContact { contact: None, battery: Some(90), last_seen: None, payload: "{}".to_string() };
    let s = merge_report(None, "zigbee2mqtt/Door".to_string(), report);
    assert_eq!(s.friendly_name, "zigbee2mqtt/Door");
    assert!(s.contact);
    assert_eq!(s.battery, Some(90));
}

#[test]
fn partial_report_keeps_open_state() {
    let mut existing = status("t", "Front door", false);
    existing.battery = Some(70);
    existing.last_seen = Some("yesterday".to_string());
    let report = ParsedContact { contact: None, battery: None, last_seen: None, payload: "{}".to_string() };
    let s = merge_report(Some(&existing), "t".to_string(), report);
    assert!(!s.contact);
    assert_eq!(s.friendly_name, "Front door");
    assert_eq!(s.battery, Some(70));
    assert_eq!(s.last_seen.as_deref(), Some("yesterday"));
    assert_eq!(s.payload, "{}");
}

#[test]
fn repeated_report_changes_nothing_more() {
    let existing = status("t", "Gate", true);
    let report = || ParsedContact { contact: Some(false), battery: Some(3), last_seen: None, payload: "x".to_string() };
    let once = merge_report(Some(&existing), "t".to_string(), report());
    let twice = merge_report(Some(&once), "t".to_string(), report());
    assert_eq!(format!("{:?}", once), format!("{:?}", twice));
}

#[test]
fn table_inserts_replaces_and_removes() {
    let mut t = ContactTable::new();
    assert_eq!(t.len(), 0);
    t.insert(status("a", "A", true));
    t.insert(status("b", "B", false));
    t.insert(status("a", "A2", false));
    assert_eq!(t.len(), 2);
    assert_eq!(t.get("a").unwrap().friendly_name, "A2");
    assert_eq!(t.count_open(), 2);
    t.remove("b");
    assert!(!t.contains("b"));
    assert!(t.contains("a"));
    assert_eq!(t.count_open(), 1);
    t.remove("missing");
    assert_eq!(t.len(), 1);
    let values = t.values();
    assert_eq!(values.len(), 1);
    assert_eq!(values[0].topic, "a");
}
