# opendoor_monitor

A desktop overlay that watches Zigbee door and window contact sensors over
MQTT. The library under `src/` holds the monitor's logic, verified with Verus;
`app/` is the Tauri program around it (window, files, MQTT client).

- `src/json.rs` — JSON documents as serde_json reads them, and the accessors
  the reports need.
- `src/contact.rs` — sensor statuses, reading a report, and how a report
  updates a sensor.
- `src/table.rs`, `src/topics.rs` — the contact table keyed by topic, and the
  set of subscribed topics.
- `src/state.rs` — the shared state and the commands of the user interface.
- `src/mqtt.rs` — the MQTT session, the connection settings, and the event
  loop's rules (report handling, resubscription, reconnection back-off).
- `src/config.rs` — configuration defaults, its location, and the rules for
  loading it and saving the window position.
- `src/laws.rs` — properties that span these operations.
