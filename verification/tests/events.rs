use serial_mcp_server::events::{
    event_address, event_log_location, event_process_id, event_source, history_tail, EventContext,
    EventLogLocation, SerialEvent, SerialEventData, EVENT_SCHEMA_VERSION,
};

#[test]
fn event_data_preserves_text_and_hex_views() {
    let data = SerialEventData::from_bytes(&[b'H', b'i', 0xff]);
    assert_eq!(data.bytes, 3);
    assert_eq!(data.utf8, "Hi\u{fffd}");
    assert_eq!(data.hex, "48 69 ff");
}

#[test]
fn empty_event_data_has_empty_views() {
    let data = SerialEventData::from_bytes(&[]);
    assert_eq!(data.bytes, 0);
    assert_eq!(data.utf8, "");
    assert_eq!(data.hex, "");
}

#[test]
fn new_events_carry_their_origin_and_a_fresh_id() {
    let a = SerialEvent::new("tool.invoked".to_string(), "MCP tool invoked: open".to_string(), "mcp".to_string(), 42);
    let b = SerialEvent::new("tool.invoked".to_string(), "again".to_string(), "mcp".to_string(), 42);
    assert_eq!(a.schema_version, EVENT_SCHEMA_VERSION);
    assert_eq!(a.source, "mcp");
    assert_eq!(a.process_id, 42);
    assert_eq!(a.event_type, "tool.invoked");
    assert_eq!(a.id.len(), 36);
    assert_ne!(a.id, b.id);
    assert!(a.timestamp.ends_with('Z'));
    assert!(a.connection_id.is_none() && a.port.is_none() && a.direction.is_none() && a.data.is_none());
    assert!(a.details.as_object().map(|o| o.is_empty()).unwrap_or(false));
}

#[test]
fn event_builders_fill_their_fields() {
    let event = SerialEvent::new("serial.tx".to_string(), "sent".to_string(), "cli".to_string(), 7)
        .connection("c1".to_string())
        .port("COM3".to_string())
        .direction("tx".to_string())
        .data(b"OK");
    assert_eq!(event.connection_id.as_deref(), Some("c1"));
    assert_eq!(event.port.as_deref(), Some("COM3"));
    assert_eq!(event.direction.as_deref(), Some("tx"));
    let data = event.data.expect("data was attached");
    assert_eq!(data.hex, "4f 4b");
    assert_eq!(data.utf8, "OK");
}

#[test]
fn event_origin_prefers_the_task_context() {
    let context = EventContext { source: "gui".to_string(), process_id: 9 };
    assert_eq!(event_source(Some(&context), Some("cli".to_string())), "gui");
    assert_eq!(event_source(None, Some("cli".to_string())), "cli");
    assert_eq!(event_source(None, None), "unknown");
    assert_eq!(event_process_id(Some(&context), 1), 9);
    assert_eq!(event_process_id(None, 1), 1);
    assert_eq!(event_address(None), "127.0.0.1:47831");
    assert_eq!(event_address(Some("127.0.0.1:9".to_string())), "127.0.0.1:9");
}

#[test]
fn event_log_location_prefers_the_configured_path() {
    assert!(matches!(
        event_log_location(Some("/tmp/e.jsonl".to_string()), Some("/state".to_string())),
        EventLogLocation::Configured(p) if p == "/tmp/e.jsonl"
    ));
    assert!(matches!(
        event_log_location(None, Some("/state".to_string())),
        EventLogLocation::UnderBase(b) if b == "/state"
    ));
    assert!(matches!(event_log_location(None, None), EventLogLocation::UnderTemp));
}

#[test]
fn history_returns_the_tail() {
    let events = vec!["event 0", "event 1", "event 2"];
    assert_eq!(history_tail(events.clone(), 2), vec!["event 1", "event 2"]);
    assert_eq!(history_tail(events.clone(), 5), events);
    assert!(history_tail(events, 0).is_empty());
}

#[test]
fn history_skips_invalid_lines_and_returns_tail() {
    // The lines that parse as events, in file order; the `not-json` line
    // after them is skipped by the journal reader before the tail is taken.
    let mut events = Vec::new();
    for index in 0..3 {
        events.push(SerialEvent::new("test".to_string(), format!("event {index}"), "cli".to_string(), 1));
    }

    let events = history_tail(events, 2);
    assert_eq!(events.len(), 2);
    assert_eq!(events[0].message, "event 1");
    assert_eq!(events[1].message, "event 2");
}
