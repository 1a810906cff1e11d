use qubes_gui_agent::connection::Connection;
use qubes_gui_agent::connection::ControlEvent;

#[test]
fn fresh_connection_starts_enabled() {
    let conn = Connection::new();
    assert!(conn.is_enabled());
}

#[test]
fn guard_transitions_report_their_events() {
    let mut conn = Connection::new();
    assert_eq!(conn.note_needs_reconnect(), ControlEvent::EnteredDisabled);
    assert!(!conn.is_enabled());
    assert_eq!(conn.note_reconnected(), ControlEvent::EnteredEnabled);
    assert!(conn.is_enabled());
    assert_eq!(conn.note_fault(), ControlEvent::ProtocolError);
    assert!(!conn.is_enabled());
}
