use qubes_gui_agent::codec::decode;
use qubes_gui_agent::codec::encode;
use qubes_gui_agent::codec::Header;
use qubes_gui_agent::codec::Msg;
use qubes_gui_agent::codec::Rect;
use qubes_gui_agent::codec::MSG_CREATE;
use qubes_gui_agent::codec::MSG_MOTION;
use qubes_gui_agent::connection::sentinel_header;
use qubes_gui_agent::connection::ControlEvent;
use qubes_gui_agent::dispatch::Action;
use qubes_gui_agent::dispatch::Engine;
use qubes_gui_agent::dispatch::PointerButton;
use qubes_gui_agent::dispatch::ReadOutcome;
use qubes_gui_agent::dispatch::Violation;
use qubes_gui_agent::framebuffer::PixelBuffer;
use qubes_gui_agent::ids::MapError;
use qubes_gui_agent::ids::Slot;

fn frame(window: u32, m: &Msg) -> ReadOutcome {
    let bytes = encode(window, m);
    let mut ty = [0u8; 4];
    ty.copy_from_slice(&bytes[0..4]);
    let body = bytes[12..].to_vec();
    let header =
        Header { ty: u32::from_le_bytes(ty), window, untrusted_len: body.len() as u32 };
    ReadOutcome::Message { header, body }
}

fn rect(width: u32, height: u32) -> Rect {
    Rect { x: 10, y: 20, width, height }
}

#[test]
fn needs_reconnect_disables_and_emits_one_sentinel() {
    // Scenario: the channel reports "needs reconnect".  The next dispatch
    // emits exactly one synthetic disabled notification, whose sentinel
    // header is the zero/zero header with condition code 1, and a
    // subsequent send is a silent no-op.
    let mut engine = Engine::new();
    let actions = engine.dispatch(&vec![ReadOutcome::NeedsReconnect]);
    assert_eq!(actions, vec![Action::Control(ControlEvent::EnteredDisabled)]);
    let h = sentinel_header(&ControlEvent::EnteredDisabled);
    assert_eq!((h.ty, h.window, h.untrusted_len), (0, 0, 1));
    assert_eq!(engine.send(1, &Msg::Close), None);
}

#[test]
fn reconnect_enables_and_emits_one_sentinel() {
    // Scenario: the channel reports "reconnected" after being disabled.
    // The next dispatch emits exactly one synthetic enabled notification
    // and subsequent sends succeed again.
    let mut engine = Engine::new();
    engine.dispatch(&vec![ReadOutcome::NeedsReconnect]);
    assert_eq!(engine.send(1, &Msg::Close), None);
    let actions = engine.dispatch(&vec![ReadOutcome::Pending { reconnected: true }]);
    assert_eq!(actions, vec![Action::Control(ControlEvent::EnteredEnabled)]);
    let h = sentinel_header(&ControlEvent::EnteredEnabled);
    assert_eq!((h.ty, h.window, h.untrusted_len), (0, 0, 2));
    assert!(engine.send(1, &Msg::Close).is_some());
}

#[test]
fn plain_pending_emits_nothing() {
    let mut engine = Engine::new();
    let actions = engine.dispatch(&vec![ReadOutcome::Pending { reconnected: false }]);
    assert_eq!(actions, Vec::new());
}

#[test]
fn read_fault_disables_with_protocol_error() {
    let mut engine = Engine::new();
    let actions = engine.dispatch(&vec![ReadOutcome::Fault]);
    assert_eq!(actions, vec![Action::Control(ControlEvent::ProtocolError)]);
    let h = sentinel_header(&ControlEvent::ProtocolError);
    assert_eq!((h.ty, h.window, h.untrusted_len), (0, 0, 3));
    assert_eq!(engine.send(1, &Msg::Close), None);
}

#[test]
fn configure_for_unmapped_window_is_logged_and_loop_continues() {
    // Scenario: a configure of width 200, height 100 for an unmapped
    // window identifier is logged as an unknown window, no panic, and the
    // dispatcher keeps processing the rest of the same batch.
    let mut engine = Engine::new();
    let id = engine.allocate_window_id().unwrap();
    assert_eq!(id, 2);
    let batch = vec![
        frame(9, &Msg::Configure { rect: rect(200, 100), override_redirect: 0 }),
        frame(id, &Msg::Motion { x: 1, y: 2 }),
    ];
    let actions = engine.dispatch(&batch);
    assert_eq!(
        actions,
        vec![
            Action::Log(Violation::UnknownWindow { window: 9 }),
            Action::Motion { window: id, x: 1, y: 2 },
        ]
    );
}

#[test]
fn keymap_with_all_bits_set_emits_256_presses_in_ascending_order() {
    // Scenario: a keymap notification with all 256 bits set expands into
    // exactly 256 synthetic pressed events, codes strictly ascending.
    let mut engine = Engine::new();
    let actions = engine.dispatch(&vec![frame(0, &Msg::KeymapNotify { keys: vec![0xff; 32] })]);
    assert_eq!(actions.len(), 256);
    for (i, a) in actions.iter().enumerate() {
        assert_eq!(*a, Action::Key { window: 0, code: i as u32, pressed: true });
    }
}

#[test]
fn keymap_clear_bits_are_releases() {
    let mut engine = Engine::new();
    let mut keys = vec![0u8; 32];
    keys[1] = 0b0000_0100; // key code 10 held down
    let actions = engine.dispatch(&vec![frame(0, &Msg::KeymapNotify { keys })]);
    assert_eq!(actions.len(), 256);
    assert_eq!(actions[10], Action::Key { window: 0, code: 10, pressed: true });
    assert_eq!(actions[9], Action::Key { window: 0, code: 9, pressed: false });
    assert_eq!(actions[11], Action::Key { window: 0, code: 11, pressed: false });
}

#[test]
fn repeated_configure_forwards_exactly_one_resize() {
    // Idempotence: the same configure with unchanged size twice produces
    // exactly one forwarded size-change notification, not two.
    let mut engine = Engine::new();
    let id = engine.allocate_window_id().unwrap();
    let cfg = Msg::Configure { rect: rect(300, 200), override_redirect: 0 };
    let first = engine.dispatch(&vec![frame(id, &cfg)]);
    assert_eq!(
        first,
        vec![Action::Resize { window: id, x: 10, y: 20, width: 300, height: 200 }]
    );
    let second = engine.dispatch(&vec![frame(id, &cfg)]);
    assert_eq!(second, Vec::new());
    // A different size forwards again.
    let third =
        engine.dispatch(&vec![frame(id, &Msg::Configure {
            rect: rect(301, 200),
            override_redirect: 0,
        })]);
    assert_eq!(
        third,
        vec![Action::Resize { window: id, x: 10, y: 20, width: 301, height: 200 }]
    );
}

#[test]
fn configure_with_zero_dimension_is_logged() {
    let mut engine = Engine::new();
    let id = engine.allocate_window_id().unwrap();
    let actions =
        engine.dispatch(&vec![frame(id, &Msg::Configure {
            rect: rect(0, 100),
            override_redirect: 0,
        })]);
    assert_eq!(actions, vec![Action::Log(Violation::BadGeometry { width: 0, height: 100 })]);
}

#[test]
fn configure_of_control_window_goes_to_self_handler() {
    let mut engine = Engine::new();
    let actions =
        engine.dispatch(&vec![frame(1, &Msg::Configure {
            rect: rect(800, 600),
            override_redirect: 0,
        })]);
    assert_eq!(actions, vec![Action::SelfConfigure { x: 10, y: 20, width: 800, height: 600 }]);
}

#[test]
fn envelope_length_mismatch_disables_sends() {
    let mut engine = Engine::new();
    let header = Header { ty: MSG_MOTION, window: 0, untrusted_len: 9 };
    let actions =
        engine.dispatch(&vec![ReadOutcome::Message { header, body: vec![0u8; 8] }]);
    assert_eq!(actions, vec![Action::Control(ControlEvent::ProtocolError)]);
    assert_eq!(engine.send(1, &Msg::Close), None);
}

#[test]
fn envelope_at_length_ceiling_disables_sends() {
    // A declared length at 1 MiB is rejected from the header alone,
    // before the dispatcher looks at any payload.
    let mut engine = Engine::new();
    let header = Header { ty: MSG_MOTION, window: 0, untrusted_len: 0x10_0000 };
    let actions =
        engine.dispatch(&vec![ReadOutcome::Message { header, body: Vec::new() }]);
    assert_eq!(actions, vec![Action::Control(ControlEvent::ProtocolError)]);
}

#[test]
fn keycode_boundaries() {
    // Key codes 7 and 0x108 are rejected; 8 and 0x107 are accepted, with
    // the 8-offset subtracted before forwarding.
    let mut engine = Engine::new();
    let low = engine.dispatch(&vec![frame(0, &Msg::Keypress { kind: 2, keycode: 7 })]);
    assert_eq!(low, vec![Action::Log(Violation::KeycodeOutOfRange { keycode: 7 })]);
    let high = engine.dispatch(&vec![frame(0, &Msg::Keypress { kind: 2, keycode: 0x108 })]);
    assert_eq!(high, vec![Action::Log(Violation::KeycodeOutOfRange { keycode: 0x108 })]);
    let min = engine.dispatch(&vec![frame(0, &Msg::Keypress { kind: 2, keycode: 8 })]);
    assert_eq!(min, vec![Action::Key { window: 0, code: 0, pressed: true }]);
    let max = engine.dispatch(&vec![frame(0, &Msg::Keypress { kind: 3, keycode: 0x107 })]);
    assert_eq!(max, vec![Action::Key { window: 0, code: 0xff, pressed: false }]);
}

#[test]
fn unrecognized_key_transition_is_dropped() {
    let mut engine = Engine::new();
    let actions = engine.dispatch(&vec![frame(0, &Msg::Keypress { kind: 77, keycode: 30 })]);
    assert_eq!(actions, Vec::new());
}

#[test]
fn button_codes_map_to_discrete_actions() {
    let mut engine = Engine::new();
    let cases = [
        (1, PointerButton::Primary),
        (2, PointerButton::Tertiary),
        (3, PointerButton::Secondary),
        (4, PointerButton::ScrollUp),
        (5, PointerButton::ScrollDown),
        (6, PointerButton::ScrollLeft),
        (7, PointerButton::ScrollRight),
    ];
    for (code, button) in cases {
        let actions = engine.dispatch(&vec![frame(0, &Msg::Button { kind: 4, button: code })]);
        assert_eq!(actions, vec![Action::Button { window: 0, button, pressed: true }]);
    }
    // Out-of-range button numbers are ignored, not errors.
    let none = engine.dispatch(&vec![frame(0, &Msg::Button { kind: 5, button: 8 })]);
    assert_eq!(none, Vec::new());
}

#[test]
fn focus_validation() {
    let mut engine = Engine::new();
    // Recognized transition, detail in range.
    let ok = engine.dispatch(&vec![frame(0, &Msg::Focus { mode: 0, kind: 9, detail: 7 })]);
    assert_eq!(ok, vec![Action::Focus { window: 0, focused: true, detail: 7 }]);
    // Unrecognized mode: a peer bug, logged, event still processed.
    let bug = engine.dispatch(&vec![frame(0, &Msg::Focus { mode: 5, kind: 10, detail: 0 })]);
    assert_eq!(
        bug,
        vec![
            Action::Log(Violation::FocusModeBug { mode: 5 }),
            Action::Focus { window: 0, focused: false, detail: 0 },
        ]
    );
    // Unrecognized transition code: dropped.
    let dropped = engine.dispatch(&vec![frame(0, &Msg::Focus { mode: 0, kind: 3, detail: 0 })]);
    assert_eq!(dropped, Vec::new());
    // Out-of-range detail: dropped.
    let detail = engine.dispatch(&vec![frame(0, &Msg::Focus { mode: 0, kind: 9, detail: 8 })]);
    assert_eq!(detail, Vec::new());
}

#[test]
fn close_of_control_window_shuts_down() {
    let mut engine = Engine::new();
    let actions = engine.dispatch(&vec![frame(1, &Msg::Close)]);
    assert_eq!(actions, vec![Action::Shutdown]);
}

#[test]
fn close_of_client_window_is_forwarded() {
    let mut engine = Engine::new();
    let id = engine.allocate_window_id().unwrap();
    let actions = engine.dispatch(&vec![frame(id, &Msg::Close)]);
    assert_eq!(actions, vec![Action::CloseRequest { window: id }]);
    let stale = engine.dispatch(&vec![frame(5, &Msg::Close)]);
    assert_eq!(stale, vec![Action::Log(Violation::UnknownWindow { window: 5 })]);
}

#[test]
fn unknown_message_type_is_skipped() {
    let mut engine = Engine::new();
    let header = Header { ty: 999, window: 0, untrusted_len: 0 };
    let actions =
        engine.dispatch(&vec![ReadOutcome::Message { header, body: Vec::new() }]);
    assert_eq!(actions, vec![Action::Log(Violation::UnknownMessageType { ty: 999 })]);
    // The guard is untouched: forward compatibility, not an error.
    assert!(engine.send(1, &Msg::Close).is_some());
}

#[test]
fn malformed_body_is_logged_not_fatal() {
    let mut engine = Engine::new();
    let header = Header { ty: MSG_MOTION, window: 0, untrusted_len: 4 };
    let actions =
        engine.dispatch(&vec![ReadOutcome::Message { header, body: vec![0u8; 4] }]);
    assert_eq!(actions, vec![Action::Log(Violation::MalformedBody { ty: MSG_MOTION })]);
    assert!(engine.send(1, &Msg::Close).is_some());
}

#[test]
fn outbound_only_message_inbound_is_logged() {
    let mut engine = Engine::new();
    let actions = engine.dispatch(&vec![frame(0, &Msg::Create {
        rect: rect(5, 5),
        parent: 0,
        override_redirect: 0,
    })]);
    assert_eq!(actions, vec![Action::Log(Violation::UnexpectedMessage { ty: MSG_CREATE })]);
}

#[test]
fn destroy_lifecycle_with_peer_confirmation() {
    let mut engine = Engine::new();
    let id = engine.allocate_window_id().unwrap();
    // Local destroy: the slot becomes a placeholder and the destroy
    // message goes out.
    let sent = engine.on_window_destroyed(id).unwrap().unwrap();
    assert_eq!(decode(&sent), Ok((id, Msg::Destroy)));
    assert_eq!(engine.windows.get_slot(id), Some(Slot::Destroyed));
    // The peer confirms: the slot is retired, silently.
    let confirm = engine.dispatch(&vec![frame(id, &Msg::Destroy)]);
    assert_eq!(confirm, Vec::new());
    assert_eq!(engine.windows.get_slot(id), Some(Slot::Removed));
    // A duplicate confirmation is the peer's violation, logged.
    let dup = engine.dispatch(&vec![frame(id, &Msg::Destroy)]);
    assert_eq!(dup, vec![Action::Log(Violation::UnknownWindow { window: id })]);
}

#[test]
fn peer_destroy_of_live_window_is_logged() {
    let mut engine = Engine::new();
    let id = engine.allocate_window_id().unwrap();
    let actions = engine.dispatch(&vec![frame(id, &Msg::Destroy)]);
    assert_eq!(actions, vec![Action::Log(Violation::UnexpectedDestroy { window: id })]);
}

#[test]
fn destroy_of_unknown_window_is_an_error_not_a_crash() {
    let mut engine = Engine::new();
    assert_eq!(
        engine.on_window_destroyed(7),
        Err(MapError::UnknownWindow { window: 7 })
    );
}

#[test]
fn window_creation_sequence() {
    let mut engine = Engine::new();
    let id = engine.allocate_window_id().unwrap();
    let r = Rect { x: 0, y: 0, width: 256, height: 256 };
    let msgs = engine.on_window_created(id, r, 0, 0);
    assert_eq!(msgs.len(), 3);
    assert_eq!(
        decode(&msgs[0]),
        Ok((id, Msg::Create { rect: r, parent: 0, override_redirect: 0 }))
    );
    assert_eq!(decode(&msgs[1]), Ok((id, Msg::Configure { rect: r, override_redirect: 0 })));
    assert_eq!(
        decode(&msgs[2]),
        Ok((id, Msg::MapInfo { override_redirect: 0, transient_for: 0 }))
    );
}

#[test]
fn window_creation_suppressed_while_disabled() {
    let mut engine = Engine::new();
    let id = engine.allocate_window_id().unwrap();
    engine.dispatch(&vec![ReadOutcome::NeedsReconnect]);
    let msgs = engine.on_window_created(id, rect(5, 5), 0, 0);
    assert_eq!(msgs.len(), 0);
}

#[test]
fn send_raw_frames_bytes_under_exact_length() {
    let mut engine = Engine::new();
    let body = vec![9u8, 8, 7];
    let framed = engine.send_raw(4, 147, &body).unwrap();
    assert_eq!(&framed[0..4], &147u32.to_le_bytes());
    assert_eq!(&framed[4..8], &4u32.to_le_bytes());
    assert_eq!(&framed[8..12], &3u32.to_le_bytes());
    assert_eq!(&framed[12..], &body[..]);
}

#[test]
fn push_configure_and_push_damage_respect_the_guard() {
    let mut engine = Engine::new();
    let id = engine.allocate_window_id().unwrap();
    let r = rect(64, 64);
    let cfg = engine.push_configure(id, r).unwrap();
    assert_eq!(decode(&cfg), Ok((id, Msg::Configure { rect: r, override_redirect: 0 })));
    let dmg = engine.push_damage(id, r).unwrap();
    assert_eq!(decode(&dmg), Ok((id, Msg::ShmImage { rect: r })));
    engine.dispatch(&vec![ReadOutcome::Fault]);
    assert_eq!(engine.push_configure(id, r), None);
    assert_eq!(engine.push_damage(id, r), None);
}

#[test]
fn commit_frame_sends_dump_then_configure_then_damage() {
    let mut engine = Engine::new();
    let id = engine.allocate_window_id().unwrap();
    let mut buf = PixelBuffer::allocate(4, 4);
    let r = rect(4, 4);
    let d1 = Rect { x: 0, y: 0, width: 2, height: 2 };
    let d2 = Rect { x: 2, y: 2, width: 2, height: 2 };
    let msgs = engine.commit_frame(id, &mut buf, r, &vec![d1, d2]);
    assert_eq!(msgs.len(), 4);
    // First the dump descriptor for the fresh buffer...
    assert_eq!(&msgs[0][0..4], &147u32.to_le_bytes());
    assert_eq!(&msgs[0][8..12], &8u32.to_le_bytes());
    assert_eq!(&msgs[0][12..16], &4u32.to_le_bytes());
    assert_eq!(&msgs[0][16..20], &4u32.to_le_bytes());
    // ...then the configure, then one redraw notification per damage.
    assert_eq!(decode(&msgs[1]), Ok((id, Msg::Configure { rect: r, override_redirect: 0 })));
    assert_eq!(decode(&msgs[2]), Ok((id, Msg::ShmImage { rect: d1 })));
    assert_eq!(decode(&msgs[3]), Ok((id, Msg::ShmImage { rect: d2 })));
    assert!(!buf.needs_dump);
    // The next frame owes no dump.
    let again = engine.commit_frame(id, &mut buf, r, &vec![d1]);
    assert_eq!(again.len(), 2);
    assert_eq!(decode(&again[0]), Ok((id, Msg::Configure { rect: r, override_redirect: 0 })));
}

#[test]
fn commit_frame_keeps_dump_debt_while_disabled() {
    let mut engine = Engine::new();
    let id = engine.allocate_window_id().unwrap();
    engine.dispatch(&vec![ReadOutcome::NeedsReconnect]);
    let mut buf = PixelBuffer::allocate(4, 4);
    let msgs = engine.commit_frame(id, &mut buf, rect(4, 4), &vec![]);
    assert_eq!(msgs.len(), 0);
    // The peer never heard of the buffer; the debt survives for after the
    // reconnect.
    assert!(buf.needs_dump);
}

#[test]
fn inbound_processing_continues_while_disabled() {
    // The guard suppresses outbound sends only; inbound events still reach
    // the compositor layer.
    let mut engine = Engine::new();
    engine.dispatch(&vec![ReadOutcome::NeedsReconnect]);
    let actions = engine.dispatch(&vec![frame(0, &Msg::Motion { x: 3, y: 4 })]);
    assert_eq!(actions, vec![Action::Motion { window: 0, x: 3, y: 4 }]);
}
