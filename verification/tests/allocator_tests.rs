use qubes_gui_agent::ids::MapError;
use qubes_gui_agent::ids::Slot;
use qubes_gui_agent::ids::WindowEntry;
use qubes_gui_agent::ids::WindowMap;
use qubes_gui_agent::ids::CONTROL_WINDOW_ID;
use qubes_gui_agent::ids::NO_WINDOW_ID;

#[test]
fn three_windows_get_ids_two_three_four() {
    // Identifier 0 means "no window" and 1 is the control window, so the
    // first three client windows get 2, 3 and 4, in order.
    let mut map = WindowMap::new();
    assert_eq!(map.allocate(), Ok(2));
    assert_eq!(map.allocate(), Ok(3));
    assert_eq!(map.allocate(), Ok(4));
}

#[test]
fn ids_are_strictly_increasing_and_reserved_values_never_issued() {
    let mut map = WindowMap::new();
    let mut last = CONTROL_WINDOW_ID;
    for _ in 0..100 {
        let id = map.allocate().expect("far from exhaustion");
        assert!(id > last);
        assert_ne!(id, NO_WINDOW_ID);
        assert_ne!(id, CONTROL_WINDOW_ID);
        last = id;
    }
}

#[test]
fn double_destroy_reports_unknown_window() {
    let mut map = WindowMap::new();
    assert_eq!(map.allocate(), Ok(2));
    assert_eq!(map.allocate(), Ok(3));
    assert_eq!(map.allocate(), Ok(4));
    assert_eq!(map.destroy(3), Ok(()));
    // The second destroy of the same identifier is reported, not a crash.
    assert_eq!(map.destroy(3), Err(MapError::UnknownWindow { window: 3 }));
    // The neighbours are untouched.
    assert_eq!(map.destroy(2), Ok(()));
    assert_eq!(map.destroy(4), Ok(()));
}

#[test]
fn destroy_of_never_allocated_id_reports_unknown_window() {
    let mut map = WindowMap::new();
    assert_eq!(map.destroy(2), Err(MapError::UnknownWindow { window: 2 }));
    assert_eq!(map.destroy(0), Err(MapError::UnknownWindow { window: 0 }));
    assert_eq!(map.destroy(1), Err(MapError::UnknownWindow { window: 1 }));
}

#[test]
fn destroyed_slot_is_a_placeholder_not_absent() {
    let mut map = WindowMap::new();
    assert_eq!(map.allocate(), Ok(2));
    assert_eq!(map.destroy(2), Ok(()));
    // The slot is retained as a placeholder, distinguishable from "never
    // existed", so duplicate destroys from the peer can be told apart.
    assert_eq!(map.get_slot(2), Some(Slot::Destroyed));
    assert_eq!(map.get_slot(3), None);
}

#[test]
fn finish_destroy_retires_the_placeholder_once() {
    let mut map = WindowMap::new();
    assert_eq!(map.allocate(), Ok(2));
    assert_eq!(map.destroy(2), Ok(()));
    assert_eq!(map.finish_destroy(2), Ok(()));
    assert_eq!(map.get_slot(2), Some(Slot::Removed));
    assert_eq!(map.finish_destroy(2), Err(MapError::UnknownWindow { window: 2 }));
}

#[test]
fn finish_destroy_refuses_live_window() {
    let mut map = WindowMap::new();
    assert_eq!(map.allocate(), Ok(2));
    assert_eq!(map.finish_destroy(2), Err(MapError::UnknownWindow { window: 2 }));
    assert_eq!(map.get_slot(2), Some(Slot::Live(WindowEntry::new())));
}

#[test]
fn set_entry_updates_only_its_window() {
    let mut map = WindowMap::new();
    assert_eq!(map.allocate(), Ok(2));
    assert_eq!(map.allocate(), Ok(3));
    let mut e = map.get_live(2).unwrap();
    e.width = 640;
    e.height = 480;
    e.has_configured = true;
    map.set_entry(2, e);
    assert_eq!(map.get_live(2).unwrap().width, 640);
    assert_eq!(map.get_live(3).unwrap().width, 0);
}
