use radiance_switch::imgui_nav::{nav_bindings, nav_key_events, NavKey, TouchButton};
use radiance_switch::input::{NPAD_A, NPAD_B, NPAD_L, NPAD_R, NPAD_UP};

#[test]
fn nav_table_order() {
    let table = nav_bindings();
    assert_eq!(table.len(), 10);
    assert_eq!(table[0], (NPAD_A, NavKey::GamepadFaceDown));
    assert_eq!(table[1], (NPAD_B, NavKey::GamepadFaceRight));
    assert_eq!(table[8], (NPAD_L, NavKey::GamepadL1));
    assert_eq!(table[9], (NPAD_R, NavKey::GamepadR1));
}

#[test]
fn unchanged_pad_owes_no_events() {
    assert!(nav_key_events(NPAD_A | NPAD_UP, NPAD_A | NPAD_UP).is_empty());
    assert!(nav_key_events(0, 0).is_empty());
}

#[test]
fn press_and_release_events_in_table_order() {
    let events = nav_key_events(NPAD_A | NPAD_R, NPAD_UP);
    assert_eq!(
        events,
        vec![
            (NavKey::GamepadFaceDown, true),
            (NavKey::GamepadDpadUp, false),
            (NavKey::GamepadR1, true),
        ]
    );
}

#[test]
fn held_button_owes_no_second_event() {
    assert_eq!(nav_key_events(NPAD_B, 0), vec![(NavKey::GamepadFaceRight, true)]);
    assert!(nav_key_events(NPAD_B, NPAD_B).is_empty());
}

#[test]
fn touch_transitions() {
    let mut touch = TouchButton::new();
    assert!(!touch.touch_down());
    assert_eq!(touch.update(1, 1), Some(true));
    assert!(touch.touch_down());
    assert_eq!(touch.update(1, 2), None);
    assert_eq!(touch.update(0, 1), Some(false));
    assert_eq!(touch.update(1, 0), None);
    assert!(!touch.touch_down());
}
