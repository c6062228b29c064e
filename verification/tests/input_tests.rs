use radiance_switch::input::{set_key_state, Key, KeyState, SwitchGamepadInput, KEY_COUNT, NPAD_A, NPAD_B, NPAD_DOWN, NPAD_LEFT, NPAD_RIGHT, NPAD_UP, NPAD_X, NPAD_Y};

fn fresh_states(n: usize) -> Vec<KeyState> {
    vec![KeyState::new(); n]
}

#[test]
fn rising_edge_raises_pressed() {
    let mut states = fresh_states(KEY_COUNT);
    set_key_state(&mut states, Key::GamePadEast, true);
    let s = states[Key::GamePadEast.index()];
    assert!(s.is_down());
    assert!(s.pressed());
    assert!(!s.released());
}

#[test]
fn falling_edge_raises_released() {
    let mut states = fresh_states(KEY_COUNT);
    set_key_state(&mut states, Key::GamePadWest, true);
    set_key_state(&mut states, Key::GamePadWest, false);
    let s = states[Key::GamePadWest.index()];
    assert!(s.is_up());
    assert!(s.pressed());
    assert!(s.released());
}

#[test]
fn repeated_observation_adds_no_edge() {
    let mut states = fresh_states(KEY_COUNT);
    set_key_state(&mut states, Key::GamePadNorth, false);
    assert_eq!(states[Key::GamePadNorth.index()], KeyState::new());
    set_key_state(&mut states, Key::GamePadNorth, true);
    let once = states[Key::GamePadNorth.index()];
    set_key_state(&mut states, Key::GamePadNorth, true);
    assert_eq!(states[Key::GamePadNorth.index()], once);
}

#[test]
fn set_key_state_touches_one_slot() {
    let mut states = fresh_states(KEY_COUNT + 2);
    set_key_state(&mut states, Key::GamePadDPadLeft, true);
    for (i, s) in states.iter().enumerate() {
        if i == Key::GamePadDPadLeft.index() {
            assert!(s.is_down());
        } else {
            assert_eq!(*s, KeyState::new());
        }
    }
}

#[test]
fn buttons_map_by_physical_position() {
    let mut input = SwitchGamepadInput::new();
    assert_eq!(input.buttons(), 0);
    let mut states = fresh_states(KEY_COUNT);
    // Nintendo A is the east face button, B south, X north, Y west.
    input.process_buttons(NPAD_A, &mut states);
    assert!(states[Key::GamePadEast.index()].is_down());
    assert!(!states[Key::GamePadSouth.index()].is_down());
    input.process_buttons(NPAD_B, &mut states);
    assert!(states[Key::GamePadSouth.index()].is_down());
    assert!(states[Key::GamePadEast.index()].released());
    input.process_buttons(NPAD_X | NPAD_Y, &mut states);
    assert!(states[Key::GamePadNorth.index()].is_down());
    assert!(states[Key::GamePadWest.index()].is_down());
    assert_eq!(input.buttons(), NPAD_X | NPAD_Y);
}

#[test]
fn dpad_buttons_map_to_dpad_keys() {
    let mut input = SwitchGamepadInput::new();
    let mut states = fresh_states(KEY_COUNT);
    input.process_buttons(NPAD_UP | NPAD_DOWN | NPAD_LEFT | NPAD_RIGHT, &mut states);
    assert!(states[Key::GamePadDPadUp.index()].is_down());
    assert!(states[Key::GamePadDPadDown.index()].is_down());
    assert!(states[Key::GamePadDPadLeft.index()].is_down());
    assert!(states[Key::GamePadDPadRight.index()].is_down());
    assert!(!states[Key::GamePadEast.index()].is_down());
}

#[test]
fn same_reading_twice_equals_once() {
    let mut input = SwitchGamepadInput::new();
    let mut a = fresh_states(KEY_COUNT);
    input.process_buttons(NPAD_A | NPAD_UP, &mut a);
    let once = a.clone();
    input.process_buttons(NPAD_A | NPAD_UP, &mut a);
    assert_eq!(a, once);
}

#[test]
fn unmapped_bits_do_nothing() {
    let mut input = SwitchGamepadInput::new();
    let mut states = fresh_states(KEY_COUNT);
    input.process_buttons(1 << 40, &mut states);
    assert!(states.iter().all(|s| *s == KeyState::new()));
}
