//! Gamepad input: libnx `HidNpadButton` bits mapped onto the engine's key states.

use vstd::prelude::*;

verus! {

/// libnx `HidNpadButton` bits used by the mapping.
pub const NPAD_A: u64 = 0x1;
pub const NPAD_B: u64 = 0x2;
pub const NPAD_X: u64 = 0x4;
pub const NPAD_Y: u64 = 0x8;
pub const NPAD_L: u64 = 0x40;
pub const NPAD_R: u64 = 0x80;
pub const NPAD_LEFT: u64 = 0x1000;
pub const NPAD_UP: u64 = 0x2000;
pub const NPAD_RIGHT: u64 = 0x4000;
pub const NPAD_DOWN: u64 = 0x8000;

/// `PAD_ANY_ID_MASK` from libnx pad.h: accept every controller input source.
pub const PAD_ANY_ID_MASK: u64 = 0x1_0001_00FF;

/// `HidNpadStyleSet` accepting every controller layout.
pub const STYLE_SET_ALL: u32 = 0xFFFF_FFFF;

/// Whether `mask` is held in the button word `buttons`.
pub open spec fn held(buttons: u64, mask: u64) -> bool {
    buttons & mask != 0
}

/// The state the engine keeps for one key: whether it is down now, and
/// whether a press or a release edge has been seen since the flags were cleared.
#[derive(Clone, Copy, Debug, PartialEq, Eq, Structural)]
pub struct KeyState {
    pub down: bool,
    pub pressed: bool,
    pub released: bool,
}

impl KeyState {
    pub fn new() -> (s: Self)
        ensures
            !s.down,
            !s.pressed,
            !s.released,
    {
        KeyState { down: false, pressed: false, released: false }
    }

    pub fn is_down(&self) -> (r: bool)
        ensures
            r == self.down,
    {
        self.down
    }

    pub fn is_up(&self) -> (r: bool)
        ensures
            r == !self.down,
    {
        !self.down
    }

    pub fn pressed(&self) -> (r: bool)
        ensures
            r == self.pressed,
    {
        self.pressed
    }

    pub fn released(&self) -> (r: bool)
        ensures
            r == self.released,
    {
        self.released
    }

    pub fn set_down(&mut self, down: bool)
        ensures
            *final(self) == (KeyState { down, ..*old(self) }),
    {
        self.down = down;
    }

    pub fn set_pressed(&mut self, pressed: bool)
        ensures
            *final(self) == (KeyState { pressed, ..*old(self) }),
    {
        self.pressed = pressed;
    }

    pub fn set_released(&mut self, released: bool)
        ensures
            *final(self) == (KeyState { released, ..*old(self) }),
    {
        self.released = released;
    }
}

/// The gamepad keys the engine speaks, by physical position.
#[derive(Clone, Copy, Debug, PartialEq, Eq, Structural)]
pub enum Key {
    GamePadEast,
    GamePadSouth,
    GamePadNorth,
    GamePadWest,
    GamePadDPadUp,
    GamePadDPadDown,
    GamePadDPadLeft,
    GamePadDPadRight,
}

/// Number of gamepad keys, and so the least length of a key-state table.
pub const KEY_COUNT: usize = 8;

pub open spec fn key_index(key: Key) -> int {
    match key {
        Key::GamePadEast => 0,
        Key::GamePadSouth => 1,
        Key::GamePadNorth => 2,
        Key::GamePadWest => 3,
        Key::GamePadDPadUp => 4,
        Key::GamePadDPadDown => 5,
        Key::GamePadDPadLeft => 6,
        Key::GamePadDPadRight => 7,
    }
}

impl Key {
    /// Slot of this key in a key-state table.
    pub fn index(self) -> (r: usize)
        ensures
            r == key_index(self),
            r < KEY_COUNT,
    {
        match self {
            Key::GamePadEast => 0,
            Key::GamePadSouth => 1,
            Key::GamePadNorth => 2,
            Key::GamePadWest => 3,
            Key::GamePadDPadUp => 4,
            Key::GamePadDPadDown => 5,
            Key::GamePadDPadLeft => 6,
            Key::GamePadDPadRight => 7,
        }
    }
}

/// The state a key moves to when it is observed as `down`: a rising edge
/// raises `pressed`, a falling edge raises `released`, and `down` follows the
/// observation. Edge flags are only ever raised here, never cleared.
pub open spec fn key_transition(s: KeyState, down: bool) -> KeyState {
    KeyState {
        down,
        pressed: s.pressed || (!s.down && down),
        released: s.released || (s.down && !down),
    }
}

/// Records that `key` is observed `down`.
pub fn set_key_state(states: &mut [KeyState], key: Key, down: bool)
    requires
        key_index(key) < old(states)@.len(),
    ensures
        final(states)@ == old(states)@.update(
            key_index(key),
            key_transition(old(states)@[key_index(key)], down),
        ),
{
    let i = key.index();
    let mut s = states[i];
    if !s.is_down() && down {
        s.set_pressed(true);
    } else if s.is_down() && !down {
        s.set_released(true);
    }
    s.set_down(down);
    states[i] = s;
}


/// The libnx button that drives each engine key. Nintendo's A/B and X/Y are
/// mirrored relative to the south/east/west/north layout the engine speaks,
/// so the mapping goes by physical position: A is east, B south, X north, Y west.
pub open spec fn button_mask(key: Key) -> u64 {
    match key {
        Key::GamePadEast => NPAD_A,
        Key::GamePadSouth => NPAD_B,
        Key::GamePadNorth => NPAD_X,
        Key::GamePadWest => NPAD_Y,
        Key::GamePadDPadUp => NPAD_UP,
        Key::GamePadDPadDown => NPAD_DOWN,
        Key::GamePadDPadLeft => NPAD_LEFT,
        Key::GamePadDPadRight => NPAD_RIGHT,
    }
}

/// The key states after one pad reading `buttons` has been applied to `states`.
pub open spec fn apply_buttons(states: Seq<KeyState>, buttons: u64) -> Seq<KeyState> {
    Seq::new(
        states.len(),
        |i: int|
            if 0 <= i < KEY_COUNT {
                key_transition(states[i], held(buttons, button_mask(key_at(i))))
            } else {
                states[i]
            },
    )
}

/// The key stored at slot `i` of a key-state table (for `0 <= i < KEY_COUNT`).
pub open spec fn key_at(i: int) -> Key {
    if i == 0 {
        Key::GamePadEast
    } else if i == 1 {
        Key::GamePadSouth
    } else if i == 2 {
        Key::GamePadNorth
    } else if i == 3 {
        Key::GamePadWest
    } else if i == 4 {
        Key::GamePadDPadUp
    } else if i == 5 {
        Key::GamePadDPadDown
    } else if i == 6 {
        Key::GamePadDPadLeft
    } else {
        Key::GamePadDPadRight
    }
}

/// The gamepad reader. It keeps the button word of the latest pad reading;
/// the reading itself comes from libnx's `padUpdate`.
pub struct SwitchGamepadInput {
    buttons: u64,
}

impl SwitchGamepadInput {
    /// Button word of the latest reading applied.
    pub closed spec fn last_buttons(&self) -> u64 {
        self.buttons
    }

    pub fn new() -> (r: Self)
        ensures
            r.last_buttons() == 0,
    {
        SwitchGamepadInput { buttons: 0 }
    }

    pub fn buttons(&self) -> (r: u64)
        ensures
            r == self.last_buttons(),
    {
        self.buttons
    }

    /// Applies one pad reading to the engine's key states: every gamepad key
    /// is observed down exactly when its button is held.
    pub fn process_buttons(&mut self, buttons: u64, states: &mut [KeyState])
        requires
            old(states)@.len() >= KEY_COUNT,
        ensures
            final(self).last_buttons() == buttons,
            final(states)@ == apply_buttons(old(states)@, buttons),
    {
        self.buttons = buttons;
        set_key_state(states, Key::GamePadEast, buttons & NPAD_A != 0);
        set_key_state(states, Key::GamePadSouth, buttons & NPAD_B != 0);
        set_key_state(states, Key::GamePadNorth, buttons & NPAD_X != 0);
        set_key_state(states, Key::GamePadWest, buttons & NPAD_Y != 0);

        set_key_state(states, Key::GamePadDPadUp, buttons & NPAD_UP != 0);
        set_key_state(states, Key::GamePadDPadDown, buttons & NPAD_DOWN != 0);
        set_key_state(states, Key::GamePadDPadLeft, buttons & NPAD_LEFT != 0);
        set_key_state(states, Key::GamePadDPadRight, buttons & NPAD_RIGHT != 0);
        assert(states@ =~= apply_buttons(old(states)@, buttons));
    }
}


/// Observing a key in the same state twice raises no new edge: the second
/// observation leaves the state as the first left it.
pub proof fn law_repeated_observation_is_stable(s: KeyState, down: bool)
    ensures
        key_transition(key_transition(s, down), down) == key_transition(s, down),
{
}

/// Edge flags are raised, never cleared, by observations; `down` always
/// follows the latest one.
pub proof fn law_edges_are_sticky(s: KeyState, down: bool)
    ensures
        s.pressed ==> key_transition(s, down).pressed,
        s.released ==> key_transition(s, down).released,
        key_transition(s, down).down == down,
{
}

/// Applying the same pad reading twice gives the key states one application gives.
pub proof fn law_same_reading_twice(states: Seq<KeyState>, buttons: u64)
    ensures
        apply_buttons(apply_buttons(states, buttons), buttons) == apply_buttons(states, buttons),
{
    assert(apply_buttons(apply_buttons(states, buttons), buttons) =~= apply_buttons(states, buttons));
}

/// Every gamepad key has its own slot and its own button: no two keys share
/// either, so one button press drives exactly one key.
pub proof fn law_mapping_is_one_to_one(k1: Key, k2: Key)
    ensures
        0 <= key_index(k1) < KEY_COUNT,
        key_at(key_index(k1)) == k1,
        k1 != k2 ==> key_index(k1) != key_index(k2),
        k1 != k2 ==> button_mask(k1) != button_mask(k2),
{
}

/// A key's edge flags follow its observations: `down` is the latest
/// observation; a press edge is raised only when a key that was up is seen
/// down, a release edge only when a key that was down is seen up; a key held
/// down (or left up) across an observation raises no new edge, and no
/// observation clears a flag.
pub proof fn law_edges_only_on_change(s: KeyState, down: bool)
    ensures
        key_transition(s, down).down == down,
        key_transition(s, down).pressed == (s.pressed || (!s.down && down)),
        key_transition(s, down).released == (s.released || (s.down && !down)),
        s.down == down ==> key_transition(s, down).pressed == s.pressed && key_transition(s, down).released
            == s.released,
        !s.down && down ==> key_transition(s, down).pressed,
        s.down && !down ==> key_transition(s, down).released,
{
}

/// Every engine key is driven by the libnx button at its physical position,
/// for every pad reading: A (bit 0) east, B (bit 1) south, X (bit 2) north,
/// Y (bit 3) west, and each D-pad direction by its own direction bit (left
/// bit 12, up bit 13, right bit 14, down bit 15). Keys sit in the engine's
/// slots in enum order (east, south, north, west, then up, down, left,
/// right). Each key's edge flags move
/// as its observation dictates, and slots past the gamepad keys are untouched.
pub proof fn law_keys_follow_their_buttons(states: Seq<KeyState>, b: u64)
    requires
        states.len() >= KEY_COUNT,
    ensures
        ({
            let r = apply_buttons(states, b);
            &&& r.len() == states.len()
            &&& key_index(Key::GamePadEast) == 0 && key_index(Key::GamePadSouth) == 1
            &&& key_index(Key::GamePadNorth) == 2 && key_index(Key::GamePadWest) == 3
            &&& key_index(Key::GamePadDPadUp) == 4 && key_index(Key::GamePadDPadDown) == 5
            &&& key_index(Key::GamePadDPadLeft) == 6 && key_index(Key::GamePadDPadRight) == 7
            &&& r[key_index(Key::GamePadEast)].down == (b & 0x1u64 != 0)
            &&& r[key_index(Key::GamePadSouth)].down == (b & 0x2u64 != 0)
            &&& r[key_index(Key::GamePadNorth)].down == (b & 0x4u64 != 0)
            &&& r[key_index(Key::GamePadWest)].down == (b & 0x8u64 != 0)
            &&& r[key_index(Key::GamePadDPadLeft)].down == (b & 0x1000u64 != 0)
            &&& r[key_index(Key::GamePadDPadUp)].down == (b & 0x2000u64 != 0)
            &&& r[key_index(Key::GamePadDPadRight)].down == (b & 0x4000u64 != 0)
            &&& r[key_index(Key::GamePadDPadDown)].down == (b & 0x8000u64 != 0)
            &&& forall|i: int|
                0 <= i < KEY_COUNT ==> (#[trigger] r[i]).pressed == (states[i].pressed || (!states[i].down
                    && r[i].down)) && r[i].released == (states[i].released || (states[i].down && !r[i].down))
            &&& forall|i: int| KEY_COUNT <= i < states.len() ==> #[trigger] r[i] == states[i]
        }),
{
}

} // verus!
