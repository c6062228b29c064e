//! Dear imgui navigation input from the Switch pad and touch panel: the
//! edge-triggered key events and the touch-to-mouse-button transitions.

use vstd::prelude::*;
use crate::input::{held, NPAD_A, NPAD_B, NPAD_X, NPAD_Y, NPAD_L, NPAD_R, NPAD_LEFT, NPAD_UP, NPAD_RIGHT, NPAD_DOWN};

verus! {

/// The imgui gamepad keys the pad drives.
#[derive(Clone, Copy, Debug, PartialEq, Eq, Structural)]
pub enum NavKey {
    GamepadFaceDown,
    GamepadFaceRight,
    GamepadFaceUp,
    GamepadFaceLeft,
    GamepadDpadUp,
    GamepadDpadDown,
    GamepadDpadLeft,
    GamepadDpadRight,
    GamepadL1,
    GamepadR1,
}

/// Pad bit and imgui key, in the order events are submitted. Nintendo's A
/// (physical east) is the platform confirm, so it drives imgui's activate
/// (FaceDown) and B drives cancel (FaceRight).
pub open spec fn nav_table() -> Seq<(u64, NavKey)> {
    seq![
        (NPAD_A, NavKey::GamepadFaceDown),
        (NPAD_B, NavKey::GamepadFaceRight),
        (NPAD_X, NavKey::GamepadFaceUp),
        (NPAD_Y, NavKey::GamepadFaceLeft),
        (NPAD_UP, NavKey::GamepadDpadUp),
        (NPAD_DOWN, NavKey::GamepadDpadDown),
        (NPAD_LEFT, NavKey::GamepadDpadLeft),
        (NPAD_RIGHT, NavKey::GamepadDpadRight),
        (NPAD_L, NavKey::GamepadL1),
        (NPAD_R, NavKey::GamepadR1),
    ]
}

/// The key events owed for the first `n` entries of the table: one event per
/// entry whose bit differs between `old` and `cur`, carrying its new state.
pub open spec fn nav_events_upto(cur: u64, old: u64, n: nat) -> Seq<(NavKey, bool)>
    decreases n,
{
    if n == 0 {
        seq![]
    } else {
        let prev = nav_events_upto(cur, old, (n - 1) as nat);
        let entry = nav_table()[n - 1];
        if held(cur, entry.0) != held(old, entry.0) {
            prev.push((entry.1, held(cur, entry.0)))
        } else {
            prev
        }
    }
}

/// All key events owed when the pad goes from `old` to `cur`.
pub open spec fn nav_events(cur: u64, old: u64) -> Seq<(NavKey, bool)> {
    nav_events_upto(cur, old, nav_table().len())
}

/// The table as a vector.
pub fn nav_bindings() -> (r: Vec<(u64, NavKey)>)
    ensures
        r@ == nav_table(),
{
    let r = vec![
        (NPAD_A, NavKey::GamepadFaceDown),
        (NPAD_B, NavKey::GamepadFaceRight),
        (NPAD_X, NavKey::GamepadFaceUp),
        (NPAD_Y, NavKey::GamepadFaceLeft),
        (NPAD_UP, NavKey::GamepadDpadUp),
        (NPAD_DOWN, NavKey::GamepadDpadDown),
        (NPAD_LEFT, NavKey::GamepadDpadLeft),
        (NPAD_RIGHT, NavKey::GamepadDpadRight),
        (NPAD_L, NavKey::GamepadL1),
        (NPAD_R, NavKey::GamepadR1),
    ];
    assert(r@ =~= nav_table());
    r
}

/// Edge-triggered key events for one frame: `(key, down)` for every bound
/// button whose state changed between the previous reading `old` and the
/// current one `cur`, in table order.
pub fn nav_key_events(cur: u64, old: u64) -> (r: Vec<(NavKey, bool)>)
    ensures
        r@ == nav_events(cur, old),
{
    let table = nav_bindings();
    let mut events: Vec<(NavKey, bool)> = Vec::new();
    let mut i: usize = 0;
    while i < table.len()
        invariant
            table@ == nav_table(),
            i <= table@.len(),
            events@ == nav_events_upto(cur, old, i as nat),
        decreases table@.len() - i,
    {
        let (bit, key) = table[i];
        let down = cur & bit != 0;
        if down != (old & bit != 0) {
            events.push((key, down));
        }
        i = i + 1;
    }
    events
}

/// Whether the touch panel counts as touched: a state was read and it holds
/// at least one finger.
pub open spec fn touched(got: usize, count: i32) -> bool {
    got > 0 && count > 0
}

/// The mouse-button event owed by a touch reading when the button was
/// `was_down`: the new state when it changed, else none.
pub open spec fn touch_event(was_down: bool, got: usize, count: i32) -> Option<bool> {
    if touched(got, count) != was_down {
        Some(touched(got, count))
    } else {
        None
    }
}

/// Touch panel to imgui left mouse button. Only the first finger matters;
/// imgui is a pointer UI.
pub struct TouchButton {
    touch_down: bool,
}

impl TouchButton {
    /// Whether the left button is currently reported down.
    pub closed spec fn is_down(&self) -> bool {
        self.touch_down
    }

    pub fn new() -> (r: Self)
        ensures
            !r.is_down(),
    {
        TouchButton { touch_down: false }
    }

    pub fn touch_down(&self) -> (r: bool)
        ensures
            r == self.is_down(),
    {
        self.touch_down
    }

    /// Feeds one touch-panel reading (`got` states read, `count` fingers in
    /// the first) and returns the mouse-button event owed, if the button
    /// changed state.
    pub fn update(&mut self, got: usize, count: i32) -> (event: Option<bool>)
        ensures
            final(self).is_down() == touched(got, count),
            event == touch_event(old(self).is_down(), got, count),
    {
        let down = got > 0 && count > 0;
        if down != self.touch_down {
            self.touch_down = down;
            Some(down)
        } else {
            None
        }
    }
}


proof fn lemma_no_change_upto(buttons: u64, n: nat)
    ensures
        nav_events_upto(buttons, buttons, n) == Seq::<(NavKey, bool)>::empty(),
    decreases n,
{
    if n > 0 {
        lemma_no_change_upto(buttons, (n - 1) as nat);
    }
}

/// An unchanged pad owes no key events.
pub proof fn law_no_change_no_events(buttons: u64)
    ensures
        nav_events(buttons, buttons) == Seq::<(NavKey, bool)>::empty(),
{
    lemma_no_change_upto(buttons, 10);
}

/// A touch reading that repeats the state last reported owes no mouse-button event.
pub proof fn law_touch_repeat_is_quiet(got: usize, count: i32)
    ensures
        touch_event(touched(got, count), got, count) is None,
{
}

/// The event owed for one pad bit and the imgui key it drives: its new state
/// when the bit changed between `old` and `cur`, nothing otherwise.
pub open spec fn bit_event(cur: u64, old: u64, bit: u64, key: NavKey) -> Seq<(NavKey, bool)> {
    if (cur & bit != 0) != (old & bit != 0) {
        seq![(key, cur & bit != 0)]
    } else {
        seq![]
    }
}

proof fn lemma_nav_step(cur: u64, old: u64, n: nat)
    requires
        n < nav_table().len(),
    ensures
        nav_events_upto(cur, old, n + 1) == nav_events_upto(cur, old, n) + bit_event(
            cur,
            old,
            nav_table()[n as int].0,
            nav_table()[n as int].1,
        ),
{
    assert(nav_events_upto(cur, old, n + 1) =~= nav_events_upto(cur, old, n) + bit_event(
        cur,
        old,
        nav_table()[n as int].0,
        nav_table()[n as int].1,
    ));
}

/// For every pair of readings, each pad bit drives its fixed imgui key by
/// physical position, in this submission order: A (bit 0) activate
/// (FaceDown), B (bit 1) cancel (FaceRight), X (bit 2) FaceUp, Y (bit 3)
/// FaceLeft, then D-pad up (bit 13), down (bit 15), left (bit 12), right
/// (bit 14), then L (bit 6) and R (bit 7); an event is owed exactly for a bit
/// that changed and carries its new state.
pub proof fn law_nav_keys_by_position(cur: u64, old: u64)
    ensures
        nav_events(cur, old) == bit_event(cur, old, 0x1, NavKey::GamepadFaceDown) + bit_event(
            cur,
            old,
            0x2,
            NavKey::GamepadFaceRight,
        ) + bit_event(cur, old, 0x4, NavKey::GamepadFaceUp) + bit_event(cur, old, 0x8, NavKey::GamepadFaceLeft)
            + bit_event(cur, old, 0x2000, NavKey::GamepadDpadUp) + bit_event(
            cur,
            old,
            0x8000,
            NavKey::GamepadDpadDown,
        ) + bit_event(cur, old, 0x1000, NavKey::GamepadDpadLeft) + bit_event(
            cur,
            old,
            0x4000,
            NavKey::GamepadDpadRight,
        ) + bit_event(cur, old, 0x40, NavKey::GamepadL1) + bit_event(cur, old, 0x80, NavKey::GamepadR1),
{
    let t = nav_table();
    assert(t[0] == (0x1u64, NavKey::GamepadFaceDown));
    assert(t[1] == (0x2u64, NavKey::GamepadFaceRight));
    assert(t[2] == (0x4u64, NavKey::GamepadFaceUp));
    assert(t[3] == (0x8u64, NavKey::GamepadFaceLeft));
    assert(t[4] == (0x2000u64, NavKey::GamepadDpadUp));
    assert(t[5] == (0x8000u64, NavKey::GamepadDpadDown));
    assert(t[6] == (0x1000u64, NavKey::GamepadDpadLeft));
    assert(t[7] == (0x4000u64, NavKey::GamepadDpadRight));
    assert(t[8] == (0x40u64, NavKey::GamepadL1));
    assert(t[9] == (0x80u64, NavKey::GamepadR1));
    assert(t.len() == 10);
    assert(nav_events_upto(cur, old, 0) =~= Seq::<(NavKey, bool)>::empty());
    lemma_nav_step(cur, old, 0);
    lemma_nav_step(cur, old, 1);
    lemma_nav_step(cur, old, 2);
    lemma_nav_step(cur, old, 3);
    lemma_nav_step(cur, old, 4);
    lemma_nav_step(cur, old, 5);
    lemma_nav_step(cur, old, 6);
    lemma_nav_step(cur, old, 7);
    lemma_nav_step(cur, old, 8);
    lemma_nav_step(cur, old, 9);
    assert(Seq::<(NavKey, bool)>::empty() + bit_event(cur, old, 0x1, NavKey::GamepadFaceDown) =~= bit_event(
        cur,
        old,
        0x1,
        NavKey::GamepadFaceDown,
    ));
}

} // verus!
