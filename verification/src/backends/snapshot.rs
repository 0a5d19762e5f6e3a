//! The frame-to-frame diffing algorithm for adapters that read every button
//! afresh each frame.
//!
//! An adapter gathers one [`PadSnapshot`] per connected slot — the raw
//! pressed value of every button it reports plus the raw stick positions —
//! and the functions here turn those readings into the frame's
//! [`GamepadState`] collection, consulting the previous frame's state at the
//! same slot index to fill in `was_pressed`.

use vstd::prelude::*;

use crate::types::{assoc_find, distinct_keys, Button, ButtonState, GamepadState, Joystick,
    JoystickState};

verus! {

/// One controller's raw readings for a frame.
pub struct PadSnapshot {
    /// The pressed value of every button the adapter reports, one entry per
    /// button.
    pub buttons: Vec<(Button, bool)>,
    /// Raw left-stick axes, where the native interface exposes them.
    pub left_stick: Option<(i16, i16)>,
    /// Raw right-stick axes, where the native interface exposes them.
    pub right_stick: Option<(i16, i16)>,
}

impl PadSnapshot {
    /// No button is reported twice.
    pub open spec fn wf(self) -> bool {
        distinct_keys(self.buttons@)
    }

    /// The raw pressed value reported for `b`, if `b` was reported at all.
    pub open spec fn spec_raw(self, b: Button) -> Option<bool> {
        assoc_find(self.buttons@, b)
    }
}

/// The `was_pressed` source for a slot: the previous frame's `is_pressed`,
/// or `false` when the slot is new.
pub open spec fn spec_prev_pressed(prev: Option<GamepadState>, b: Button) -> bool {
    match prev {
        Some(p) => p.spec_is_pressed(b),
        None => false,
    }
}

/// The button map a snapshot yields: each reported button keeps its raw
/// value as `is_pressed` and takes the previous frame's value as
/// `was_pressed`.
pub open spec fn spec_built_buttons(snap: Seq<(Button, bool)>, prev: Option<GamepadState>) -> Seq<
    (Button, ButtonState),
> {
    snap.map(
        |i: int, e: (Button, bool)|
            (e.0, ButtonState { is_pressed: e.1, was_pressed: spec_prev_pressed(prev, e.0) }),
    )
}

/// The joystick map a snapshot yields: one entry per stick the adapter
/// reported, left before right.
pub open spec fn spec_built_joysticks(l: Option<(i16, i16)>, r: Option<(i16, i16)>) -> Seq<
    (Joystick, JoystickState),
> {
    let with_l = if l is Some {
        Seq::<(Joystick, JoystickState)>::empty().push(
            (Joystick::Left, JoystickState { raw_value: l->0 }),
        )
    } else {
        Seq::<(Joystick, JoystickState)>::empty()
    };
    if r is Some {
        with_l.push((Joystick::Right, JoystickState { raw_value: r->0 }))
    } else {
        with_l
    }
}

/// The previous frame's state for slot `i`, if that slot existed.
pub open spec fn spec_prev_at(prev: Seq<GamepadState>, i: int) -> Option<GamepadState> {
    if 0 <= i < prev.len() {
        Some(prev[i])
    } else {
        None
    }
}

/// Dereference an optional borrowed state for use in the specs above.
pub open spec fn spec_deref(prev: Option<&GamepadState>) -> Option<GamepadState> {
    match prev {
        Some(p) => Some(*p),
        None => None,
    }
}

/// Looking a button up in the built map gives exactly the snapshot's raw
/// value paired with the previous frame's value.
pub proof fn lemma_built_buttons_find(
    snap: Seq<(Button, bool)>,
    prev: Option<GamepadState>,
    b: Button,
)
    ensures
        assoc_find(spec_built_buttons(snap, prev), b) == match assoc_find(snap, b) {
            Some(raw) => Some(
                ButtonState { is_pressed: raw, was_pressed: spec_prev_pressed(prev, b) },
            ),
            None => None::<ButtonState>,
        },
    decreases snap.len(),
{
    reveal_with_fuel(assoc_find, 3);
    let built = spec_built_buttons(snap, prev);
    if snap.len() == 0 {
        assert(built.len() == 0);
    } else {
        assert(built[0] == (snap[0].0, ButtonState {
            is_pressed: snap[0].1,
            was_pressed: spec_prev_pressed(prev, snap[0].0),
        }));
        assert(built.drop_first() =~= spec_built_buttons(snap.drop_first(), prev));
        lemma_built_buttons_find(snap.drop_first(), prev, b);
    }
}

/// The raw pressed value a snapshot reports for `b`, an unreported button
/// counting as released.
pub open spec fn spec_raw_or_released(snap: PadSnapshot, b: Button) -> bool {
    match snap.spec_raw(b) {
        Some(raw) => raw,
        None => false,
    }
}

/// A button whose raw value did not change between two consecutive frames
/// shows neither edge in the newly built state.
///
/// `prev` is the slot's state of the previous frame, whose `is_pressed` is
/// that frame's raw value; `g` is the state built from the current frame's
/// snapshot against `prev`.
pub proof fn lemma_unchanged_raw_no_edges(
    prev: Option<GamepadState>,
    snap: PadSnapshot,
    g: GamepadState,
    b: Button,
)
    requires
        g.buttons@ == spec_built_buttons(snap.buttons@, prev),
        spec_raw_or_released(snap, b) == spec_prev_pressed(prev, b),
    ensures
        !g.spec_just_pressed(b),
        !g.spec_just_released(b),
{
    lemma_built_buttons_find(snap.buttons@, prev, b);
}

/// A button whose raw value went from released to pressed between two
/// consecutive frames shows exactly the *just pressed* edge in the newly
/// built state, and not the *just released* one.
pub proof fn lemma_press_transition_edge(
    prev: Option<GamepadState>,
    snap: PadSnapshot,
    g: GamepadState,
    b: Button,
)
    requires
        g.buttons@ == spec_built_buttons(snap.buttons@, prev),
        !spec_prev_pressed(prev, b),
        snap.spec_raw(b) == Some(true),
    ensures
        g.spec_just_pressed(b),
        !g.spec_just_released(b),
{
    lemma_built_buttons_find(snap.buttons@, prev, b);
}

/// Builds one slot's state for the current frame from its raw readings,
/// taking `was_pressed` for each button from `prev`.
pub fn build_gamepad_state(prev: Option<&GamepadState>, snap: &PadSnapshot) -> (g: GamepadState)
    ensures
        g.buttons@ == spec_built_buttons(snap.buttons@, spec_deref(prev)),
        g.joysticks@ == spec_built_joysticks(snap.left_stick, snap.right_stick),
{
    let mut state = GamepadState::new();
    let n = snap.buttons.len();
    let mut i: usize = 0;
    while i < n
        invariant
            n == snap.buttons@.len(),
            0 <= i <= n,
            state.buttons@ == spec_built_buttons(snap.buttons@.take(i as int), spec_deref(prev)),
            state.joysticks@ == Seq::<(Joystick, JoystickState)>::empty(),
        decreases n - i,
    {
        let (button, raw) = snap.buttons[i];
        let was_pressed = match prev {
            Some(p) => p.is_pressed(button),
            None => false,
        };
        state.buttons.push((button, ButtonState::new(raw, was_pressed)));
        proof {
            assert(snap.buttons@.take(i + 1 as int) =~= snap.buttons@.take(i as int).push(
                snap.buttons@[i as int],
            ));
            assert(state.buttons@ =~= spec_built_buttons(
                snap.buttons@.take(i + 1 as int),
                spec_deref(prev),
            ));
        }
        i += 1;
    }
    proof {
        assert(snap.buttons@.take(n as int) =~= snap.buttons@);
    }
    if let Some(raw_value) = snap.left_stick {
        state.joysticks.push((Joystick::Left, JoystickState::new(raw_value)));
    }
    if let Some(raw_value) = snap.right_stick {
        state.joysticks.push((Joystick::Right, JoystickState::new(raw_value)));
    }
    proof {
        assert(state.joysticks@ =~= spec_built_joysticks(snap.left_stick, snap.right_stick));
    }
    state
}

/// Builds the whole frame: one state per snapshot, index-aligned to slots,
/// each correlated against the previous frame's state at the same slot.
pub fn build_frame(prev: &Vec<GamepadState>, snaps: &Vec<PadSnapshot>) -> (r: Vec<GamepadState>)
    ensures
        r@.len() == snaps@.len(),
        forall|i: int|
            0 <= i < snaps@.len() ==> #[trigger] r@[i].buttons@ == spec_built_buttons(
                snaps@[i].buttons@,
                spec_prev_at(prev@, i),
            ) && r@[i].joysticks@ == spec_built_joysticks(
                snaps@[i].left_stick,
                snaps@[i].right_stick,
            ),
{
    let mut out: Vec<GamepadState> = Vec::new();
    let n = snaps.len();
    let mut i: usize = 0;
    while i < n
        invariant
            n == snaps@.len(),
            0 <= i <= n,
            out@.len() == i,
            forall|j: int|
                0 <= j < i ==> #[trigger] out@[j].buttons@ == spec_built_buttons(
                    snaps@[j].buttons@,
                    spec_prev_at(prev@, j),
                ) && out@[j].joysticks@ == spec_built_joysticks(
                    snaps@[j].left_stick,
                    snaps@[j].right_stick,
                ),
        decreases n - i,
    {
        let prev_state: Option<&GamepadState> = if i < prev.len() {
            Some(&prev[i])
        } else {
            None
        };
        let g = build_gamepad_state(prev_state, &snaps[i]);
        out.push(g);
        i += 1;
    }
    out
}

} // verus!
