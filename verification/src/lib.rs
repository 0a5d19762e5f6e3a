//! A per-frame polling abstraction over native gamepad APIs.
//!
//! The engine owns one backend adapter, drives a per-frame update, and
//! exposes a collection of per-controller snapshots.  Each snapshot records
//! button states together with the previous frame's values, from which
//! one-frame "just pressed" / "just released" edges are derived, and raw
//! analog-stick positions.

use vstd::prelude::*;

pub mod backends;
mod stick;
mod types;

pub use stick::{clamp_deadzone, isqrt, normalize_fixed, stick_length, stick_length_squared,
    NORM_ONE};
pub use types::{u32_to_dec_string, Button, ButtonState, ErrorType, GamepadError, GamepadEvent, Joystick,
    JoystickState};
pub use types::GamepadState;

use crate::backends::dummy::DummyBackend;
use crate::backends::GamepadEngineBackend;

verus! {

/// Owns exactly one backend adapter, selected at construction, and drives
/// the per-frame update.  The engine adds no buffering of its own: the
/// exposed collection is exactly as fresh as the last `update` call.
pub struct GamepadEngine<B: GamepadEngineBackend> {
    backend: B,
}

impl<B: GamepadEngineBackend> GamepadEngine<B> {
    /// The device collection the engine currently exposes.
    pub closed spec fn gamepads_view(&self) -> Seq<GamepadState> {
        self.backend.gamepads_view()
    }

    /// Wraps the adapter the host selected for its platform.
    pub fn new_with_backend(backend: B) -> (r: Self)
        ensures
            r.gamepads_view() == backend.gamepads_view(),
    {
        GamepadEngine { backend }
    }

    /// Polls for input and updates all gamepad states.
    ///
    /// Delegates to the backend and propagates its error unchanged; on an
    /// error the previously held collection is untouched.  On success the
    /// refreshed collection carries, as each mapped button's `was_pressed`,
    /// the `is_pressed` held before the call at the same slot index.
    pub fn update(&mut self) -> (r: Result<(), GamepadError>)
        ensures
            r is Err ==> final(self).gamepads_view() == old(self).gamepads_view(),
            r is Ok ==> forall|i: int, b: Button|
                0 <= i < final(self).gamepads_view().len() ==> (match (#[trigger] final(self).gamepads_view()[i].spec_button(b)) {
                    Some(s) => s.was_pressed == (0 <= i < old(self).gamepads_view().len() && old(self).gamepads_view()[i].spec_is_pressed(b)),
                    None => true,
                }),
    {
        match self.backend.update() {
            Ok(()) => Ok(()),
            Err(e) => Err(e),
        }
    }

    /// The latest device collection, one entry per connected slot.
    pub fn gamepads(&self) -> (r: &Vec<GamepadState>)
        ensures
            r@ == self.gamepads_view(),
    {
        self.backend.gamepads()
    }

    /// Mutable access to the latest device collection.
    pub fn gamepads_mut(&mut self) -> (r: &mut Vec<GamepadState>)
        ensures
            r@ == old(self).gamepads_view(),
            final(self).gamepads_view() == final(r)@,
    {
        self.backend.gamepads_mut()
    }
}

impl GamepadEngine<DummyBackend> {
    /// An engine over the do-nothing adapter.  Hosts with a native adapter
    /// construct the engine through `new_with_backend` instead.
    pub fn new() -> (r: Self)
        ensures
            r.gamepads_view() == Seq::<GamepadState>::empty(),
    {
        GamepadEngine { backend: DummyBackend::new() }
    }
}

} // verus!
