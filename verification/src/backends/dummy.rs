//! An adapter for platforms without a native input subsystem: it reports no
//! controllers and never fails.

use vstd::prelude::*;

use crate::backends::GamepadEngineBackend;
use crate::types::{Button, ButtonState, GamepadError, GamepadEvent, GamepadState};

verus! {

/// An adapter with no native subsystem to poll.  Its update observes no
/// input change: it only re-derives the edge state of whatever states its
/// collection holds, which is empty unless the host filled it.
pub struct DummyBackend {
    pub gamepads: Vec<GamepadState>,
}

impl DummyBackend {
    pub fn new() -> (r: Self)
        ensures
            r.gamepads@ == Seq::<GamepadState>::empty(),
    {
        DummyBackend { gamepads: Vec::new() }
    }
}

impl GamepadEngineBackend for DummyBackend {
    open spec fn gamepads_view(&self) -> Seq<GamepadState> {
        self.gamepads@
    }

    fn update(&mut self) -> (r: Result<(), GamepadError>) {
        let n = self.gamepads.len();
        let mut i: usize = 0;
        while i < n
            invariant
                n == self.gamepads@.len(),
                0 <= i <= n,
                self.gamepads@.len() == old(self).gamepads@.len(),
                forall|j: int| i <= j < n ==> self.gamepads@[j] == old(self).gamepads@[j],
                forall|j: int, b: Button|
                    0 <= j < i ==> #[trigger] self.gamepads@[j].spec_button(b) == match old(self).gamepads@[j].spec_button(b) {
                        Some(c) => Some(
                            ButtonState { is_pressed: c.is_pressed, was_pressed: c.is_pressed },
                        ),
                        None => None::<ButtonState>,
                    },
            decreases n - i,
        {
            self.gamepads[i].refresh_was_pressed();
            i += 1;
        }
        Ok(())
    }

    fn poll_events(&mut self) -> (r: Vec<GamepadEvent>)
        ensures
            r@.len() == 0,
    {
        Vec::new()
    }

    fn gamepads(&self) -> (r: &Vec<GamepadState>) {
        &self.gamepads
    }

    fn gamepads_mut(&mut self) -> (r: &mut Vec<GamepadState>) {
        &mut self.gamepads
    }
}

} // verus!
