//! An adapter shell for browser hosts.  The native query runs outside the
//! library; until states are written into the collection it stays empty.

use vstd::prelude::*;

use crate::backends::GamepadEngineBackend;
use crate::types::{Button, ButtonState, GamepadError, GamepadEvent, GamepadState};

verus! {

/// Adapter for hosts that fill the device collection from outside the
/// library, such as a browser's gamepad interface.  Its update observes no
/// input change itself: it re-derives the edge state of the held states.
pub struct WasmBackend {
    pub gamepads: Vec<GamepadState>,
}

impl WasmBackend {
    pub fn new() -> (r: Self)
        ensures
            r.gamepads@ == Seq::<GamepadState>::empty(),
    {
        WasmBackend { gamepads: Vec::new() }
    }
}

impl GamepadEngineBackend for WasmBackend {
    open spec fn gamepads_view(&self) -> Seq<GamepadState> {
        self.gamepads@
    }

    fn update(&mut self) -> (r: Result<(), GamepadError>) {
        let n = self.gamepads.len();
        let mut i: usize = 0;
        while i < n
            invariant
                n == self.gamepads@.len(),
                0 <= i <= n,
                self.gamepads@.len() == old(self).gamepads@.len(),
                forall|j: int| i <= j < n ==> self.gamepads@[j] == old(self).gamepads@[j],
                forall|j: int, b: Button|
                    0 <= j < i ==> #[trigger] self.gamepads@[j].spec_button(b) == match old(self).gamepads@[j].spec_button(b) {
                        Some(c) => Some(
                            ButtonState { is_pressed: c.is_pressed, was_pressed: c.is_pressed },
                        ),
                        None => None::<ButtonState>,
                    },
            decreases n - i,
        {
            self.gamepads[i].refresh_was_pressed();
            i += 1;
        }
        Ok(())
    }

    fn poll_events(&mut self) -> (r: Vec<GamepadEvent>)
        ensures
            r@.len() == 0,
    {
        Vec::new()
    }

    fn gamepads(&self) -> (r: &Vec<GamepadState>) {
        &self.gamepads
    }

    fn gamepads_mut(&mut self) -> (r: &mut Vec<GamepadState>) {
        &mut self.gamepads
    }
}

} // verus!
