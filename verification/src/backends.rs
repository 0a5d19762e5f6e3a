//! The backend contract: the capability set every native-input adapter must
//! satisfy, together with the adapters and frame-building helpers that need
//! no native subsystem.

use vstd::prelude::*;

use crate::types::{Button, GamepadError, GamepadEvent, GamepadState};

pub mod dummy;
pub mod snapshot;
pub mod wasm;
pub mod xinput;

verus! {

/// The polymorphic interface between the engine and a native-input adapter.
///
/// An adapter owns the device collection; `update` replaces it once per
/// frame with freshly computed states, correlating against the collection
/// held before the call to derive button edges.
pub trait GamepadEngineBackend {
    /// The adapter's current device collection, one entry per connected
    /// slot, in slot order.
    spec fn gamepads_view(&self) -> Seq<GamepadState>;

    /// Queries the native subsystem once and replaces the device collection.
    ///
    /// A transient per-slot "not connected" condition must not abort the
    /// update; any other native failure is fatal for this call and must
    /// leave the previously held collection untouched, so the host retains
    /// the last known good state.
    ///
    /// On success every button the new collection maps carries, as its
    /// `was_pressed`, the `is_pressed` the collection held before the call
    /// at the same slot index (`false` for a slot that did not exist): the
    /// edge correlation is never skipped, so polling
    /// twice with no real input change yields no spurious edge.
    fn update(&mut self) -> (r: Result<(), GamepadError>)
        ensures
            r is Err ==> final(self).gamepads_view() == old(self).gamepads_view(),
            r is Ok ==> forall|i: int, b: Button|
                0 <= i < final(self).gamepads_view().len() ==> (match (#[trigger] final(self).gamepads_view()[i].spec_button(b)) {
                    Some(s) => s.was_pressed == (0 <= i < old(self).gamepads_view().len() && old(self).gamepads_view()[i].spec_is_pressed(b)),
                    None => true,
                }),
    ;

    /// Connect / disconnect transitions observed since the last call.
    /// Adapters unable to detect them return an empty sequence, so callers
    /// must not assume completeness.
    fn poll_events(&mut self) -> (r: Vec<GamepadEvent>);

    /// Read-only view of the latest device collection; no recomputation.
    fn gamepads(&self) -> (r: &Vec<GamepadState>)
        ensures
            r@ == self.gamepads_view(),
    ;

    /// Mutable view of the latest device collection.
    fn gamepads_mut(&mut self) -> (r: &mut Vec<GamepadState>)
        ensures
            r@ == old(self).gamepads_view(),
            final(self).gamepads_view() == final(r)@,
    ;
}

} // verus!
