//! The top-level user behavior: the single callback surface the frame loop
//! drives each iteration.

use vstd::prelude::*;
use crate::event::Event;

verus! {

/// Trait for user application logic. Implement it to define how the
/// application updates, handles events, and renders.
pub trait AppBehavior {
    /// The render surface the behavior draws on.
    type Surface;

    /// Called on each update frame; `dt_micros` is the delta time since the
    /// last update, in microseconds.
    fn on_update(&mut self, dt_micros: u64);

    /// Handle one event drained from the windowing collaborator.
    fn on_event(&mut self, event: &Event);

    /// Render the application state to the surface.
    fn on_render(&mut self, surface: &mut Self::Surface);
}

} // verus!
