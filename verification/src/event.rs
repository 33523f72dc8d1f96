//! The events the shell core reads.
//!
//! The windowing collaborator yields a discriminated union of input and
//! window events. The core only ever inspects whether an event is a quit
//! request and which key a keyboard event carries, so this type holds
//! exactly that; the boundary converts the collaborator's events into it.

use vstd::prelude::*;

verus! {

/// An input or window event, as the shell core sees it.
#[derive(Debug, Clone, Copy, PartialEq, Eq)]
pub enum Event {
    /// The window was asked to close; the frame loop terminates on it.
    Quit,
    /// A key went down. The key code is absent for keys the backend cannot
    /// name.
    KeyDown { keycode: Option<u32> },
    /// A key went up.
    KeyUp { keycode: Option<u32> },
    /// Any other event; the core forwards it without inspecting it.
    Other,
}

/// Whether an event signals that the application should quit.
pub open spec fn is_quit(e: Event) -> bool {
    e is Quit
}

} // verus!
