//! Small helpers over events.

use vstd::prelude::*;
use crate::event::Event;

verus! {

/// Whether `event` is a key-down of exactly the key `key`.
pub open spec fn spec_keyboard_pressed(event: Event, key: u32) -> bool {
    match event {
        Event::KeyDown { keycode } => keycode == Some(key),
        _ => false,
    }
}

/// True exactly when `event` reports that the key `key` was pressed.
pub fn keyboard_pressed(event: &Event, key: u32) -> (r: bool)
    ensures
        r == spec_keyboard_pressed(*event, key),
{
    match event {
        Event::KeyDown { keycode: Some(k) } => *k == key,
        _ => false,
    }
}

} // verus!
