//! The decisions of the loop that reads the keyboard.

use vstd::prelude::*;
use crate::events::Event;

verus! {

/// How long one poll of the keyboard waits for a key: a hundredth of a
/// second, in nanoseconds.
pub const POLL_NANOS: u128 = 10_000_000;

/// A key of the keyboard.
#[derive(Debug, Clone, Copy, PartialEq, Eq, Structural)]
pub enum Key {
    Esc,
    Enter,
    Backspace,
    Tab,
    Left,
    Right,
    Up,
    Down,
    /// A key that stands for a character.
    Char(char),
    /// A function key, by its number.
    F(u8),
    /// Any other key.
    Other,
}

/// The event that a key stands for: `Esc` asks to quit, and no other key
/// is bound.
pub open spec fn key_binding(key: Key) -> Option<Event> {
    if key == Key::Esc {
        Some(Event::Quit)
    } else {
        None
    }
}

/// What the input loop does with a key that was pressed. `Some(event)`
/// tells it to publish the event and to leave the loop; `None` tells it to
/// ignore the key and to go on polling.
pub fn input_step(key: Key) -> (publish: Option<Event>)
    ensures
        publish == key_binding(key),
{
    match key {
        Key::Esc => Some(Event::Quit),
        _ => None,
    }
}

} // verus!
