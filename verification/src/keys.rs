//! The keys and events that the radio knows.
use vstd::prelude::*;

verus! {

/// A pressed key.
#[derive(Clone, Copy, PartialEq, Eq, Structural)]
pub enum Key {
    Char(char),
    Up,
    Down,
    Left,
    Right,
    Enter,
    Esc,
    /// Any other key: nothing happens.
    Other,
}

/// An event of the terminal.
#[derive(Clone, Copy, PartialEq, Eq, Structural)]
pub enum UiEvent {
    /// A key was pressed.
    Press(Key),
    Resize,
    /// Any other event, the release of a key among them: nothing happens.
    Other,
}

} // verus!
