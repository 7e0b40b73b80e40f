//! The keyboard events the controller decides on, as plain values.

use vstd::prelude::*;

verus! {

/// A key press, reduced to what the controller reacts to.
#[derive(PartialEq, Eq, Structural, Clone, Copy, Debug)]
pub enum Key {
    Up,
    Down,
    Left,
    Right,
    Enter,
    Esc,
    Backspace,
    Char(char),
    Other,
}

/// A key press together with whether the control modifier was held.
#[derive(PartialEq, Eq, Structural, Clone, Copy, Debug)]
pub struct KeyInput {
    pub code: Key,
    pub ctrl: bool,
}

impl Key {
    /// Whether this key is one of the four directions.
    pub fn is_direction(&self) -> (r: bool)
        ensures
            r == self.spec_is_direction(),
    {
        match self {
            Key::Up | Key::Down | Key::Left | Key::Right => true,
            _ => false,
        }
    }

    /// Whether this key is one of the four directions.
    pub open spec fn spec_is_direction(&self) -> bool {
        self is Up || self is Down || self is Left || self is Right
    }
}

} // verus!
