//! Normalized input events handed to the engine, one per call: a printable
//! character, Enter, Backspace, Escape, or an arrow key; every other code is
//! an explicit no-op at this layer.

use vstd::prelude::*;

verus! {

#[derive(Clone, Copy, PartialEq, Eq, Structural, Debug)]
pub enum KeyModifiers {
    /// No modifier held.
    Plain,
    /// Shift held.
    Shift,
    /// Any other modifier combination.
    Other,
}

#[derive(Clone, Copy, PartialEq, Eq, Structural, Debug)]
pub enum KeyCode {
    Char(char),
    Enter,
    Backspace,
    Esc,
    Left,
    Right,
    Up,
    Down,
    /// Any key the engine does not interpret.
    Other,
}

#[derive(Clone, Copy, PartialEq, Eq, Structural, Debug)]
pub struct KeyEvent {
    pub modifiers: KeyModifiers,
    pub code: KeyCode,
}

#[derive(Clone, Copy, PartialEq, Eq, Structural, Debug)]
pub enum Event {
    Key(KeyEvent),
    /// Focus, mouse, paste and resize events: no-ops at this layer.
    Other,
}

} // verus!
