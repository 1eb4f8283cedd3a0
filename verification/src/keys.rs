//! Keyboard input as the panels see it: a key code plus the modifier flags
//! that the key handlers test.

use vstd::prelude::*;

verus! {

/// The key that was pressed.
#[derive(Debug, Clone, Copy, PartialEq, Eq, Structural)]
pub enum KeyCode {
    Char(char),
    Enter,
    Esc,
    Tab,
    BackTab,
    Up,
    Down,
    Left,
    Right,
    Backspace,
    Delete,
    Home,
    End,
    PageUp,
    PageDown,
    Insert,
    F(u8),
    Other,
}

/// A key press: the code, and whether Control or Alt was held.
#[derive(Debug, Clone, Copy, PartialEq, Eq, Structural)]
pub struct KeyInput {
    pub code: KeyCode,
    pub control: bool,
    pub alt: bool,
}

impl KeyInput {
    /// A key press without modifiers.
    pub fn plain(code: KeyCode) -> (k: KeyInput)
        ensures
            k == (KeyInput { code, control: false, alt: false }),
    {
        KeyInput { code, control: false, alt: false }
    }

    /// A key press with Control held.
    pub fn with_control(code: KeyCode) -> (k: KeyInput)
        ensures
            k == (KeyInput { code, control: true, alt: false }),
    {
        KeyInput { code, control: true, alt: false }
    }
}

} // verus!
