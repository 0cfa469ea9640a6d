use vstd::prelude::*;

verus! {

/// A key press as the terminal front end reports it.
#[derive(Clone, Copy, Debug, PartialEq, Eq, Structural)]
pub enum Key {
    Enter,
    Tab,
    Backspace,
    Esc,
    Left,
    Right,
    Up,
    Down,
    Ins,
    Delete,
    Home,
    End,
    PageUp,
    PageDown,
    F(u8),
    Char(char),
    Ctrl(char),
    Alt(char),
    Unknown,
}

} // verus!
