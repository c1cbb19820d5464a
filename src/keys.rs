use vstd::prelude::*;

verus! {

/// The keys that the application tells apart.
#[derive(Debug, Clone, Copy, PartialEq, Eq, Structural)]
pub enum KeyCode {
    Char(char),
    Backspace,
    Enter,
    Left,
    Right,
    Up,
    Down,
    Home,
    End,
    Delete,
    Esc,
    /// Any key that has no variant of its own.
    Other,
}

#[derive(Debug, Clone, Copy, PartialEq, Eq, Structural)]
pub enum KeyEventKind {
    Press,
    Repeat,
    Release,
}

/// Modifier bits, in the terminal's own layout.
pub const MOD_NONE: u8 = 0;
pub const MOD_SHIFT: u8 = 1;
pub const MOD_CONTROL: u8 = 2;

/// An abstract key event: which key, whether pressed or released, and the
/// modifier bits held with it.
#[derive(Debug, Clone, Copy, PartialEq, Eq, Structural)]
pub struct KeyEvent {
    pub code: KeyCode,
    pub kind: KeyEventKind,
    pub modifiers: u8,
}

impl KeyEvent {
    /// A press of `code` with no modifier held.
    pub fn press(code: KeyCode) -> (r: KeyEvent)
        ensures
            r == (KeyEvent { code, kind: KeyEventKind::Press, modifiers: MOD_NONE }),
    {
        KeyEvent { code, kind: KeyEventKind::Press, modifiers: MOD_NONE }
    }
}

} // verus!
