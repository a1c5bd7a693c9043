use vstd::prelude::*;

verus! {

/// The keys that the editor tells apart. Every other key is `Other`.
#[derive(Clone, Copy, Debug, PartialEq, Eq, Structural)]
pub enum KeyCode {
    Backspace,
    Enter,
    Left,
    Right,
    Up,
    Down,
    Esc,
    Char(char),
    Other,
}

/// The modifier keys held down with a key, as far as the editor tells them
/// apart: none, shift alone, control alone, or anything else.
#[derive(Clone, Copy, Debug, PartialEq, Eq, Structural)]
pub enum KeyModifiers {
    Plain,
    Shift,
    Control,
    Other,
}

/// One key press.
#[derive(Clone, Copy, Debug, PartialEq, Eq, Structural)]
pub struct KeyEvent {
    pub code: KeyCode,
    pub modifiers: KeyModifiers,
}

impl KeyEvent {
    pub fn new(code: KeyCode, modifiers: KeyModifiers) -> (key: KeyEvent)
        ensures
            key == (KeyEvent { code, modifiers }),
    {
        KeyEvent { code, modifiers }
    }

    /// The key is Enter with no modifier held.
    pub open spec fn is_plain_enter(self) -> bool {
        self.modifiers == KeyModifiers::Plain && self.code == KeyCode::Enter
    }

    /// The key is Enter with shift held.
    pub open spec fn is_shift_enter(self) -> bool {
        self.modifiers == KeyModifiers::Shift && self.code == KeyCode::Enter
    }
}

} // verus!
