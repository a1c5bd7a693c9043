use vstd::prelude::*;
use crate::editor::cursor_pos::EditorCursorPos;
use crate::utils::screen::Screen;

verus! {

/// A place of the cursor, as the status bar shows it or as it is kept to
/// put the hardware cursor back.
#[derive(Clone, Copy, Debug, PartialEq, Eq, Structural)]
pub struct CursorPos {
    pub row: usize,
    pub col: usize,
}

impl CursorPos {
    /// The place as the status bar writes it.
    pub open spec fn text(self) -> Seq<char> {
        (EditorCursorPos { row: self.row, col: self.col }).long_text()
    }

    /// Remembers where the hardware cursor stands.
    pub fn save_pos(&mut self, screen: &Screen)
        ensures
            *final(self) == (CursorPos { row: screen.row, col: screen.col }),
    {
        self.row = screen.pos_row();
        self.col = screen.pos_col();
    }

    /// Puts the hardware cursor at the place remembered.
    pub fn restore_pos(&self, screen: &mut Screen)
        ensures
            *final(screen) == (Screen { row: self.row, col: self.col, ..*old(screen) }),
    {
        screen.move_to_row(self.row);
        screen.move_to_col(self.col);
    }

    pub fn to_string(&self) -> (text: String)
        ensures
            text@ == self.text(),
    {
        (EditorCursorPos { row: self.row, col: self.col }).long_display()
    }
}

} // verus!
