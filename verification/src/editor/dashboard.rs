//! The status bar: the state of the editor at its left end, the place of
//! the cursor at its right end.

pub mod cursor_pos;

pub use cursor_pos::CursorPos;

use vstd::prelude::*;
use crate::editor::document::state::EditorState;
use crate::utils::screen::Screen;
use crate::utils::text::{append_chars, chars_of, string_of};

verus! {

/// The status bar in the last row of the terminal.
pub struct EditorDashboard {
    pub cursor_pos: CursorPos,
    pub state: EditorState,
    // the state that was shown before a component opened
    pub previous_state: EditorState,
    // this cursor position is used to temporarily
    // save and restore cursor.
    pub temp_cursor_pos: CursorPos,
}

/// What the status bar draws in its row: the state at the left end, the
/// place of the cursor at the right end, and between them as many blank
/// columns as fill the row.
pub struct RenderedDashboard {
    pub row: usize,
    pub state: String,
    pub divider_width: usize,
    pub cursor_pos: String,
}

/// A text with one space before and one behind it.
pub open spec fn padded(text: Seq<char>) -> Seq<char> {
    seq![' '] + text + seq![' ']
}

fn pad(text: &String) -> (out: String)
    ensures
        out@ == padded(text@),
{
    let mut chars: Vec<char> = Vec::new();
    chars.push(' ');
    let body = chars_of(text.as_str());
    append_chars(&mut chars, &body);
    chars.push(' ');
    assert(chars@ =~= padded(text@));
    string_of(&chars)
}

impl EditorDashboard {
    /// The width that is left between the two ends of the bar on a
    /// terminal `width` columns wide; nothing where they do not fit.
    pub open spec fn divider(&self, width: int) -> int {
        let used = padded(self.state.name()).len() + padded(self.cursor_pos.text()).len();
        if width >= used {
            width - used
        } else {
            0
        }
    }

    /// The state that comes back when a component closes, after `state`
    /// is set: `state` itself where it is a state of the text; the state
    /// shown so far where `state` opens a component over the text; else
    /// what it was.
    pub open spec fn remembered(&self, state: EditorState) -> EditorState {
        if !state.spec_is_component_state() {
            state
        } else if !self.state.spec_is_component_state() {
            self.state
        } else {
            self.previous_state
        }
    }

    pub fn new() -> (dashboard: Self)
        ensures
            dashboard.cursor_pos == (CursorPos { row: 1, col: 1 }),
            dashboard.state == EditorState::Saved,
            dashboard.previous_state == EditorState::Saved,
            dashboard.temp_cursor_pos == (CursorPos { row: 1, col: 1 }),
    {
        Self {
            cursor_pos: CursorPos { row: 1, col: 1 },
            state: EditorState::Saved,
            previous_state: EditorState::Saved,
            temp_cursor_pos: CursorPos { row: 1, col: 1 },
        }
    }

    /// What the bar draws in the last row of `screen`.
    pub fn render(&self, screen: &Screen) -> (drawn: RenderedDashboard)
        requires
            screen.height >= 1,
        ensures
            drawn.row == screen.height - 1,
            drawn.state@ == padded(self.state.name()),
            drawn.cursor_pos@ == padded(self.cursor_pos.text()),
            drawn.divider_width == self.divider(screen.width as int),
    {
        let state_str = pad(&self.state.to_string());
        let cursor_pos_str = pad(&self.cursor_pos.to_string());
        let state_len = chars_of(state_str.as_str()).len();
        let cursor_pos_len = chars_of(cursor_pos_str.as_str()).len();

        let width = screen.width();
        let remain_space = if width >= state_len && width - state_len >= cursor_pos_len {
            width - state_len - cursor_pos_len
        } else {
            0
        };
        RenderedDashboard {
            row: screen.height() - 1,
            state: state_str,
            divider_width: remain_space,
            cursor_pos: cursor_pos_str,
        }
    }

    /// Shows `state` and draws the bar. The cursor is back where it was
    /// when the bar is drawn.
    pub fn set_state(&mut self, state: EditorState, screen: &mut Screen) -> (drawn:
        RenderedDashboard)
        requires
            old(screen).height >= 1,
        ensures
            final(self).state == state,
            final(self).previous_state == old(self).remembered(state),
            final(self).cursor_pos == old(self).cursor_pos,
            final(self).temp_cursor_pos == (CursorPos {
                row: old(screen).row,
                col: old(screen).col,
            }),
            *final(screen) == *old(screen),
            drawn.row == old(screen).height - 1,
            drawn.state@ == padded(state.name()),
            drawn.cursor_pos@ == padded(old(self).cursor_pos.text()),
            drawn.divider_width == final(self).divider(old(screen).width as int),
    {
        if !state.is_component_state() {
            self.previous_state = state;
        } else if !self.state.is_component_state() {
            self.previous_state = self.state;
        }
        self.state = state;
        self.temp_cursor_pos.save_pos(screen);
        let drawn = self.render(screen);
        self.temp_cursor_pos.restore_pos(screen);
        drawn
    }

    /// Shows again the state that was shown before a component opened.
    pub fn restore_state(&mut self, screen: &mut Screen) -> (drawn: RenderedDashboard)
        requires
            old(screen).height >= 1,
        ensures
            final(self).state == old(self).previous_state,
            final(self).previous_state == old(self).previous_state,
            final(self).cursor_pos == old(self).cursor_pos,
            final(self).temp_cursor_pos == (CursorPos {
                row: old(screen).row,
                col: old(screen).col,
            }),
            *final(screen) == *old(screen),
            drawn.row == old(screen).height - 1,
            drawn.state@ == padded(old(self).previous_state.name()),
            drawn.cursor_pos@ == padded(old(self).cursor_pos.text()),
            drawn.divider_width == final(self).divider(old(screen).width as int),
    {
        self.state = self.previous_state;
        self.temp_cursor_pos.save_pos(screen);
        let drawn = self.render(screen);
        self.temp_cursor_pos.restore_pos(screen);
        drawn
    }

    /// Shows the place `(row, col)` and draws the bar. The cursor is back
    /// where it was when the bar is drawn.
    pub fn set_cursor_pos(&mut self, row: usize, col: usize, screen: &mut Screen) -> (drawn:
        RenderedDashboard)
        requires
            old(screen).height >= 1,
        ensures
            final(self).cursor_pos == (CursorPos { row, col }),
            final(self).state == old(self).state,
            final(self).previous_state == old(self).previous_state,
            final(self).temp_cursor_pos == (CursorPos {
                row: old(screen).row,
                col: old(screen).col,
            }),
            *final(screen) == *old(screen),
            drawn.row == old(screen).height - 1,
            drawn.state@ == padded(old(self).state.name()),
            drawn.cursor_pos@ == padded((CursorPos { row, col }).text()),
            drawn.divider_width == final(self).divider(old(screen).width as int),
    {
        self.cursor_pos.row = row;
        self.cursor_pos.col = col;
        self.temp_cursor_pos.save_pos(screen);
        let drawn = self.render(screen);
        self.temp_cursor_pos.restore_pos(screen);
        drawn
    }
}

} // verus!
