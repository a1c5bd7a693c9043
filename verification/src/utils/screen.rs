use vstd::prelude::*;

verus! {

/// The terminal as the editor sees it: its size in cells, where the hardware
/// cursor stands, and the position that the last `save_pos` remembered.
///
/// Rows and columns count from zero at the top-left cell.
#[derive(Clone, Copy, Debug, PartialEq, Eq, Structural)]
pub struct Screen {
    pub width: usize,
    pub height: usize,
    pub row: usize,
    pub col: usize,
    pub saved_row: usize,
    pub saved_col: usize,
}

impl Screen {
    /// A screen of the given size with the cursor in the top-left cell.
    pub fn new(width: usize, height: usize) -> (screen: Screen)
        ensures
            screen == (Screen { width, height, row: 0, col: 0, saved_row: 0, saved_col: 0 }),
    {
        Screen { width, height, row: 0, col: 0, saved_row: 0, saved_col: 0 }
    }

    /// The cursor stands on a cell of the screen.
    pub open spec fn cursor_inside(&self) -> bool {
        self.row < self.height && self.col < self.width
    }

    pub fn width(&self) -> (w: usize)
        ensures
            w == self.width,
    {
        self.width
    }

    pub fn height(&self) -> (h: usize)
        ensures
            h == self.height,
    {
        self.height
    }

    pub fn pos_row(&self) -> (row: usize)
        ensures
            row == self.row,
    {
        self.row
    }

    pub fn pos_col(&self) -> (col: usize)
        ensures
            col == self.col,
    {
        self.col
    }

    /// Records a new terminal size, as after a resize. The cursor stays.
    pub fn resize(&mut self, width: usize, height: usize)
        ensures
            *final(self) == (Screen { width, height, ..*old(self) }),
    {
        self.width = width;
        self.height = height;
    }

    pub fn move_to_row(&mut self, row: usize)
        ensures
            *final(self) == (Screen { row, ..*old(self) }),
    {
        self.row = row;
    }

    pub fn move_to_col(&mut self, col: usize)
        ensures
            *final(self) == (Screen { col, ..*old(self) }),
    {
        self.col = col;
    }

    pub fn move_to_left_top(&mut self)
        ensures
            *final(self) == (Screen { row: 0, col: 0, ..*old(self) }),
    {
        self.row = 0;
        self.col = 0;
    }

    /// Moves the cursor up by `n` rows, stopping at the top row as a
    /// terminal does.
    pub fn up(&mut self, n: usize)
        ensures
            *final(self) == (Screen {
                row: if old(self).row >= n { (old(self).row - n) as usize } else { 0 },
                ..*old(self)
            }),
    {
        self.row = if self.row >= n { self.row - n } else { 0 };
    }

    /// Moves the cursor down by `n` rows, stopping at the bottom row.
    pub fn down(&mut self, n: usize)
        requires
            old(self).cursor_inside(),
        ensures
            *final(self) == (Screen {
                row: if old(self).row + n < old(self).height {
                    (old(self).row + n) as usize
                } else {
                    (old(self).height - 1) as usize
                },
                ..*old(self)
            }),
            final(self).cursor_inside(),
    {
        self.row = if n < self.height - self.row { self.row + n } else { self.height - 1 };
    }

    /// Moves the cursor left by `n` columns, stopping at the first column.
    pub fn left(&mut self, n: usize)
        ensures
            *final(self) == (Screen {
                col: if old(self).col >= n { (old(self).col - n) as usize } else { 0 },
                ..*old(self)
            }),
    {
        self.col = if self.col >= n { self.col - n } else { 0 };
    }

    /// Moves the cursor right by `n` columns, stopping at the last column.
    pub fn right(&mut self, n: usize)
        requires
            old(self).cursor_inside(),
        ensures
            *final(self) == (Screen {
                col: if old(self).col + n < old(self).width {
                    (old(self).col + n) as usize
                } else {
                    (old(self).width - 1) as usize
                },
                ..*old(self)
            }),
            final(self).cursor_inside(),
    {
        self.col = if n < self.width - self.col { self.col + n } else { self.width - 1 };
    }

    /// Remembers where the cursor stands.
    pub fn save_pos(&mut self)
        ensures
            *final(self) == (Screen {
                saved_row: old(self).row,
                saved_col: old(self).col,
                ..*old(self)
            }),
    {
        self.saved_row = self.row;
        self.saved_col = self.col;
    }

    /// Puts the cursor back where the last `save_pos` found it.
    pub fn restore_pos(&mut self)
        ensures
            *final(self) == (Screen {
                row: old(self).saved_row,
                col: old(self).saved_col,
                ..*old(self)
            }),
    {
        self.row = self.saved_row;
        self.col = self.saved_col;
    }
}

} // verus!
