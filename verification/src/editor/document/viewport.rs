use vstd::prelude::*;

verus! {

/// The vertical state of a document in mathematical terms: how many lines
/// it has, how many rows of the terminal show lines, which line holds the
/// cursor, how many lines are scrolled out above and below, and the row of
/// the hardware cursor.
///
/// Lines count from one. Row zero of the terminal holds the title, so the
/// lines are shown in the rows from one to `height`.
pub struct Viewport {
    pub line_count: int,
    pub height: int,
    pub current_row: int,
    pub overflow_top: int,
    pub overflow_bottom: int,
    pub row: int,
}

impl Viewport {
    /// What is scrolled out above and below and what is shown make up the
    /// document: a document taller than the window is cut to the window's
    /// height, one that fits is not scrolled at all.
    pub open spec fn balanced(self) -> bool {
        &&& 0 <= self.line_count
        &&& 1 <= self.height
        &&& 0 <= self.overflow_top
        &&& 0 <= self.overflow_bottom
        &&& if self.line_count > self.height {
            self.overflow_top + self.overflow_bottom + self.height == self.line_count
        } else {
            self.overflow_top == 0 && self.overflow_bottom == 0
        }
    }

    /// The viewport is balanced, the document has a line, and the cursor
    /// stands in a row of the window that shows the current line.
    pub open spec fn wf(self) -> bool {
        &&& self.balanced()
        &&& 1 <= self.current_row <= self.line_count
        &&& 1 <= self.row <= self.height
        &&& self.current_row == self.overflow_top + self.row
    }

    /// The number of lines that are shown.
    pub open spec fn visible_count(self) -> int {
        self.line_count - self.overflow_top - self.overflow_bottom
    }

    /// One line up: nothing in the first line; in the top row of the
    /// window the window moves; elsewhere the cursor moves.
    pub open spec fn up(self) -> Viewport {
        if self.current_row == 1 {
            self
        } else if self.row == 1 {
            Viewport {
                current_row: self.current_row - 1,
                overflow_top: self.overflow_top - 1,
                overflow_bottom: self.overflow_bottom + 1,
                ..self
            }
        } else {
            Viewport { current_row: self.current_row - 1, row: self.row - 1, ..self }
        }
    }

    /// One line down: nothing in the last line; in the bottom row of the
    /// window the window moves; elsewhere the cursor moves.
    pub open spec fn down(self) -> Viewport {
        if self.current_row == self.line_count {
            self
        } else if self.row == self.height {
            if self.line_count == self.height {
                Viewport {
                    current_row: self.current_row + 1,
                    overflow_bottom: self.overflow_bottom + 1,
                    ..self
                }
            } else {
                Viewport {
                    current_row: self.current_row + 1,
                    overflow_top: self.overflow_top + 1,
                    overflow_bottom: self.overflow_bottom - 1,
                    ..self
                }
            }
        } else {
            Viewport { current_row: self.current_row + 1, row: self.row + 1, ..self }
        }
    }

    /// `count` lines down, or up, one line at a time.
    pub open spec fn moved(self, down: bool, count: nat) -> Viewport
        decreases count,
    {
        if count == 0 {
            self
        } else {
            let before = self.moved(down, (count - 1) as nat);
            if down {
                before.down()
            } else {
                before.up()
            }
        }
    }

    /// A line put in below the current one, and the cursor moved onto it:
    /// where the document then is taller than the window the window moves
    /// down, else the cursor does.
    pub open spec fn line_added(self) -> Viewport {
        if self.line_count + 1 > self.height {
            Viewport {
                line_count: self.line_count + 1,
                current_row: self.current_row + 1,
                overflow_top: self.overflow_top + 1,
                ..self
            }
        } else {
            Viewport {
                line_count: self.line_count + 1,
                current_row: self.current_row + 1,
                row: self.row + 1,
                ..self
            }
        }
    }

    /// The current line taken out, and the cursor moved onto the line
    /// above: where the document still fills the window and lines are
    /// scrolled out above, the window moves up; else the cursor does, and
    /// a line scrolled out below comes into view.
    pub open spec fn line_removed(self) -> Viewport {
        if self.line_count - 1 >= self.height && self.overflow_top > 0 {
            Viewport {
                line_count: self.line_count - 1,
                current_row: self.current_row - 1,
                overflow_top: self.overflow_top - 1,
                ..self
            }
        } else {
            Viewport {
                line_count: self.line_count - 1,
                current_row: self.current_row - 1,
                row: self.row - 1,
                overflow_bottom: if self.overflow_bottom > 0 {
                    self.overflow_bottom - 1
                } else {
                    0
                },
                ..self
            }
        }
    }
}

/// In a well-formed viewport the current line is one of the lines shown.
pub proof fn lemma_current_line_visible(v: Viewport)
    requires
        v.wf(),
    ensures
        v.overflow_top < v.current_row <= v.line_count - v.overflow_bottom,
        1 <= v.visible_count() <= v.height,
{
}

/// Moving up or down keeps a viewport well-formed, and moves to the next
/// line unless there is none.
pub proof fn lemma_up_down(v: Viewport)
    requires
        v.wf(),
    ensures
        v.up().wf(),
        v.up().current_row == if v.current_row == 1 {
            1
        } else {
            v.current_row - 1
        },
        v.up().line_count == v.line_count,
        v.up().height == v.height,
        v.down().wf(),
        v.down().current_row == if v.current_row == v.line_count {
            v.line_count
        } else {
            v.current_row + 1
        },
        v.down().line_count == v.line_count,
        v.down().height == v.height,
{
}

/// Moving by several lines keeps a viewport well-formed, and arrives at
/// the line that many lines away where the document has one.
pub proof fn lemma_moved(v: Viewport, down: bool, count: nat)
    requires
        v.wf(),
    ensures
        v.moved(down, count).wf(),
        v.moved(down, count).line_count == v.line_count,
        v.moved(down, count).height == v.height,
        down && v.current_row + count <= v.line_count ==> v.moved(down, count).current_row
            == v.current_row + count,
        !down && v.current_row - count >= 1 ==> v.moved(down, count).current_row == v.current_row
            - count,
    decreases count,
{
    if count > 0 {
        lemma_moved(v, down, (count - 1) as nat);
        lemma_up_down(v.moved(down, (count - 1) as nat));
    }
}

/// Putting a line in keeps a viewport well-formed.
pub proof fn lemma_line_added(v: Viewport)
    requires
        v.wf(),
    ensures
        v.line_added().wf(),
        v.line_added().current_row == v.current_row + 1,
        v.line_added().line_count == v.line_count + 1,
{
}

/// Taking out a line that is not the first keeps a viewport well-formed.
pub proof fn lemma_line_removed(v: Viewport)
    requires
        v.wf(),
        v.current_row >= 2,
    ensures
        v.line_removed().wf(),
        v.line_removed().current_row == v.current_row - 1,
        v.line_removed().line_count == v.line_count - 1,
{
}

/// Putting a line in and taking it out again gives back the current line
/// and the number of lines; the window may have moved.
pub proof fn lemma_line_added_then_removed(v: Viewport)
    requires
        v.wf(),
    ensures
        v.line_added().line_removed().wf(),
        v.line_added().line_removed().current_row == v.current_row,
        v.line_added().line_removed().line_count == v.line_count,
{
    lemma_line_added(v);
    lemma_line_removed(v.line_added());
}

} // verus!
