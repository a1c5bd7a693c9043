//! The document: its lines, its viewport and its cursor.

pub mod event;
pub mod history;
pub mod line;
pub mod mode;
pub mod session;
pub mod state;
pub mod viewport;

pub use event::{EditorEvent, EditorOperation};
pub use history::EditorHistory;
pub use line::{EditorLine, RenderedLine};
pub use mode::EditorMode;
pub use session::{CycleOutcome, ModeChange};
pub use state::EditorState;
pub use viewport::Viewport;

use vstd::prelude::*;
use crate::editor::components::EditorComponentManager;
use crate::editor::cursor_pos::EditorCursorPos;
use crate::editor::dashboard::{EditorDashboard, RenderedDashboard};
use crate::editor::direction::Direction;
use crate::editor::document::line::label_text;
use crate::editor::document::viewport::{lemma_line_added, lemma_line_removed, lemma_up_down};
use crate::editor::text_area::drawn_text;
use crate::editor::text_area::model::{
    lemma_at_start_at_end,
    lemma_refreshed,
    lemma_step,
    lemma_steps,
    lemma_truncated,
    lemma_with_content,
    Field,
};
use crate::utils::number_bit_count::{digit_count, number_bit_count};
use crate::utils::screen::Screen;
use crate::utils::search::{find, first_match};
use crate::utils::text::{chars_of, joined, lines_of, push_char, split_lines, views};

verus! {

/// A line of a document is in order on a terminal `width` columns wide
/// when its field starts behind a label of `label_width` columns, keeps
/// one column free at the right edge, and is balanced. Its text is short
/// enough for a column number to name the place behind its last character.
pub open spec fn line_ok(line: EditorLine, width: int, label_width: int) -> bool {
    let area = line.text_area;
    let window = width - label_width - 1;
    &&& area.margin_left == label_width
    &&& area.margin_right == 1
    &&& area.content@.len() < usize::MAX
    &&& if area.content@.len() > window {
        area.overflow_left + area.overflow_right + window == area.content@.len()
    } else {
        area.overflow_left == 0 && area.overflow_right == 0
    }
}

/// The column where the cursor comes to stand in a line `len` characters
/// long when it arrives from above or below in column `col`: the same
/// column, or the line's end where the line is shorter.
pub open spec fn snapped_col(col: int, label_width: int, len: int) -> int {
    if col > len + label_width {
        len + label_width
    } else {
        col
    }
}

/// What the document draws in its window: the lines that are shown, from
/// the top row down; the number of rows below them that show no line; and
/// the width of the labels.
pub struct RenderedPage {
    pub lines: Vec<RenderedLine>,
    pub blank_rows: usize,
    pub label_width: usize,
}

/// What a backward delete took out: nothing, at the start of the
/// document; a character; or the break between two lines, with what the
/// window shows once they are joined.
pub enum Deletion {
    Nothing,
    Character(char),
    LineBreak(RenderedPage),
}

/// The multi-line document with its viewport.
///
/// The document does not store the cursor's row on the screen nor its
/// column: both are those of the hardware cursor, held in the `Screen` that
/// the operations take.
pub struct Editor {
    pub lines: Vec<EditorLine>,
    pub current_row: usize,  // current editing line index
    pub overflow_top: usize,
    pub overflow_bottom: usize,
    pub mode: EditorMode,
    pub components: EditorComponentManager,
    pub dashboard: EditorDashboard,
}

// base value calculating methods
impl Editor {
    /// The document's text, line by line.
    pub open spec fn text(&self) -> Seq<Seq<char>> {
        Seq::new(self.lines@.len(), |i: int| self.lines@[i].text())
    }

    /// The width of the labels: room for the number of the last line and
    /// one space.
    pub open spec fn spec_label_width(&self) -> int {
        digit_count(self.lines@.len()) as int + 1
    }

    /// The document's vertical state on `screen`.
    pub open spec fn viewport(&self, screen: &Screen) -> Viewport {
        Viewport {
            line_count: self.lines@.len() as int,
            height: screen.height - 2,
            current_row: self.current_row as int,
            overflow_top: self.overflow_top as int,
            overflow_bottom: self.overflow_bottom as int,
            row: screen.row as int,
        }
    }

    /// The labels leave room for text, and every line is in order.
    pub open spec fn lines_ok(&self, screen: &Screen) -> bool {
        &&& self.spec_label_width() < screen.width
        &&& forall|i: int|
            0 <= i < self.lines@.len() ==> line_ok(
                #[trigger] self.lines@[i],
                screen.width as int,
                self.spec_label_width(),
            )
    }

    /// The document is in order on `screen`: it has a line, its viewport
    /// is well-formed, every line is balanced behind a label of the
    /// common width, and the cursor stands in the current line.
    pub open spec fn wf(&self, screen: &Screen) -> bool {
        &&& self.viewport(screen).wf()
        &&& self.lines_ok(screen)
        &&& self.lines@[self.current_row - 1].wf(screen)
    }

    /// The field of the current line as it stands on `screen`.
    pub open spec fn current_field(&self, screen: &Screen) -> Field {
        self.lines@[self.current_row - 1].on(screen)
    }

    /// The place in the document where the cursor stands.
    pub open spec fn position(&self, screen: &Screen) -> (int, int) {
        (self.overflow_top + screen.row, self.current_field(screen).cursor() + 1)
    }

    /// The mode, the components and the status bar are those of
    /// `before`.
    pub open spec fn same_session(&self, before: &Editor) -> bool {
        &&& self.mode == before.mode
        &&& self.components == before.components
        &&& self.dashboard == before.dashboard
    }

    /// Nothing but the fields of the lines differs between `self` and
    /// `before`: there are as many lines, and each has kept what
    /// `EditorLine::same_but_field` names.
    pub open spec fn same_lines_but_fields(&self, before: &Editor) -> bool {
        &&& self.lines@.len() == before.lines@.len()
        &&& forall|i: int|
            0 <= i < self.lines@.len() ==> (#[trigger] self.lines@[i]).same_but_field(
                &before.lines@[i],
            )
    }

    /// There are as many lines as in `before`, each with the placeholder
    /// and the mark of the active line that it has there.
    pub open spec fn same_marks(&self, before: &Editor) -> bool {
        &&& self.lines@.len() == before.lines@.len()
        &&& forall|i: int|
            0 <= i < self.lines@.len() ==> {
                &&& (#[trigger] self.lines@[i]).text_area.placeholder
                    == before.lines@[i].text_area.placeholder
                &&& self.lines@[i].is_active == before.lines@[i].is_active
            }
    }

    /// `drawn` is what the line with index `index` shows on `screen`: its
    /// number behind a label of the common width, the text of its
    /// window, and its mark as the active line.
    pub open spec fn draws_line(&self, drawn: &RenderedLine, index: int, screen: &Screen) -> bool {
        let line = self.lines@[index];
        &&& drawn.label@ == label_text((index + 1) as nat, self.spec_label_width() as nat)
        &&& drawn.label@.len() == self.spec_label_width()
        &&& drawn.text.text@ == drawn_text(line.on(screen), line.text_area.placeholder@)
        &&& drawn.text.text@.len() == screen.width - self.spec_label_width() - 1
        &&& drawn.text.dimmed == (line.text().len() == 0 && line.text_area.placeholder@.len() > 0)
        &&& drawn.is_active == line.is_active
    }

    /// Every line that is shown on `screen` remembers its number and the
    /// common width of the labels, and its text starts behind a label of
    /// that width.
    pub open spec fn labels_cached(&self, screen: &Screen) -> bool {
        forall|i: int|
            self.overflow_top <= i < self.lines@.len() - self.overflow_bottom ==> {
                &&& (#[trigger] self.lines@[i]).cached_index == i + 1
                &&& self.lines@[i].cached_label_width == self.spec_label_width()
                &&& self.lines@[i].text_area.margin_left == self.spec_label_width()
            }
    }

    /// `page` is what the document shows on `screen`: the lines from the
    /// first that is not scrolled out to the last, each with its number
    /// behind a label of the common width and with the text of its
    /// window; and the count of the rows below them.
    pub open spec fn draws(&self, page: &RenderedPage, screen: &Screen) -> bool {
        &&& page.label_width == self.spec_label_width()
        &&& page.lines@.len() == self.viewport(screen).visible_count()
        &&& page.blank_rows == screen.height - 2 - page.lines@.len()
        &&& forall|j: int|
            0 <= j < page.lines@.len() ==> self.draws_line(
                &(#[trigger] page.lines@[j]),
                self.overflow_top + j,
                screen,
            )
    }

    /// The column of the hardware cursor after a move up or down: the
    /// same column where there is no line to move to; else the same
    /// column, or the end of the line reached where that line is shorter.
    pub open spec fn col_after_vertical(&self, dir: Direction, screen: &Screen) -> int {
        let target = if dir == Direction::Up {
            self.viewport(screen).up()
        } else {
            self.viewport(screen).down()
        };
        if target.current_row == self.current_row {
            screen.col as int
        } else {
            snapped_col(
                screen.col as int,
                self.spec_label_width(),
                self.text()[target.current_row - 1].len() as int,
            )
        }
    }

    /// There are as many lines as in `before`, and every line but the one
    /// with index `index` is as it is there.
    pub open spec fn same_lines_except(&self, before: &Editor, index: int) -> bool {
        &&& self.lines@.len() == before.lines@.len()
        &&& forall|i: int|
            0 <= i < self.lines@.len() && i != index ==> (#[trigger] self.lines@[i])
                == before.lines@[i]
    }

    /// A step in direction `dir` leaves the current line: the cursor
    /// stands at that end of the line and there is a line beyond it.
    pub open spec fn crosses_line(&self, dir: Direction, screen: &Screen) -> bool {
        if dir == Direction::Left {
            self.current_field(screen).at_area_start() && self.current_row > 1
        } else {
            self.current_field(screen).at_area_end() && self.current_row < self.lines@.len()
        }
    }

    /// The viewport after a step to the left or right: moved up or down
    /// where the step leaves the line, else as it was.
    pub open spec fn horizontal_target(&self, dir: Direction, screen: &Screen) -> Viewport {
        if !self.crosses_line(dir, screen) {
            self.viewport(screen)
        } else if dir == Direction::Left {
            self.viewport(screen).up()
        } else {
            self.viewport(screen).down()
        }
    }

    /// The place where the cursor stands after a step to the left or
    /// right: the end of the line above or the start of the line below
    /// where the step leaves the line; else one column further, or the
    /// same place at either end of the document.
    pub open spec fn position_after_step(&self, dir: Direction, screen: &Screen) -> (int, int) {
        let (row, col) = self.position(screen);
        let len = self.current_field(screen).len();
        if dir == Direction::Left {
            if col > 1 {
                (row, col - 1)
            } else if row > 1 {
                (row - 1, self.text()[row - 2].len() as int + 1)
            } else {
                (row, col)
            }
        } else {
            if col <= len {
                (row, col + 1)
            } else if row < self.lines@.len() {
                (row + 1, 1)
            } else {
                (row, col)
            }
        }
    }

    /// The viewport after a walk to line `row`, one line at a time.
    pub open spec fn jump_target(&self, row: int, screen: &Screen) -> Viewport {
        if row > self.current_row {
            self.viewport(screen).moved(true, (row - self.current_row) as nat)
        } else {
            self.viewport(screen).moved(false, (self.current_row - row) as nat)
        }
    }

    /// `(row, col)` names a place in the text: a line, and a column in it
    /// or just behind its last character.
    pub open spec fn valid_position(text: Seq<Seq<char>>, row: int, col: int) -> bool {
        &&& 1 <= row <= text.len()
        &&& 1 <= col <= text[row - 1].len() + 1
    }

    /// The lines in which `pat` stands, up to line `upto`, each with the
    /// column of the first place where it stands; lines and columns count
    /// from one.
    pub open spec fn matches_upto(text: Seq<Seq<char>>, pat: Seq<char>, upto: int) -> Seq<
        (int, int),
    >
        decreases upto,
    {
        if upto <= 0 {
            Seq::empty()
        } else {
            let earlier = Self::matches_upto(text, pat, upto - 1);
            match first_match(text[upto - 1], pat) {
                Some(at) => earlier.push((upto, at + 1)),
                None => earlier,
            }
        }
    }

    /// The text with line `line` broken in two before index `at`.
    pub open spec fn split_text(text: Seq<Seq<char>>, line: int, at: int) -> Seq<Seq<char>> {
        text.update(line, text[line].take(at)).insert(line + 1, text[line].skip(at))
    }

    /// The text with line `line` added to the end of the line before it.
    pub open spec fn merged_text(text: Seq<Seq<char>>, line: int) -> Seq<Seq<char>> {
        text.update(line - 1, text[line - 1] + text[line]).remove(line)
    }

    /// The current line can be joined to the line above it: there is no
    /// line above, or the two together are short enough for a column
    /// number to name the place behind their last character.
    pub open spec fn join_fits(&self) -> bool {
        self.current_row >= 2 ==> self.text()[self.current_row - 2].len() + self.text()[self.current_row
            - 1].len() < usize::MAX
    }

    /// The document can take one more line on `screen`: the machine can
    /// count it, and the labels still leave room for text.
    pub open spec fn split_fits(&self, screen: &Screen) -> bool {
        &&& self.lines@.len() < usize::MAX
        &&& digit_count((self.lines@.len() + 1) as nat) + 1 < screen.width
    }

    /// Every line keeps one column free at the right edge and is short
    /// enough for a column number to name the place behind its last
    /// character.
    pub open spec fn lines_countable(&self) -> bool {
        forall|i: int|
            0 <= i < self.lines@.len() ==> {
                &&& (#[trigger] self.lines@[i]).text_area.margin_right == 1
                &&& self.lines@[i].text().len() < usize::MAX
            }
    }

    /// The document as it is before it is first shown: the cursor is to
    /// go to the first line, nothing is scrolled out above, below is what
    /// the window cannot hold, and every line is in order.
    pub open spec fn loaded(&self, screen: &Screen) -> bool {
        &&& self.viewport(screen).balanced()
        &&& self.current_row == 1
        &&& self.overflow_top == 0
        &&& self.lines_ok(screen)
    }

    /// The width of the labels at the left side.
    pub fn label_width(&self) -> (width: usize)
        ensures
            width == self.spec_label_width(),
            2 <= width <= 21,
    {
        number_bit_count(self.lines.len()) + 1
    }

    /// The width that the labels have in a document of `value` lines.
    pub fn label_width_with(&self, value: usize) -> (width: usize)
        ensures
            width == digit_count(value as nat) + 1,
            2 <= width <= 21,
    {
        number_bit_count(value) + 1
    }

    /// The number of rows that show lines: all but the title row and the
    /// status row.
    pub fn visible_area_height(&self, screen: &Screen) -> (height: usize)
        requires
            screen.height >= 2,
        ensures
            height == screen.height - 2,
    {
        screen.height() - 2
    }
}

// editing methods
impl Editor {
    /// Moves the cursor to the line above or below. In the top or bottom
    /// row of the window the window moves instead of the cursor. Where the
    /// line reached is shorter than the cursor's column, the cursor moves
    /// left to the line's end.
    pub fn move_cursor_vertical(&mut self, dir: Direction, screen: &mut Screen)
        requires
            old(self).wf(old(screen)),
            dir.is_vertical(),
        ensures
            final(self).same_session(old(self)),
            final(self).lines == old(self).lines,
            final(self).viewport(final(screen)) == if dir == Direction::Up {
                old(self).viewport(old(screen)).up()
            } else {
                old(self).viewport(old(screen)).down()
            },
            final(screen).col == old(self).col_after_vertical(dir, old(screen)),
            final(self).current_row == old(self).current_row ==> *final(screen) == *old(screen),
            final(self).current_row != old(self).current_row ==> final(screen).col == snapped_col(
                old(screen).col as int,
                old(self).spec_label_width(),
                old(self).lines@[final(self).current_row - 1].text().len() as int,
            ),
            *final(screen) == (Screen {
                row: final(screen).row,
                col: final(screen).col,
                ..*old(screen)
            }),
            final(self).wf(final(screen)),
    {
        proof {
            lemma_up_down(self.viewport(screen));
            assert(self.lines.len() == self.lines@.len());
        }
        let cursor_pos = screen.pos_row();
        match dir {
            Direction::Up => {
                let is_at_top_side = cursor_pos == 1;
                let is_at_first_line = self.current_row == 1;
                if is_at_first_line {
                    return ;
                }
                self.current_row = self.current_row - 1;
                if is_at_top_side {
                    self.overflow_top = self.overflow_top - 1;
                    self.overflow_bottom = self.overflow_bottom + 1;
                } else {
                    screen.up(1);
                }
            },
            _ => {
                let is_at_bottom_side = cursor_pos == screen.height() - 2;
                let is_at_last_line = self.current_row == self.lines.len();
                if is_at_last_line {
                    return ;
                }
                self.current_row = self.current_row + 1;
                if is_at_bottom_side {
                    if self.lines.len() == self.visible_area_height(screen) {
                        self.overflow_bottom = self.overflow_bottom + 1;
                    } else {
                        self.overflow_top = self.overflow_top + 1;
                        self.overflow_bottom = self.overflow_bottom - 1;
                    }
                } else {
                    screen.down(1);
                }
            },
        }
        let target_len = self.lines[self.current_row - 1].len();
        let label_width = self.label_width();
        let cursor_pos = screen.pos_col();

        // if target_line is shorter than current line
        if cursor_pos - label_width > target_len {
            screen.left(cursor_pos - label_width - target_len);
        }
    }

    /// Moves the cursor one place to the left or right. From the start of
    /// a line it goes to the end of the line above, from the end of a line
    /// to the start of the line below.
    pub fn move_cursor_horizontal(&mut self, dir: Direction, screen: &mut Screen)
        requires
            old(self).wf(old(screen)),
            dir.is_horizontal(),
        ensures
            final(self).same_session(old(self)),
            final(self).wf(final(screen)),
            final(self).text() == old(self).text(),
            final(self).same_lines_but_fields(old(self)),
            final(self).viewport(final(screen)) == old(self).horizontal_target(dir, old(screen)),
            final(self).position(final(screen)) == old(self).position_after_step(dir, old(screen)),
            final(self).same_lines_except(old(self), final(self).current_row - 1),
            !old(self).crosses_line(dir, old(screen)) ==> final(self).current_field(final(screen))
                == old(self).current_field(old(screen)).step(dir),
            *final(screen) == (Screen {
                row: final(screen).row,
                col: final(screen).col,
                ..*old(screen)
            }),
    {
        let label_width = self.label_width();
        let row = self.current_row - 1;
        proof {
            lemma_up_down(self.viewport(screen));
            lemma_step(self.current_field(screen), dir);
            crate::editor::text_area::model::lemma_area_bounds(self.current_field(screen));
        }
        let at_edge = match dir {
            Direction::Left => self.lines[row].is_at_line_start(screen),
            _ => self.lines[row].is_at_line_end(screen),
        };
        if at_edge {
            let has_neighbour = match dir {
                Direction::Left => self.current_row > 1,
                _ => self.current_row < self.lines.len(),
            };
            if has_neighbour {
                match dir {
                    Direction::Left => {
                        self.move_cursor_vertical(Direction::Up, screen);
                    },
                    _ => {
                        self.move_cursor_vertical(Direction::Down, screen);
                    },
                }
                let row = self.current_row - 1;
                let ghost before = self.lines@[row as int];
                proof {
                    lemma_refreshed(before.on(screen));
                    lemma_at_start_at_end(before.on(screen));
                }
                match dir {
                    Direction::Left => {
                        self.lines[row].move_cursor_to_end(label_width, screen);
                    },
                    _ => {
                        self.lines[row].move_cursor_to_start(label_width, screen);
                    },
                }
                assert(self.text() =~= old(self).text());
            }
            return ;
        }
        self.lines[row].move_cursor_horizontal(dir, screen);
        assert(self.text() =~= old(self).text());
    }

    /// Lets every line start behind a label of `label_width` columns and
    /// sets its scroll state anew.
    fn relabel_all(&mut self, label_width: usize, screen: &Screen)
        requires
            label_width < screen.width,
            old(self).lines_countable(),
        ensures
            final(self).same_session(old(self)),
            final(self).current_row == old(self).current_row,
            final(self).overflow_top == old(self).overflow_top,
            final(self).overflow_bottom == old(self).overflow_bottom,
            final(self).same_lines_but_fields(old(self)),
            final(self).text() == old(self).text(),
            forall|i: int|
                0 <= i < old(self).lines@.len() ==> {
                    &&& line_ok(
                        #[trigger] final(self).lines@[i],
                        screen.width as int,
                        label_width as int,
                    )
                    &&& final(self).lines@[i].on(screen) == old(self).lines@[i].relabelled(
                        label_width,
                        screen,
                    )
                },
    {
        let mut i: usize = 0;
        while i < self.lines.len()
            invariant
                i <= self.lines@.len(),
                label_width < screen.width,
                self.lines@.len() == old(self).lines@.len(),
                self.current_row == old(self).current_row,
                self.overflow_top == old(self).overflow_top,
                self.overflow_bottom == old(self).overflow_bottom,
                self.same_session(old(self)),
                old(self).lines_countable(),
                forall|j: int| i <= j < self.lines@.len() ==> self.lines@[j] == old(self).lines@[j],
                forall|j: int|
                    0 <= j < i ==> {
                        &&& line_ok(
                            #[trigger] self.lines@[j],
                            screen.width as int,
                            label_width as int,
                        )
                        &&& self.lines@[j].on(screen) == old(self).lines@[j].relabelled(
                            label_width,
                            screen,
                        )
                        &&& self.lines@[j].same_but_field(&old(self).lines@[j])
                    },
            decreases self.lines@.len() - i,
        {
            self.lines[i].update_label_width(label_width, screen);
            i = i + 1;
        }
        assert(self.text() =~= old(self).text());
    }

    /// Cuts the current line off at the cursor and hands back a new line
    /// that holds what was cut off, with the cursor at its start and a
    /// label of `label_width` columns.
    fn take_line_tail(&mut self, label_width: usize, screen: &mut Screen) -> (new_line:
        EditorLine)
        requires
            old(self).wf(old(screen)),
            label_width < old(screen).width,
        ensures
            final(self).same_session(old(self)),
            final(self).lines@.len() == old(self).lines@.len(),
            final(self).current_row == old(self).current_row,
            final(self).overflow_top == old(self).overflow_top,
            final(self).overflow_bottom == old(self).overflow_bottom,
            forall|i: int|
                0 <= i < old(self).lines@.len() && i != old(self).current_row - 1
                    ==> final(self).lines@[i] == old(self).lines@[i],
            final(self).lines@[old(self).current_row - 1].text() == old(self).text()[old(
                self,
            ).current_row - 1].take(old(self).current_field(old(screen)).cursor()),
            line_ok(
                final(self).lines@[old(self).current_row - 1],
                old(screen).width as int,
                old(self).spec_label_width(),
            ),
            new_line.text() == old(self).text()[old(self).current_row - 1].skip(
                old(self).current_field(old(screen)).cursor(),
            ),
            new_line.text().len() < usize::MAX,
            new_line.wf(final(screen)),
            new_line.text_area.margin_left == label_width,
            new_line.on(final(screen)).cursor() == 0,
            *final(screen) == (Screen { col: final(screen).col, ..*old(screen) }),
    {
        let row = self.current_row - 1;
        let ghost cursor = self.current_field(screen).cursor();
        proof {
            lemma_truncated(self.current_field(screen));
            crate::editor::text_area::model::lemma_area_bounds(self.current_field(screen));
        }
        let is_at_line_end = self.lines[row].is_at_line_end(screen);
        let mut new_line = EditorLine::new(label_width, false);
        proof {
            lemma_with_content(new_line.on(screen), Seq::empty());
        }
        if !is_at_line_end {
            // when input Enter, if cursor is not at line end,
            // truncate current line and push truncated string
            // into the new line.
            let truncated_str = self.lines[row].truncate(screen);
            new_line.push_str(truncated_str.as_str(), screen);
            assert(new_line.text() =~= old(self).text()[row as int].skip(cursor));
        } else {
            assert(old(self).text()[row as int].take(cursor) =~= old(self).text()[row as int]);
            assert(new_line.text() =~= old(self).text()[row as int].skip(cursor));
        }
        new_line.move_cursor_to_start(label_width, screen);
        new_line
    }

    /// Breaks the current line in two at the cursor and puts the cursor at
    /// the start of the new line, which takes what stood behind the
    /// cursor. The window moves down where the document no longer fits.
    pub fn insert_line(&mut self, screen: &mut Screen) -> (page: RenderedPage)
        requires
            old(self).wf(old(screen)),
            old(self).lines@.len() < usize::MAX,
            digit_count((old(self).lines@.len() + 1) as nat) + 1 < old(screen).width,
        ensures
            final(self).same_session(old(self)),
            final(self).wf(final(screen)),
            final(self).text() == Self::split_text(
                old(self).text(),
                old(self).current_row - 1,
                old(self).current_field(old(screen)).cursor(),
            ),
            final(self).viewport(final(screen)) == old(self).viewport(old(screen)).line_added(),
            final(self).current_field(final(screen)).cursor() == 0,
            *final(screen) == (Screen {
                row: final(screen).row,
                col: final(screen).col,
                ..*old(screen)
            }),
            final(self).draws(&page, final(screen)),
            final(self).labels_cached(final(screen)),
    {
        self.break_line(screen);
        self.render_all(screen)
    }

    /// Breaks the current line in two at the cursor, as `insert_line` does,
    /// without drawing.
    fn break_line(&mut self, screen: &mut Screen)
        requires
            old(self).wf(old(screen)),
            old(self).lines@.len() < usize::MAX,
            digit_count((old(self).lines@.len() + 1) as nat) + 1 < old(screen).width,
        ensures
            final(self).same_session(old(self)),
            final(self).wf(final(screen)),
            final(self).text() == Self::split_text(
                old(self).text(),
                old(self).current_row - 1,
                old(self).current_field(old(screen)).cursor(),
            ),
            final(self).viewport(final(screen)) == old(self).viewport(old(screen)).line_added(),
            final(self).current_field(final(screen)).cursor() == 0,
            *final(screen) == (Screen {
                row: final(screen).row,
                col: final(screen).col,
                ..*old(screen)
            }),
    {
        let old_label_width = self.label_width();
        let label_width = self.label_width_with(self.lines.len() + 1);
        let ghost row = self.current_row - 1;
        let ghost cursor = self.current_field(screen).cursor();
        proof {
            lemma_line_added(self.viewport(screen));
        }
        let new_line = self.take_line_tail(label_width, screen);

        // insert new line
        let insert_pos = screen.pos_row() + self.overflow_top;
        let ghost new_line_spec = new_line;
        let ghost lines_before = self.lines@;
        self.lines.insert(insert_pos, new_line);

        self.current_row = self.current_row + 1;
        // scroll
        if self.lines.len() > self.visible_area_height(screen) {
            self.overflow_top = self.overflow_top + 1;
        } else {
            screen.down(1);
        }
        assert(self.lines@ == lines_before.insert(row + 1, new_line_spec));
        assert(self.text() =~= Self::split_text(old(self).text(), row, cursor)) by {
            let goal = Self::split_text(old(self).text(), row, cursor);
            assert(self.text().len() == goal.len());
            assert forall|i: int| 0 <= i < self.text().len() implies self.text()[i] == goal[i] by {
                if i <= row {
                    assert(self.lines@[i] == lines_before[i]);
                } else if i > row + 1 {
                    assert(self.lines@[i] == lines_before[i - 1]);
                }
            }
        }
        assert(self.lines_countable()) by {
            assert forall|i: int| 0 <= i < self.lines@.len() implies {
                &&& (#[trigger] self.lines@[i]).text_area.margin_right == 1
                &&& self.lines@[i].text().len() < usize::MAX
            } by {
                if i <= row {
                    assert(self.lines@[i] == lines_before[i]);
                    assert(line_ok(
                        lines_before[i],
                        screen.width as int,
                        old(self).spec_label_width(),
                    ));
                } else if i > row + 1 {
                    assert(self.lines@[i] == lines_before[i - 1]);
                    assert(line_ok(
                        lines_before[i - 1],
                        screen.width as int,
                        old(self).spec_label_width(),
                    ));
                }
            }
        }

        if label_width != old_label_width {
            self.relabel_all(label_width, screen);
            proof {
                lemma_refreshed(new_line_spec.on(screen));
            }
        } else {
            assert(self.lines_ok(screen)) by {
                assert forall|i: int| 0 <= i < self.lines@.len() implies line_ok(
                    #[trigger] self.lines@[i],
                    screen.width as int,
                    self.spec_label_width(),
                ) by {
                    if i <= row {
                        assert(self.lines@[i] == lines_before[i]);
                    } else if i > row + 1 {
                        assert(self.lines@[i] == lines_before[i - 1]);
                        assert(line_ok(
                            lines_before[i - 1],
                            screen.width as int,
                            old(self).spec_label_width(),
                        ));
                    }
                }
            }
        }
    }

    /// Takes the current line out of the document, adds its text to the
    /// end of the line before it, and puts the cursor where the two were
    /// joined. The label of the joined line becomes `label_width` columns
    /// wide. The current row and the window are left to the caller.
    fn join_to_previous(&mut self, label_width: usize, screen: &mut Screen)
        requires
            old(self).wf(old(screen)),
            old(self).current_row >= 2,
            label_width < old(screen).width,
            old(self).text()[old(self).current_row - 2].len() + old(self).text()[old(
                self,
            ).current_row - 1].len() < usize::MAX,
        ensures
            final(self).same_session(old(self)),
            final(self).lines@.len() == old(self).lines@.len() - 1,
            final(self).current_row == old(self).current_row,
            final(self).overflow_top == old(self).overflow_top,
            final(self).overflow_bottom == old(self).overflow_bottom,
            forall|i: int|
                0 <= i < old(self).current_row - 2 ==> final(self).lines@[i] == old(self).lines@[i],
            forall|i: int|
                old(self).current_row - 1 <= i < final(self).lines@.len() ==> final(self).lines@[i]
                    == old(self).lines@[i + 1],
            final(self).lines@[old(self).current_row - 2].text() == old(self).text()[old(
                self,
            ).current_row - 2] + old(self).text()[old(self).current_row - 1],
            final(self).lines@[old(self).current_row - 2].wf(final(screen)),
            final(self).lines@[old(self).current_row - 2].text_area.margin_left == label_width,
            final(self).lines@[old(self).current_row - 2].on(final(screen)).cursor() == old(
                self,
            ).text()[old(self).current_row - 2].len(),
            *final(screen) == (Screen { col: final(screen).col, ..*old(screen) }),
    {
        let remove_pos = screen.pos_row() + self.overflow_top - 1;
        let deleted_line = self.lines.remove(remove_pos);
        let prev = remove_pos - 1;
        assert(deleted_line == old(self).lines@[remove_pos as int]);
        assert(self.lines@[prev as int] == old(self).lines@[prev as int]);
        assert(line_ok(old(self).lines@[prev as int], screen.width as int, old(self).spec_label_width()));
        let ghost upper = old(self).text()[prev as int];
        let ghost lower = old(self).text()[remove_pos as int];

        let deleted_content = deleted_line.content();
        self.lines[prev].push_str(deleted_content.as_str(), screen);
        self.lines[prev].move_cursor_to_end(label_width, screen);
        proof {
            lemma_steps(self.lines@[prev as int].on(screen), Direction::Left, lower.len());
        }
        self.lines[prev].move_cursor_by(Direction::Left, deleted_line.len(), screen);
    }

    /// Joins the current line to the line above it and puts the cursor
    /// where the two were joined. In the first line nothing happens.
    /// Hands back what the window then shows; `None` where nothing
    /// happened.
    pub fn delete_line(&mut self, screen: &mut Screen) -> (page: Option<RenderedPage>)
        requires
            old(self).wf(old(screen)),
            old(self).current_row >= 2 ==> old(self).text()[old(self).current_row - 2].len() + old(
                self,
            ).text()[old(self).current_row - 1].len() < usize::MAX,
        ensures
            final(self).same_session(old(self)),
            final(self).wf(final(screen)),
            page.is_some() == (old(self).current_row >= 2),
            page.is_none() ==> {
                &&& final(self).lines == old(self).lines
                &&& final(self).viewport(final(screen)) == old(self).viewport(old(screen))
                &&& *final(screen) == *old(screen)
            },
            page.is_some() ==> {
                &&& final(self).text() == Self::merged_text(
                    old(self).text(),
                    old(self).current_row - 1,
                )
                &&& final(self).viewport(final(screen)) == old(self).viewport(
                    old(screen),
                ).line_removed()
                &&& final(self).current_field(final(screen)).cursor() == old(self).text()[old(
                    self,
                ).current_row - 2].len()
                &&& final(self).draws(&page.unwrap(), final(screen))
                &&& final(self).labels_cached(final(screen))
            },
            *final(screen) == (Screen {
                row: final(screen).row,
                col: final(screen).col,
                ..*old(screen)
            }),
    {
        if self.join_line(screen) {
            Some(self.render_all(screen))
        } else {
            None
        }
    }

    /// Joins the current line to the line above it, as `delete_line` does,
    /// without drawing. Tells whether lines were joined.
    fn join_line(&mut self, screen: &mut Screen) -> (joined: bool)
        requires
            old(self).wf(old(screen)),
            old(self).current_row >= 2 ==> old(self).text()[old(self).current_row - 2].len() + old(
                self,
            ).text()[old(self).current_row - 1].len() < usize::MAX,
        ensures
            final(self).same_session(old(self)),
            final(self).wf(final(screen)),
            joined == (old(self).current_row >= 2),
            !joined ==> {
                &&& final(self).lines == old(self).lines
                &&& final(self).viewport(final(screen)) == old(self).viewport(old(screen))
                &&& *final(screen) == *old(screen)
            },
            joined ==> {
                &&& final(self).text() == Self::merged_text(
                    old(self).text(),
                    old(self).current_row - 1,
                )
                &&& final(self).viewport(final(screen)) == old(self).viewport(
                    old(screen),
                ).line_removed()
                &&& final(self).current_field(final(screen)).cursor() == old(self).text()[old(
                    self,
                ).current_row - 2].len()
            },
            *final(screen) == (Screen {
                row: final(screen).row,
                col: final(screen).col,
                ..*old(screen)
            }),
    {
        if self.current_row == 1 {
            return false;
        }
        let old_label_width = self.label_width();
        let label_width = self.label_width_with(self.lines.len() - 1);
        let ghost row = self.current_row - 1;
        proof {
            lemma_line_removed(self.viewport(screen));
            crate::utils::number_bit_count::lemma_digit_count_monotonic(
                (self.lines@.len() - 1) as nat,
                self.lines@.len(),
            );
        }
        self.join_to_previous(label_width, screen);
        let ghost joined_line = self.lines@[row - 1];

        self.current_row = self.current_row - 1;
        // scroll
        let is_overflowed = self.lines.len() >= self.visible_area_height(screen);
        if is_overflowed && self.overflow_top > 0 {
            self.overflow_top = self.overflow_top - 1;
        } else {
            if self.overflow_bottom > 0 {
                self.overflow_bottom = self.overflow_bottom - 1;
            }
            screen.up(1);
        }
        assert(self.text() =~= Self::merged_text(old(self).text(), row)) by {
            let goal = Self::merged_text(old(self).text(), row);
            assert(self.text().len() == goal.len());
            assert forall|i: int| 0 <= i < self.text().len() implies self.text()[i] == goal[i] by {
                if i < row - 1 {
                    assert(self.lines@[i] == old(self).lines@[i]);
                } else if i >= row {
                    assert(self.lines@[i] == old(self).lines@[i + 1]);
                }
            }
        }
        assert(self.lines_countable()) by {
            assert forall|i: int| 0 <= i < self.lines@.len() implies {
                &&& (#[trigger] self.lines@[i]).text_area.margin_right == 1
                &&& self.lines@[i].text().len() < usize::MAX
            } by {
                if i < row - 1 {
                    assert(self.lines@[i] == old(self).lines@[i]);
                    assert(line_ok(
                        old(self).lines@[i],
                        screen.width as int,
                        old(self).spec_label_width(),
                    ));
                } else if i >= row {
                    assert(self.lines@[i] == old(self).lines@[i + 1]);
                    assert(line_ok(
                        old(self).lines@[i + 1],
                        screen.width as int,
                        old(self).spec_label_width(),
                    ));
                }
            }
        }

        if label_width != old_label_width {
            self.relabel_all(label_width, screen);
            proof {
                lemma_refreshed(joined_line.on(screen));
            }
        } else {
            assert(self.lines_ok(screen)) by {
                assert forall|i: int| 0 <= i < self.lines@.len() implies line_ok(
                    #[trigger] self.lines@[i],
                    screen.width as int,
                    self.spec_label_width(),
                ) by {
                    if i < row - 1 {
                        assert(self.lines@[i] == old(self).lines@[i]);
                        assert(line_ok(
                            old(self).lines@[i],
                            screen.width as int,
                            old(self).spec_label_width(),
                        ));
                    } else if i >= row {
                        assert(self.lines@[i] == old(self).lines@[i + 1]);
                        assert(line_ok(
                            old(self).lines@[i + 1],
                            screen.width as int,
                            old(self).spec_label_width(),
                        ));
                    }
                }
            }
        }
        true
    }

    /// Deletes backward: at the start of a line it joins the line to the
    /// one above; elsewhere it takes out the character left of the cursor.
    /// Tells what was deleted.
    pub fn delete(&mut self, screen: &mut Screen) -> (deleted: Deletion)
        requires
            old(self).wf(old(screen)),
            old(self).current_field(old(screen)).at_area_start() ==> old(self).join_fits(),
        ensures
            final(self).same_session(old(self)),
            final(self).wf(final(screen)),
            old(self).current_field(old(screen)).at_area_start() && old(self).current_row == 1 ==> {
                &&& deleted is Nothing
                &&& final(self).lines == old(self).lines
                &&& final(self).viewport(final(screen)) == old(self).viewport(old(screen))
                &&& *final(screen) == *old(screen)
            },
            old(self).current_field(old(screen)).at_area_start() && old(self).current_row >= 2 ==> {
                &&& deleted is LineBreak
                &&& final(self).text() == Self::merged_text(
                    old(self).text(),
                    old(self).current_row - 1,
                )
                &&& final(self).viewport(final(screen)) == old(self).viewport(
                    old(screen),
                ).line_removed()
                &&& final(self).current_field(final(screen)).cursor() == old(self).text()[old(
                    self,
                ).current_row - 2].len()
                &&& final(self).draws(&deleted->LineBreak_0, final(screen))
                &&& final(self).labels_cached(final(screen))
            },
            !old(self).current_field(old(screen)).at_area_start() ==> {
                &&& deleted == Deletion::Character(
                    old(self).text()[old(self).current_row - 1][old(self).current_field(
                        old(screen),
                    ).cursor() - 1],
                )
                &&& final(self).text() == old(self).text().update(
                    old(self).current_row - 1,
                    old(self).text()[old(self).current_row - 1].remove(
                        old(self).current_field(old(screen)).cursor() - 1,
                    ),
                )
                &&& final(self).viewport(final(screen)) == old(self).viewport(old(screen))
                &&& final(self).current_field(final(screen)) == old(self).current_field(
                    old(screen),
                ).delete()
                &&& final(self).same_lines_but_fields(old(self))
                &&& final(self).same_lines_except(old(self), old(self).current_row - 1)
            },
            *final(screen) == (Screen {
                row: final(screen).row,
                col: final(screen).col,
                ..*old(screen)
            }),
    {
        let row = self.current_row - 1;
        if self.lines[row].is_at_line_start(screen) {
            match self.delete_line(screen) {
                Some(page) => Deletion::LineBreak(page),
                None => Deletion::Nothing,
            }
        } else {
            let removed = self.lines[row].delete_char(screen);
            assert(self.text() =~= old(self).text().update(
                row as int,
                old(self).text()[row as int].remove(
                    old(self).current_field(old(screen)).cursor() - 1,
                ),
            ));
            match removed {
                Some(ch) => Deletion::Character(ch),
                None => Deletion::Nothing,
            }
        }
    }

    /// Draws every line that is shown, each with its number and a label
    /// of the common width, and counts the rows that are left empty. The
    /// lines shown remember their numbers and the width of the label;
    /// nothing else changes, and the lines that are scrolled out do not
    /// change at all.
    pub fn render_all(&mut self, screen: &Screen) -> (page: RenderedPage)
        requires
            old(self).wf(screen),
        ensures
            final(self).same_session(old(self)),
            final(self).wf(screen),
            final(self).text() == old(self).text(),
            final(self).viewport(screen) == old(self).viewport(screen),
            final(self).same_marks(old(self)),
            forall|i: int|
                0 <= i < old(self).lines@.len() ==> (#[trigger] final(self).lines@[i]).on(screen)
                    == old(self).lines@[i].on(screen),
            final(self).labels_cached(screen),
            forall|i: int|
                0 <= i < old(self).lines@.len() && !(old(self).overflow_top <= i < old(
                    self,
                ).lines@.len() - old(self).overflow_bottom) ==> (#[trigger] final(self).lines@[i])
                    == old(self).lines@[i],
            final(self).draws(&page, screen),
    {
        let label_width = self.label_width();
        let line_count = self.lines.len();
        let first = self.overflow_top;
        let last = line_count - self.overflow_bottom;
        let mut lines: Vec<RenderedLine> = Vec::new();
        let mut i: usize = first;
        proof {
            crate::editor::document::viewport::lemma_current_line_visible(self.viewport(screen));
        }
        while i < last
            invariant
                first <= i <= last <= line_count,
                first == old(self).overflow_top,
                line_count == old(self).lines@.len(),
                label_width == old(self).spec_label_width(),
                old(self).wf(screen),
                self.lines@.len() == line_count,
                self.same_session(old(self)),
                self.current_row == old(self).current_row,
                self.overflow_top == old(self).overflow_top,
                self.overflow_bottom == old(self).overflow_bottom,
                forall|j: int|
                    0 <= j < line_count && !(first <= j < i) ==> self.lines@[j] == old(
                        self,
                    ).lines@[j],
                forall|j: int|
                    0 <= j < line_count ==> {
                        &&& (#[trigger] self.lines@[j]).on(screen) == old(self).lines@[j].on(screen)
                        &&& self.lines@[j].text_area.placeholder == old(
                            self,
                        ).lines@[j].text_area.placeholder
                        &&& self.lines@[j].is_active == old(self).lines@[j].is_active
                    },
                forall|j: int|
                    first <= j < i ==> {
                        &&& (#[trigger] self.lines@[j]).cached_index == j + 1
                        &&& self.lines@[j].cached_label_width == label_width
                    },
                lines@.len() == i - first,
                forall|j: int|
                    0 <= j < lines@.len() ==> {
                        &&& (#[trigger] lines@[j]).label@ == label_text(
                            (first + j + 1) as nat,
                            label_width as nat,
                        )
                        &&& lines@[j].label@.len() == label_width
                        &&& lines@[j].text.text@ == drawn_text(
                            old(self).lines@[first + j].on(screen),
                            old(self).lines@[first + j].text_area.placeholder@,
                        )
                        &&& lines@[j].text.text@.len() == screen.width - label_width - 1
                        &&& lines@[j].text.dimmed == (old(self).lines@[first + j].text().len() == 0
                            && old(self).lines@[first + j].text_area.placeholder@.len() > 0)
                        &&& lines@[j].is_active == old(self).lines@[first + j].is_active
                    },
            decreases last - i,
        {
            proof {
                crate::utils::number_bit_count::lemma_digit_count_monotonic(
                    (i + 1) as nat,
                    line_count as nat,
                );
                assert(line_ok(old(self).lines@[i as int], screen.width as int, label_width as int));
                lemma_refreshed(old(self).lines@[i as int].on(screen));
            }
            let drawn = self.lines[i].render(i + 1, label_width, screen);
            lines.push(drawn);
            i = i + 1;
        }
        assert(self.text() =~= old(self).text());
        assert(self.lines_ok(screen)) by {
            assert forall|j: int| 0 <= j < self.lines@.len() implies line_ok(
                #[trigger] self.lines@[j],
                screen.width as int,
                self.spec_label_width(),
            ) by {
                assert(line_ok(old(self).lines@[j], screen.width as int, label_width as int));
            }
        }

        // the unused rows
        let lines_to_render_count = lines.len();
        let visible_area_height = self.visible_area_height(screen);
        let blank_rows = visible_area_height - lines_to_render_count;
        RenderedPage { lines, blank_rows, label_width }
    }

    /// Puts `ch` in at the cursor.
    pub fn insert_char(&mut self, ch: char, screen: &mut Screen)
        requires
            old(self).wf(old(screen)),
            old(self).current_field(old(screen)).len() + 1 < usize::MAX,
        ensures
            final(self).same_session(old(self)),
            final(self).wf(final(screen)),
            final(self).viewport(final(screen)) == old(self).viewport(old(screen)),
            *final(screen) == (Screen { col: final(screen).col, ..*old(screen) }),
            final(self).current_field(final(screen)) == old(self).current_field(
                old(screen),
            ).insert(ch),
            final(self).text() == old(self).text().update(
                old(self).current_row - 1,
                old(self).text()[old(self).current_row - 1].insert(
                    old(self).current_field(old(screen)).cursor(),
                    ch,
                ),
            ),
            final(self).same_lines_but_fields(old(self)),
            final(self).same_lines_except(old(self), old(self).current_row - 1),
    {
        let row = self.current_row - 1;
        self.lines[row].insert_char(ch, screen);
        assert(self.text() =~= old(self).text().update(
            row as int,
            old(self).text()[row as int].insert(old(self).current_field(old(screen)).cursor(), ch),
        ));
    }
}

// cursor position controller
impl Editor {
    /// The place in the document where the cursor stands.
    pub fn cursor_pos(&self, screen: &Screen) -> (pos: EditorCursorPos)
        requires
            self.wf(screen),
        ensures
            (pos.row as int, pos.col as int) == self.position(screen),
            Self::valid_position(self.text(), pos.row as int, pos.col as int),
    {
        let current_line = &self.lines[self.current_row - 1];
        let col = current_line.cursor_pos(screen) + 1;
        let row = screen.pos_row() + self.overflow_top;
        EditorCursorPos { row, col }
    }

    /// Tells whether `pos` names a place in the document.
    pub fn check_cursor_pos(&self, pos: EditorCursorPos) -> (valid: bool)
        ensures
            valid == Self::valid_position(self.text(), pos.row as int, pos.col as int),
    {
        let EditorCursorPos { row, col } = pos;
        if row < 1 || row > self.lines.len() {
            return false;
        }
        let target_len = self.lines[row - 1].len();
        col >= 1 && col - 1 <= target_len
    }

    /// Moves the cursor to `target_pos`, line by line and then column by
    /// column. A target that names no place in the document is refused:
    /// nothing changes. Hands back what the window shows after the move;
    /// `None` where the target was refused.
    pub fn jump_to_target_pos(&mut self, target_pos: EditorCursorPos, screen: &mut Screen) -> (page:
        Option<RenderedPage>)
        requires
            old(self).wf(old(screen)),
        ensures
            final(self).same_session(old(self)),
            final(self).wf(final(screen)),
            page.is_some() == Self::valid_position(
                old(self).text(),
                target_pos.row as int,
                target_pos.col as int,
            ),
            page.is_none() ==> {
                &&& final(self).lines == old(self).lines
                &&& final(self).viewport(final(screen)) == old(self).viewport(old(screen))
                &&& *final(screen) == *old(screen)
            },
            page.is_some() ==> {
                &&& final(self).position(final(screen)) == (
                    target_pos.row as int,
                    target_pos.col as int,
                )
                &&& final(self).viewport(final(screen)) == old(self).jump_target(
                    target_pos.row as int,
                    old(screen),
                )
                &&& final(self).current_field(final(screen)) == old(self).lines@[target_pos.row
                    - 1].on(old(screen)).at_start().steps(
                    Direction::Right,
                    (target_pos.col - 1) as nat,
                )
                &&& final(self).draws(&page.unwrap(), final(screen))
                &&& final(self).labels_cached(final(screen))
            },
            final(self).text() == old(self).text(),
            final(self).same_marks(old(self)),
            *final(screen) == (Screen {
                row: final(screen).row,
                col: final(screen).col,
                ..*old(screen)
            }),
    {
        if self.walk_to(target_pos, screen) {
            Some(self.render_all(screen))
        } else {
            None
        }
    }

    /// Moves the cursor to `target_pos`, as `jump_to_target_pos` does,
    /// without drawing. Tells whether the cursor moved to the target.
    fn walk_to(&mut self, target_pos: EditorCursorPos, screen: &mut Screen) -> (jumped: bool)
        requires
            old(self).wf(old(screen)),
        ensures
            final(self).same_session(old(self)),
            final(self).wf(final(screen)),
            jumped == Self::valid_position(
                old(self).text(),
                target_pos.row as int,
                target_pos.col as int,
            ),
            !jumped ==> {
                &&& final(self).lines == old(self).lines
                &&& final(self).viewport(final(screen)) == old(self).viewport(old(screen))
                &&& *final(screen) == *old(screen)
            },
            jumped ==> {
                &&& final(self).position(final(screen)) == (
                    target_pos.row as int,
                    target_pos.col as int,
                )
                &&& final(self).viewport(final(screen)) == old(self).jump_target(
                    target_pos.row as int,
                    old(screen),
                )
                &&& final(self).current_field(final(screen)) == old(self).lines@[target_pos.row
                    - 1].on(old(screen)).at_start().steps(
                    Direction::Right,
                    (target_pos.col - 1) as nat,
                )
            },
            final(self).text() == old(self).text(),
            final(self).same_marks(old(self)),
            *final(screen) == (Screen {
                row: final(screen).row,
                col: final(screen).col,
                ..*old(screen)
            }),
    {
        if !self.check_cursor_pos(target_pos) {
            return false;
        }
        // move to target row
        let target_row = target_pos.row;
        let down = target_row > self.current_row;
        let diff = if down {
            target_row - self.current_row
        } else {
            self.current_row - target_row
        };
        let dir = if down {
            Direction::Down
        } else {
            Direction::Up
        };
        let mut done: usize = 0;
        while done < diff
            invariant
                done <= diff,
                self.wf(screen),
                self.lines == old(self).lines,
                self.same_session(old(self)),
                self.viewport(screen) == old(self).viewport(old(screen)).moved(down, done as nat),
                1 <= target_row <= self.lines@.len(),
                down ==> dir == Direction::Down && self.current_row + (diff - done) == target_row,
                !down ==> dir == Direction::Up && self.current_row - (diff - done) == target_row,
                *screen == (Screen { row: screen.row, col: screen.col, ..*old(screen) }),
            decreases diff - done,
        {
            proof {
                lemma_up_down(self.viewport(screen));
            }
            self.move_cursor_vertical(dir, screen);
            done = done + 1;
        }

        // move to target col
        let label_width = self.label_width();
        let ghost line = self.lines@[target_row - 1];
        proof {
            lemma_refreshed(line.on(screen));
            lemma_at_start_at_end(line.on(screen));
            lemma_steps(line.on(screen).at_start(), Direction::Right, (target_pos.col - 1) as nat);
        }
        self.lines[target_row - 1].move_cursor_to_start(label_width, screen);
        self.lines[target_row - 1].move_cursor_by(Direction::Right, target_pos.col - 1, screen);
        assert(self.text() =~= old(self).text());
        true
    }
}

// callback resolver methods
impl Editor {
    /// The lines in which `target` stands, each with the place of its
    /// first occurrence in that line; `None` where it stands in no line.
    pub fn search(&self, target: &str) -> (places: Option<Vec<EditorCursorPos>>)
        requires
            forall|i: int| 0 <= i < self.lines@.len() ==> self.text()[i].len() < usize::MAX,
        ensures
            match places {
                None => Self::matches_upto(self.text(), target@, self.lines@.len() as int).len()
                    == 0,
                Some(found) => {
                    &&& found@.len() > 0
                    &&& found@.map_values(|pos: EditorCursorPos| (pos.row as int, pos.col as int))
                        == Self::matches_upto(self.text(), target@, self.lines@.len() as int)
                },
            },
    {
        let pat = chars_of(target);
        let mut result_pos_list: Vec<EditorCursorPos> = Vec::new();
        let mut i: usize = 0;
        assert(result_pos_list@.map_values(|pos: EditorCursorPos| (pos.row as int, pos.col as int))
            =~= Seq::<(int, int)>::empty());
        while i < self.lines.len()
            invariant
                i <= self.lines@.len(),
                pat@ == target@,
                forall|k: int| 0 <= k < self.lines@.len() ==> self.text()[k].len() < usize::MAX,
                result_pos_list@.map_values(|pos: EditorCursorPos| (pos.row as int, pos.col as int))
                    == Self::matches_upto(self.text(), target@, i as int),
            decreases self.lines@.len() - i,
        {
            let ghost before = result_pos_list@.map_values(
                |pos: EditorCursorPos| (pos.row as int, pos.col as int),
            );
            assert(self.text()[i as int] == self.lines@[i as int].text_area.content@);
            match find(&self.lines[i].text_area.content, &pat) {
                Some(pos) => {
                    proof {
                        assert(crate::utils::search::first_match_from(
                            self.text()[i as int],
                            pat@,
                            0,
                        ) == Some(pos as int));
                        lemma_first_match_in_text(self.text()[i as int], pat@, 0, pos as int);
                    }
                    result_pos_list.push(EditorCursorPos { row: i + 1, col: pos + 1 });
                    assert(result_pos_list@.map_values(
                        |pos: EditorCursorPos| (pos.row as int, pos.col as int),
                    ) =~= before.push((i + 1, pos + 1)));
                },
                None => {},
            }
            i = i + 1;
        }
        if result_pos_list.len() == 0 {
            None
        } else {
            Some(result_pos_list)
        }
    }
}

/// Breaking a line in two before index `at` and joining the second of the
/// two to the first gives back the text; and the first of the two is `at`
/// characters long, so that the cursor, which a join puts behind the
/// first line's old end, stands where the line was broken.
pub proof fn lemma_split_then_merge(text: Seq<Seq<char>>, line: int, at: int)
    requires
        0 <= line < text.len(),
        0 <= at <= text[line].len(),
    ensures
        Editor::split_text(text, line, at).len() == text.len() + 1,
        Editor::split_text(text, line, at)[line].len() == at,
        Editor::merged_text(Editor::split_text(text, line, at), line + 1) == text,
{
    let split = Editor::split_text(text, line, at);
    let merged = Editor::merged_text(split, line + 1);
    assert(split[line] == text[line].take(at));
    assert(split[line + 1] == text[line].skip(at));
    assert(text[line].take(at) + text[line].skip(at) =~= text[line]);
    assert(merged =~= text);
}

/// A place that is no place in the text is never reached by a jump: a
/// jump reaches exactly the places with a line of the text as their row
/// and a column in that line, or just behind its end, as their column.
pub proof fn lemma_valid_position(text: Seq<Seq<char>>, row: int, col: int)
    ensures
        row > text.len() ==> !Editor::valid_position(text, row, col),
        1 <= row <= text.len() && col > text[row - 1].len() + 1 ==> !Editor::valid_position(
            text,
            row,
            col,
        ),
        row < 1 || col < 1 ==> !Editor::valid_position(text, row, col),
{
}

/// A first match lies in the text.
pub proof fn lemma_first_match_in_text(text: Seq<char>, pat: Seq<char>, from: int, at: int)
    requires
        crate::utils::search::first_match_from(text, pat, from) == Some(at),
    ensures
        from <= at,
        at + pat.len() <= text.len(),
    decreases text.len() - from + 1,
{
    if !(from < 0 || from + pat.len() > text.len()) && !crate::utils::search::occurs_at(
        text,
        pat,
        from,
    ) {
        lemma_first_match_in_text(text, pat, from + 1, at);
    }
}

// Non-editing methods
impl Editor {
    /// A document without lines, as it is before a file is read or the
    /// first line is made.
    pub fn new() -> (editor: Self)
        ensures
            editor.lines@.len() == 0,
            editor.current_row == 1,
            editor.overflow_top == 0,
            editor.overflow_bottom == 0,
            editor.mode == EditorMode::Normal,
            editor.components.ready(),
            editor.dashboard.state == EditorState::Saved,
            forall|screen: &Screen|
                screen.height >= 3 && screen.width > 2 ==> #[trigger] editor.loaded(screen),
    {
        Self {
            lines: Vec::new(),
            current_row: 1,
            overflow_top: 0,
            overflow_bottom: 0,
            mode: EditorMode::Normal,
            components: EditorComponentManager::new(),
            dashboard: EditorDashboard::new(),
        }
    }

    /// The text `content` can be taken as a document on `screen`: the
    /// labels of its lines leave room for text, and no line is as long as
    /// the machine can count.
    pub open spec fn readable(content: Seq<char>, screen: &Screen) -> bool {
        &&& digit_count(lines_of(content).len()) + 1 < screen.width
        &&& forall|i: int|
            0 <= i < lines_of(content).len() ==> (#[trigger] lines_of(content)[i]).len()
                < usize::MAX
    }

    /// Takes `content`, the text of the file at `path`, as the text of the
    /// document, line by line, and `path` as the path to save to. The
    /// lines that the window cannot hold are scrolled out below. A text
    /// that is not readable on `screen` is refused: the document stays as
    /// it is. Tells whether the text was taken.
    #[verifier::loop_isolation(false)]
    pub fn read_file(&mut self, path: &str, content: &str, screen: &Screen) -> (taken: bool)
        requires
            screen.height >= 3,
            old(self).components.file_saver.comp.text_area.on(screen).fits(),
        ensures
            taken == Self::readable(content@, screen),
            taken ==> {
                &&& final(self).text() == lines_of(content@)
                &&& final(self).overflow_bottom == if lines_of(content@).len() > screen.height
                    - 2 {
                    lines_of(content@).len() - (screen.height - 2)
                } else {
                    old(self).overflow_bottom as int
                }
                &&& final(self).lines_ok(screen)
                &&& old(self).current_row == 1 && old(self).overflow_top == 0 && old(
                    self,
                ).overflow_bottom == 0 ==> final(self).loaded(screen)
            },
            !taken ==> {
                &&& final(self).lines == old(self).lines
                &&& final(self).overflow_bottom == old(self).overflow_bottom
            },
            final(self).current_row == old(self).current_row,
            final(self).overflow_top == old(self).overflow_top,
            final(self).mode == old(self).mode,
            final(self).dashboard == old(self).dashboard,
            final(self).components.file_saver.resolved_path(
                &old(self).components.file_saver,
                path@,
                screen,
            ),
            final(self).components.file_opener == old(self).components.file_opener,
            final(self).components.positioner == old(self).components.positioner,
            final(self).components.finder == old(self).components.finder,
            final(self).components.helper == old(self).components.helper,
            final(self).components.use_line_component == old(self).components.use_line_component,
            final(self).components.use_screen_component == old(
                self,
            ).components.use_screen_component,
    {
        self.components.file_saver.set_path(path, screen);
        let chars = chars_of(content);
        let file_lines = split_lines(&chars);
        let line_count = file_lines.len();
        let visible_area_height = self.visible_area_height(screen);
        let label_width = self.label_width_with(line_count);
        assert(views(file_lines@).len() == file_lines@.len());
        if label_width >= screen.width() {
            return false;
        }
        let mut lines: Vec<EditorLine> = Vec::new();
        let mut i: usize = 0;
        let ghost with_path = *self;
        while i < file_lines.len()
            invariant
                i <= file_lines@.len(),
                line_count == file_lines@.len(),
                views(file_lines@) == lines_of(content@),
                label_width == digit_count(line_count as nat) + 1,
                label_width < screen.width,
                lines@.len() == i,
                *self == with_path,
                forall|k: int|
                    0 <= k < i ==> {
                        &&& (#[trigger] lines@[k]).text() == file_lines@[k]@
                        &&& line_ok(lines@[k], screen.width as int, label_width as int)
                    },
                forall|k: int| 0 <= k < i ==> (#[trigger] lines_of(content@)[k]).len() < usize::MAX,
            decreases file_lines@.len() - i,
        {
            assert(views(file_lines@)[i as int] == file_lines@[i as int]@);
            if file_lines[i].len() == usize::MAX {
                return false;
            }
            let mut new_line = EditorLine::new(label_width, false);
            proof {
                lemma_with_content(new_line.on(screen), file_lines@[i as int]@);
            }
            new_line.push_chars(&file_lines[i], screen);
            assert(new_line.text() =~= file_lines@[i as int]@);
            lines.push(new_line);
            i = i + 1;
        }
        // set `overflow_bottom`
        if line_count > visible_area_height {
            self.overflow_bottom = line_count - visible_area_height;
        }
        self.lines = lines;
        assert(self.text() =~= lines_of(content@)) by {
            assert forall|k: int| 0 <= k < self.text().len() implies self.text()[k] == lines_of(
                content@,
            )[k] by {
                assert(views(file_lines@)[k] == file_lines@[k]@);
            }
        }
        true
    }

    /// Makes the document ready to be shown: a document without lines
    /// gets an empty first line, and the cursor goes to the start of the
    /// first line. Hands back what the window shows.
    pub fn init(&mut self, screen: &mut Screen) -> (page: RenderedPage)
        requires
            old(self).loaded(old(screen)),
            old(screen).height >= 3,
        ensures
            final(self).wf(final(screen)),
            final(self).same_session(old(self)),
            final(self).text() == if old(self).lines@.len() == 0 {
                seq![Seq::<char>::empty()]
            } else {
                old(self).text()
            },
            final(self).position(final(screen)) == (1int, 1int),
            final(self).overflow_top == 0,
            *final(screen) == (Screen { row: 1, col: final(screen).col, ..*old(screen) }),
            final(self).draws(&page, final(screen)),
            final(self).labels_cached(final(screen)),
            old(self).mode == EditorMode::Normal && old(self).components.fits(old(screen))
                ==> final(self).in_order(final(screen)),
    {
        // lines.is_empty() == true -> no file reading
        if self.lines.len() == 0 {
            // `2` here is the width of line label ("1 ") in terminal.
            self.lines.push(EditorLine::new(2, false));
            assert(digit_count(1) == 1);
            assert(self.text() =~= seq![Seq::<char>::empty()]);
        } else {
            assert(self.text() =~= old(self).text());
        }
        // move cursor to start of first line
        screen.move_to_row(1);
        let label_width = self.label_width();
        let ghost first = self.lines@[0];
        proof {
            assert(line_ok(first, screen.width as int, label_width as int));
            lemma_refreshed(first.on(screen));
            lemma_at_start_at_end(first.on(screen));
        }
        self.lines[0].move_cursor_to_start(label_width, screen);
        let ghost text = self.text();
        assert(text =~= if old(self).lines@.len() == 0 {
            seq![Seq::<char>::empty()]
        } else {
            old(self).text()
        });
        self.render_all(screen)
    }

    /// Shows the place of the cursor in the status bar.
    pub fn dashboard_cursor_pos_refresh(&mut self, screen: &mut Screen) -> (drawn:
        RenderedDashboard)
        requires
            old(self).wf(old(screen)),
        ensures
            final(self).lines == old(self).lines,
            final(self).viewport(final(screen)) == old(self).viewport(old(screen)),
            final(self).mode == old(self).mode,
            final(self).components == old(self).components,
            (final(self).dashboard.cursor_pos.row as int, final(self).dashboard.cursor_pos.col as int)
                == old(self).position(old(screen)),
            final(self).dashboard.state == old(self).dashboard.state,
            final(self).dashboard.previous_state == old(self).dashboard.previous_state,
            *final(screen) == *old(screen),
            drawn.cursor_pos@ == crate::editor::dashboard::padded(
                final(self).dashboard.cursor_pos.text(),
            ),
            drawn.state@ == crate::editor::dashboard::padded(old(self).dashboard.state.name()),
    {
        let current_cursor_pos = self.cursor_pos(screen);
        self.dashboard.set_cursor_pos(current_cursor_pos.row, current_cursor_pos.col, screen)
    }

    /// The whole text: the lines with a carriage return and a line feed
    /// between each two.
    pub fn content(&self) -> (text: String)
        ensures
            text@ == joined(self.text()),
    {
        let mut buf: String = String::new();
        let mut i: usize = 0;
        while i < self.lines.len()
            invariant
                i <= self.lines@.len(),
                buf@ == joined(self.text().take(i as int)),
            decreases self.lines@.len() - i,
        {
            let ghost before = buf@;
            if i > 0 {
                push_char(&mut buf, '\r');
                push_char(&mut buf, '\n');
            }
            let line = &self.lines[i].text_area.content;
            let mut k: usize = 0;
            while k < line.len()
                invariant
                    k <= line@.len(),
                    buf@ == before + (if i > 0 {
                        seq!['\r', '\n']
                    } else {
                        Seq::<char>::empty()
                    }) + line@.take(k as int),
                decreases line@.len() - k,
            {
                push_char(&mut buf, line[k]);
                k = k + 1;
                assert(line@.take(k as int) =~= line@.take(k - 1).push(line@[k - 1]));
            }
            proof {
                assert(line@.take(line@.len() as int) =~= line@);
                let now = self.text().take(i + 1);
                assert(now.drop_last() =~= self.text().take(i as int));
                assert(now.last() == line@);
                if i == 0 {
                    assert(buf@ =~= line@);
                }
            }
            i = i + 1;
        }
        assert(self.text().take(self.lines@.len() as int) =~= self.text());
        buf
    }
}

} // verus!
