use vstd::prelude::*;
use crate::editor::direction::Direction;
use crate::editor::document::line::{label_text, lemma_label_text_len};
use crate::editor::text_area::model::{
    lemma_at_start_at_end,
    lemma_delete,
    lemma_insert,
    lemma_step,
    Field,
};
use crate::utils::number_bit_count::{digit_count, number_bit_count};
use crate::utils::screen::Screen;
use crate::utils::text::{
    append_chars,
    append_repeated,
    chars_of,
    copy_range,
    decimal_chars,
    string_of,
};

verus! {

/// A numbered line that holds its own text and scroll state. Its text
/// starts behind the label and leaves the last column of the terminal
/// free.
#[derive(Debug)]
pub struct Line {
    pub content: Vec<char>,
    pub overflow_left: usize,
    pub overflow_right: usize,
    pub index_cached: usize,
    pub label_width_cached: usize,
}

#[derive(Clone, Copy, Debug, PartialEq, Eq, Structural)]
pub struct LineStateLeft {
    pub is_at_left_end: bool,
    pub is_at_line_start: bool,
}

#[derive(Clone, Copy, Debug, PartialEq, Eq, Structural)]
pub struct LineStateRight {
    pub is_at_right_end: bool,
    pub is_at_line_end: bool,
}

/// What a line draws from the left edge of its row on: the label, then the
/// part of the text that is shown.
pub struct RenderedRow {
    pub label: String,
    pub text: String,
}

// state calculating methods
impl Line {
    /// The line as a field on `screen`: behind its label, with one column
    /// free at the right edge.
    pub open spec fn on(&self, screen: &Screen) -> Field {
        Field {
            content: self.content@,
            margin_left: self.label_width_cached as int,
            margin_right: 1,
            overflow_left: self.overflow_left as int,
            overflow_right: self.overflow_right as int,
            width: screen.width as int,
            col: screen.col as int,
        }
    }

    /// What is shown and what is scrolled out make up the text.
    pub open spec fn balanced(&self, screen: &Screen) -> bool {
        self.on(screen).balanced()
    }

    /// The line is balanced and the cursor stands in it.
    pub open spec fn wf(&self, screen: &Screen) -> bool {
        self.on(screen).wf()
    }

    /// The line's field on `screen` once its label is `label_width`
    /// columns wide and its scroll state is set anew.
    pub open spec fn relabelled(&self, label_width: usize, screen: &Screen) -> Field {
        (Field { margin_left: label_width as int, ..self.on(screen) }).refreshed()
    }

    pub fn is_at_left_end(&self, screen: &Screen) -> (at_end: bool)
        ensures
            at_end == self.on(screen).at_left_side(),
    {
        screen.col == self.label_width_cached
    }

    pub fn is_at_right_end(&self, screen: &Screen) -> (at_end: bool)
        requires
            screen.width >= 1,
        ensures
            at_end == self.on(screen).at_right_side(),
    {
        screen.col == screen.width - 1
    }

    pub fn state_left(&self, screen: &Screen) -> (state: LineStateLeft)
        ensures
            state.is_at_left_end == self.on(screen).at_left_side(),
            state.is_at_line_start == self.on(screen).at_area_start(),
    {
        let is_at_left_end = self.is_at_left_end(screen);
        let is_at_line_start = is_at_left_end && self.overflow_left == 0;
        LineStateLeft { is_at_left_end, is_at_line_start }
    }

    pub fn state_right(&self, screen: &Screen) -> (state: LineStateRight)
        requires
            screen.width >= 1,
            self.overflow_left <= self.content@.len(),
        ensures
            state.is_at_right_end == self.on(screen).at_right_side(),
            state.is_at_line_end == self.on(screen).at_area_end(),
    {
        let is_at_right_end = self.is_at_right_end(screen);
        let is_at_line_end = screen.col >= self.label_width_cached && (screen.col
            - self.label_width_cached == self.len() || screen.col - self.label_width_cached
            == self.len() - self.overflow_left);
        LineStateRight { is_at_right_end, is_at_line_end }
    }
}

// editing methods
impl Line {
    /// The number of columns in which text is shown.
    pub fn visible_area_width(&self, screen: &Screen) -> (width: usize)
        requires
            self.label_width_cached < screen.width,
        ensures
            width == self.on(screen).visible_width(),
    {
        screen.width - self.label_width_cached - 1
    }

    /// Sets the scroll state anew for the text as it is now.
    pub fn overflow_refresh(&mut self, screen: &Screen)
        requires
            old(self).label_width_cached < screen.width,
        ensures
            final(self).on(screen) == old(self).on(screen).refreshed(),
            final(self).balanced(screen),
            final(self).index_cached == old(self).index_cached,
            final(self).label_width_cached == old(self).label_width_cached,
    {
        let visible_area_width = self.visible_area_width(screen);
        if self.len() > visible_area_width {
            let excess: usize = self.len() - visible_area_width;
            if self.overflow_right > excess {
                self.overflow_right = excess;
            }
            self.overflow_left = excess - self.overflow_right;
        } else {
            self.overflow_left = 0;
            self.overflow_right = 0;
        }
    }

    /// Gives the label a new width, shows the start of the text and puts
    /// the cursor before its first character. Tells whether the line was
    /// drawn anew.
    pub fn move_cursor_to_start(&mut self, label_width: usize, screen: &mut Screen) -> (rendered:
        bool)
        requires
            label_width < old(screen).width,
        ensures
            final(self).on(final(screen)) == old(self).relabelled(
                label_width,
                old(screen),
            ).at_start(),
            *final(screen) == (Screen { col: final(screen).col, ..*old(screen) }),
            final(self).wf(final(screen)),
            final(self).index_cached == old(self).index_cached,
            final(self).label_width_cached == label_width,
            rendered == (old(self).content@.len() >= old(screen).width - label_width - 1),
    {
        self.label_width_cached = label_width;
        self.overflow_refresh(screen);
        proof {
            lemma_at_start_at_end(self.on(screen));
        }
        let mut rendered = false;
        if self.len() >= self.visible_area_width(screen) {
            self.overflow_right = self.overflow_right + self.overflow_left;
            self.overflow_left = 0;
            rendered = true;
        }
        screen.move_to_col(label_width);
        rendered
    }

    /// Gives the label a new width, shows the end of the text and puts
    /// the cursor behind its last character. Tells whether the line was
    /// drawn anew.
    pub fn move_cursor_to_end(&mut self, label_width: usize, screen: &mut Screen) -> (rendered: bool)
        requires
            label_width < old(screen).width,
        ensures
            final(self).on(final(screen)) == old(self).relabelled(label_width, old(screen)).at_end(),
            *final(screen) == (Screen { col: final(screen).col, ..*old(screen) }),
            final(self).wf(final(screen)),
            final(self).index_cached == old(self).index_cached,
            final(self).label_width_cached == label_width,
            rendered == (old(self).content@.len() >= old(screen).width - label_width - 1),
    {
        self.label_width_cached = label_width;
        self.overflow_refresh(screen);
        proof {
            lemma_at_start_at_end(self.on(screen));
        }
        if self.len() >= self.visible_area_width(screen) {
            screen.move_to_col(screen.width - 1);
            self.overflow_left = self.overflow_left + self.overflow_right;
            self.overflow_right = 0;
            true
        } else {
            let line_end_pos = label_width + self.len();
            screen.move_to_col(line_end_pos);
            false
        }
    }

    /// Moves the cursor one place to the left or right. At the start of
    /// the text a move to the left does nothing, and so does a move to
    /// the right at its end. Tells whether the line was drawn anew, which
    /// is when the window moved.
    pub fn move_cursor_horizontal(&mut self, dir: Direction, screen: &mut Screen) -> (rendered: bool)
        requires
            old(self).wf(old(screen)),
            dir.is_horizontal(),
        ensures
            final(self).on(final(screen)) == old(self).on(old(screen)).step(dir),
            dir == Direction::Left && old(self).on(old(screen)).at_area_start() ==> *final(self)
                == *old(self) && *final(screen) == *old(screen),
            dir == Direction::Right && old(self).on(old(screen)).at_area_end() ==> *final(self)
                == *old(self) && *final(screen) == *old(screen),
            *final(screen) == (Screen { col: final(screen).col, ..*old(screen) }),
            final(self).wf(final(screen)),
            final(self).index_cached == old(self).index_cached,
            final(self).label_width_cached == old(self).label_width_cached,
            rendered == old(self).on(old(screen)).step_scrolls(dir),
    {
        proof {
            lemma_step(self.on(screen), dir);
            assert(self.content.len() == self.content@.len());
        }
        match dir {
            Direction::Left => {
                let state = self.state_left(screen);
                if state.is_at_line_start {
                    return false;
                }
                if state.is_at_left_end {
                    self.overflow_left = self.overflow_left - 1;
                    self.overflow_right = self.overflow_right + 1;
                } else {
                    screen.move_to_col(screen.col - 1);
                    return false;  // skip rerender
                }
            },
            _ => {
                let state = self.state_right(screen);
                if state.is_at_line_end {
                    return false;
                }
                if state.is_at_right_end {
                    self.overflow_right = self.overflow_right - 1;
                    self.overflow_left = self.overflow_left + 1;
                } else {
                    screen.move_to_col(screen.col + 1);
                    return false;  // skip rerender
                }
            },
        }
        true
    }

    /// Puts `ch` in at the cursor. The line is drawn anew.
    pub fn insert_char(&mut self, ch: char, screen: &mut Screen)
        requires
            old(self).wf(old(screen)),
        ensures
            final(self).on(final(screen)) == old(self).on(old(screen)).insert(ch),
            *final(screen) == (Screen { col: final(screen).col, ..*old(screen) }),
            final(self).wf(final(screen)),
            final(self).index_cached == old(self).index_cached,
            final(self).label_width_cached == old(self).label_width_cached,
    {
        proof {
            lemma_insert(self.on(screen), ch);
            crate::editor::text_area::model::lemma_area_bounds(self.on(screen));
            assert(self.content.len() == self.content@.len());
        }
        let cursor_pos = screen.pos_col();
        let LineStateRight { is_at_line_end, .. } = self.state_right(screen);

        if is_at_line_end {
            self.content.push(ch);
            assert(self.content@ =~= old(self).content@.insert(
                old(self).on(old(screen)).cursor(),
                ch,
            ));
        } else {
            let insert_pos = cursor_pos - self.label_width_cached + self.overflow_left;
            self.content.insert(insert_pos, ch);
        }

        assert(self.content.len() == self.content@.len());
        if self.content.len() > self.visible_area_width(screen) {
            self.overflow_left = self.overflow_left + 1;
        } else {
            screen.move_to_col(screen.col + 1);
        }
    }

    /// Takes out the character left of the cursor and hands it back; at
    /// the start of the text nothing is deleted and nothing is handed
    /// back. The line is drawn anew when a character left.
    pub fn delete_char(&mut self, screen: &mut Screen) -> (removed: Option<char>)
        requires
            old(self).wf(old(screen)),
        ensures
            final(self).on(final(screen)) == old(self).on(old(screen)).delete(),
            removed == old(self).on(old(screen)).deleted(),
            old(self).on(old(screen)).at_area_start() ==> *final(self) == *old(self)
                && *final(screen) == *old(screen),
            *final(screen) == (Screen { col: final(screen).col, ..*old(screen) }),
            final(self).wf(final(screen)),
            final(self).index_cached == old(self).index_cached,
            final(self).label_width_cached == old(self).label_width_cached,
    {
        proof {
            lemma_delete(self.on(screen));
            crate::editor::text_area::model::lemma_area_bounds(self.on(screen));
            assert(self.content.len() == self.content@.len());
        }
        if self.state_left(screen).is_at_line_start {
            return None;
        }
        let LineStateRight { is_at_line_end, .. } = self.state_right(screen);

        let removed = if is_at_line_end {
            let last = self.content.pop();
            assert(self.content@ =~= old(self).content@.remove(
                old(self).on(old(screen)).cursor() - 1,
            ));
            last
        } else {
            let remove_pos = screen.pos_col() - self.label_width_cached + self.overflow_left - 1;
            Some(self.content.remove(remove_pos))
        };

        if self.content.len() >= self.visible_area_width(screen) && self.overflow_left > 0 {
            self.overflow_left = self.overflow_left - 1;
        } else {
            if self.overflow_right > 0 {
                self.overflow_right = self.overflow_right - 1;
            }
            screen.move_to_col(screen.col - 1);
        }
        removed
    }
}

impl Line {
    /// An empty line with the number `index` and a label of `label_width`
    /// columns.
    pub fn new(index: usize, label_width: usize) -> (line: Self)
        ensures
            line.content@.len() == 0,
            line.overflow_left == 0,
            line.overflow_right == 0,
            line.index_cached == index,
            line.label_width_cached == label_width,
    {
        Self {
            content: Vec::new(),
            overflow_left: 0,
            overflow_right: 0,
            index_cached: index,
            label_width_cached: label_width,
        }
    }

    /// Draws the line as number `index` with a label of `label_width`
    /// columns. The line remembers both, and its scroll state is set anew
    /// for the window that the label leaves.
    pub fn render(&mut self, index: usize, label_width: usize, screen: &Screen) -> (drawn:
        RenderedRow)
        requires
            label_width < screen.width,
            label_width >= digit_count(index as nat),
        ensures
            final(self).on(screen) == old(self).relabelled(label_width, screen),
            final(self).balanced(screen),
            final(self).index_cached == index,
            final(self).label_width_cached == label_width,
            drawn.label@ == label_text(index as nat, label_width as nat),
            drawn.label@.len() == label_width,
            drawn.text@ == final(self).on(screen).visible(),
    {
        self.index_cached = index;
        self.label_width_cached = label_width;
        self.overflow_refresh(screen);

        // display label
        proof {
            lemma_label_text_len(index as nat, label_width as nat);
        }
        let index_width = number_bit_count(index);
        let space_width = label_width - index_width;
        let mut line_label = decimal_chars(index);
        append_repeated(&mut line_label, ' ', space_width);

        // display content
        let visible_area = screen.width - label_width - 1;
        let rendered_content = if self.len() > visible_area {
            copy_range(&self.content, self.overflow_left, self.len() - self.overflow_right)
        } else {
            copy_range(&self.content, 0, self.len())
        };
        assert(rendered_content@ =~= self.on(screen).visible());
        RenderedRow { label: string_of(&line_label), text: string_of(&rendered_content) }
    }

    /// Adds `str` at the end of the text.
    pub fn push_str(&mut self, str: &str, screen: &Screen)
        requires
            old(self).label_width_cached < screen.width,
        ensures
            final(self).on(screen) == old(self).on(screen).pushed(str@),
            final(self).balanced(screen),
            final(self).index_cached == old(self).index_cached,
            final(self).label_width_cached == old(self).label_width_cached,
    {
        let tail = chars_of(str);
        append_chars(&mut self.content, &tail);
        self.overflow_refresh(screen);
    }

    /// Cuts the text off at the cursor and hands back what was cut off.
    pub fn truncate(&mut self, screen: &Screen) -> (rest: String)
        requires
            old(self).wf(screen),
        ensures
            final(self).on(screen) == old(self).on(screen).truncated(),
            rest@ == old(self).on(screen).cut_off(),
            final(self).balanced(screen),
            final(self).index_cached == old(self).index_cached,
            final(self).label_width_cached == old(self).label_width_cached,
    {
        assert(self.content.len() == self.content@.len());
        let truncate_pos = screen.pos_col() - self.label_width_cached + self.overflow_left;
        let rest = copy_range(&self.content, truncate_pos, self.len());
        self.content.truncate(truncate_pos);
        assert(self.content@ =~= old(self).content@.take(truncate_pos as int));
        assert(rest@ =~= old(self).content@.skip(truncate_pos as int));
        self.overflow_refresh(screen);
        string_of(&rest)
    }

    pub fn len(&self) -> (len: usize)
        ensures
            len == self.content@.len(),
    {
        self.content.len()
    }
}

} // verus!
