//! The single-line text field with a horizontally scrolling window.

pub mod model;

pub use model::Field;

use vstd::prelude::*;
use crate::editor::direction::Direction;
use crate::editor::key::KeyCode;
use crate::editor::text_area::model::{
    lemma_at_start_at_end,
    lemma_delete,
    lemma_insert,
    lemma_step,
    lemma_steps,
    lemma_steps_add,
};
use crate::utils::screen::Screen;
use crate::utils::text::{append_chars, append_repeated, chars_of, copy_range, repeated, string_of};

verus! {

/// Whether a character is alphabetic, as `char::is_alphabetic` of the
/// standard library tells.
pub uninterp spec fn is_alphabetic(c: char) -> bool;

/// Asks `char::is_alphabetic`. The answer depends on the character alone;
/// the contract gives it the name `is_alphabetic` and says no more of it.
#[verifier::external_body]
fn char_is_alphabetic(c: char) -> (b: bool)
    ensures
        b == is_alphabetic(c),
{
    c.is_alphabetic()
}

/// The number of flags that are set at the start of `flags`, up to the
/// first that is not.
pub open spec fn run(flags: Seq<bool>) -> nat
    decreases flags.len(),
{
    if flags.len() == 0 || !flags[0] {
        0
    } else {
        1 + run(flags.drop_first())
    }
}

/// The number of flags that are set at the end of `flags`, back to the
/// last that is not.
pub open spec fn run_back(flags: Seq<bool>) -> nat
    decreases flags.len(),
{
    if flags.len() == 0 || !flags.last() {
        0
    } else {
        1 + run_back(flags.drop_last())
    }
}

/// For each character of `s`, whether it is alphabetic.
pub open spec fn alphabetic_flags(s: Seq<char>) -> Seq<bool> {
    Seq::new(s.len(), |i: int| is_alphabetic(s[i]))
}

/// The number of alphabetic characters at the start of `s`, up to the first
/// that is not.
pub open spec fn word_run(s: Seq<char>) -> nat {
    run(alphabetic_flags(s))
}

/// The number of alphabetic characters at the end of `s`, back to the last
/// that is not.
pub open spec fn word_run_back(s: Seq<char>) -> nat {
    run_back(alphabetic_flags(s))
}

/// Counts the flags that are set next to index `from` in the direction
/// `dir`, up to the first that is not set.
pub fn count_run(flags: &Vec<bool>, from: usize, dir: Direction) -> (count: usize)
    requires
        from <= flags@.len(),
        dir.is_horizontal(),
    ensures
        dir == Direction::Left ==> count == run_back(flags@.take(from as int)),
        dir == Direction::Right ==> count == run(flags@.skip(from as int)),
        dir == Direction::Left ==> count <= from,
        dir == Direction::Right ==> count <= flags@.len() - from,
{
    match dir {
        Direction::Left => {
            let mut i: usize = from;
            while i > 0 && flags[i - 1]
                invariant
                    i <= from <= flags@.len(),
                    run_back(flags@.take(from as int)) == (from - i) + run_back(
                        flags@.take(i as int),
                    ),
                decreases i,
            {
                assert(flags@.take(i as int).drop_last() =~= flags@.take(i - 1));
                i = i - 1;
            }
            from - i
        },
        _ => {
            let mut i: usize = from;
            while i < flags.len() && flags[i]
                invariant
                    from <= i <= flags@.len(),
                    run(flags@.skip(from as int)) == (i - from) + run(flags@.skip(i as int)),
                decreases flags@.len() - i,
            {
                assert(flags@.skip(i as int).drop_first() =~= flags@.skip(i + 1));
                i = i + 1;
            }
            i - from
        },
    }
}

/// How far a jump to the word's edge goes: over the alphabetic characters
/// that lie next to the cursor in that direction, and over one character
/// where there is none, unless the text ends there.
pub open spec fn word_displacement(f: Field, dir: Direction) -> nat {
    let run = if dir == Direction::Left {
        word_run_back(f.content.take(f.cursor()))
    } else {
        word_run(f.content.skip(f.cursor()))
    };
    let at_bound = if dir == Direction::Left {
        f.at_area_start()
    } else {
        f.at_area_end()
    };
    if run == 0 && !at_bound {
        1
    } else {
        run
    }
}

/// What a field shows in its window, before padding: the placeholder, cut
/// to the window, where the text is empty and a placeholder is set; else
/// the visible part of the text.
pub open spec fn shown(f: Field, placeholder: Seq<char>) -> Seq<char> {
    if f.len() == 0 && placeholder.len() > 0 {
        if placeholder.len() > f.visible_width() {
            placeholder.take(f.visible_width())
        } else {
            placeholder
        }
    } else {
        f.visible()
    }
}

/// What a field draws in its window: what it shows, then spaces up to the
/// window's width, which wipe out what stood there before.
pub open spec fn drawn_text(f: Field, placeholder: Seq<char>) -> Seq<char> {
    shown(f, placeholder) + repeated(
        ' ',
        (f.visible_width() - shown(f, placeholder).len()) as nat,
    )
}

/// A single-line text field. Its text may be wider than the window in which
/// it is shown; then part of it is scrolled out of view to the left, to the
/// right, or both.
///
/// The field does not store where in its text the cursor stands. That place
/// follows from the column of the hardware cursor, held in the `Screen`
/// that the operations take.
pub struct TextArea {
    pub content: Vec<char>,
    pub placeholder: Vec<char>,
    pub margin_left: usize,
    pub margin_right: usize,
    pub overflow_left: usize,
    pub overflow_right: usize,
}

#[derive(Clone, Copy, Debug, PartialEq, Eq, Structural)]
pub struct TextAreaStateLeft {
    pub is_at_left_side: bool,
    pub is_at_area_start: bool,
}

#[derive(Clone, Copy, Debug, PartialEq, Eq, Structural)]
pub struct TextAreaStateRight {
    pub is_at_right_side: bool,
    pub is_at_area_end: bool,
}

/// What a field draws: the text for the columns of its window, already
/// padded with spaces to the window's width, and whether it is the
/// placeholder, which is drawn dimmed.
pub struct RenderedText {
    pub text: String,
    pub dimmed: bool,
}

// state calculating methods
impl TextArea {
    /// The field as it stands on `screen`.
    pub open spec fn on(&self, screen: &Screen) -> Field {
        Field {
            content: self.content@,
            margin_left: self.margin_left as int,
            margin_right: self.margin_right as int,
            overflow_left: self.overflow_left as int,
            overflow_right: self.overflow_right as int,
            width: screen.width as int,
            col: screen.col as int,
        }
    }

    /// What is shown and what is scrolled out make up the text.
    pub open spec fn balanced(&self, screen: &Screen) -> bool {
        self.on(screen).balanced()
    }

    /// The field is balanced and the cursor stands in it.
    pub open spec fn wf(&self, screen: &Screen) -> bool {
        self.on(screen).wf()
    }

    /// The text is no longer than the machine can count.
    pub proof fn lemma_len_bounded(&self)
        ensures
            self.content@.len() <= usize::MAX,
    {
        assert(self.content.len() == self.content@.len());
    }

    pub fn is_at_left_side(&self, screen: &Screen) -> (at_side: bool)
        ensures
            at_side == self.on(screen).at_left_side(),
    {
        screen.col == self.margin_left
    }

    pub fn is_at_right_side(&self, screen: &Screen) -> (at_side: bool)
        requires
            self.margin_right <= screen.width,
        ensures
            at_side == self.on(screen).at_right_side(),
    {
        screen.col == screen.width - self.margin_right
    }

    pub fn state_left(&self, screen: &Screen) -> (state: TextAreaStateLeft)
        ensures
            state.is_at_left_side == self.on(screen).at_left_side(),
            state.is_at_area_start == self.on(screen).at_area_start(),
    {
        let is_at_left_side = self.is_at_left_side(screen);
        let is_at_area_start = is_at_left_side && self.overflow_left == 0;
        TextAreaStateLeft { is_at_left_side, is_at_area_start }
    }

    pub fn state_right(&self, screen: &Screen) -> (state: TextAreaStateRight)
        requires
            self.margin_right <= screen.width,
            self.overflow_left <= self.content@.len(),
        ensures
            state.is_at_right_side == self.on(screen).at_right_side(),
            state.is_at_area_end == self.on(screen).at_area_end(),
    {
        let is_at_right_side = self.is_at_right_side(screen);
        let is_at_area_end = screen.col >= self.margin_left && (screen.col - self.margin_left
            == self.len() || screen.col - self.margin_left == self.len() - self.overflow_left);
        TextAreaStateRight { is_at_right_side, is_at_area_end }
    }
}

// editing methods
impl TextArea {
    /// The number of columns in which text is shown.
    pub fn visible_area_width(&self, screen: &Screen) -> (width: usize)
        requires
            self.margin_left + self.margin_right <= screen.width,
        ensures
            width == self.on(screen).visible_width(),
    {
        screen.width - self.margin_left - self.margin_right
    }

    /// The keys that edit a field: backspace, the horizontal arrows and the
    /// characters.
    pub fn is_editing_key(key: KeyCode) -> (editing: bool)
        ensures
            editing == (key == KeyCode::Backspace || key == KeyCode::Left || key == KeyCode::Right
                || key is Char),
    {
        match key {
            KeyCode::Backspace | KeyCode::Left | KeyCode::Right | KeyCode::Char(_) => true,
            _ => false,
        }
    }

    /// Counts the alphabetic characters that lie next to index `from` in
    /// the direction `dir`, up to the first that is not alphabetic.
    pub fn continuous_word_count(chars: &Vec<char>, from: usize, dir: Direction) -> (count: usize)
        requires
            from <= chars@.len(),
            dir.is_horizontal(),
        ensures
            dir == Direction::Left ==> count == word_run_back(chars@.take(from as int)),
            dir == Direction::Right ==> count == word_run(chars@.skip(from as int)),
            dir == Direction::Left ==> count <= from,
            dir == Direction::Right ==> count <= chars@.len() - from,
    {
        let mut flags: Vec<bool> = Vec::new();
        let mut i: usize = 0;
        while i < chars.len()
            invariant
                i <= chars@.len(),
                flags@ == alphabetic_flags(chars@.take(i as int)),
            decreases chars@.len() - i,
        {
            flags.push(char_is_alphabetic(chars[i]));
            i = i + 1;
            assert(flags@ =~= alphabetic_flags(chars@.take(i as int)));
        }
        assert(chars@.take(chars@.len() as int) =~= chars@);
        assert(flags@.take(from as int) =~= alphabetic_flags(chars@.take(from as int)));
        assert(flags@.skip(from as int) =~= alphabetic_flags(chars@.skip(from as int)));
        count_run(&flags, from, dir)
    }

    /// Sets the scroll state anew for the text as it is now.
    pub fn overflow_refresh(&mut self, screen: &Screen)
        requires
            old(self).on(screen).fits(),
        ensures
            final(self).on(screen) == old(self).on(screen).refreshed(),
            final(self).balanced(screen),
            final(self).placeholder == old(self).placeholder,
    {
        let visible_area_width = self.visible_area_width(screen);
        if self.len() > visible_area_width {
            let excess: usize = self.len() - visible_area_width;
            if self.overflow_right > excess {
                self.overflow_right = excess;
            }
            self.overflow_left = excess - self.overflow_right;
        } else {
            self.overflow_left = 0;
            self.overflow_right = 0;
        }
    }

    /// Shows the start of the text and puts the cursor before its first
    /// character. Tells whether the field was drawn anew.
    pub fn move_cursor_to_start(&mut self, rerender: bool, screen: &mut Screen) -> (rendered: bool)
        requires
            old(self).balanced(old(screen)),
        ensures
            final(self).on(final(screen)) == old(self).on(old(screen)).at_start(),
            *final(screen) == (Screen { col: final(screen).col, ..*old(screen) }),
            final(self).placeholder == old(self).placeholder,
            final(self).wf(final(screen)),
            rendered == (rerender && old(self).content@.len() >= old(self).on(
                old(screen),
            ).visible_width()),
    {
        proof {
            lemma_at_start_at_end(self.on(screen));
        }
        let mut rendered = false;
        if self.len() >= self.visible_area_width(screen) {
            self.overflow_right = self.overflow_right + self.overflow_left;
            self.overflow_left = 0;
            rendered = rerender;
        }
        screen.move_to_col(self.margin_left);
        rendered
    }

    /// Shows the end of the text and puts the cursor behind its last
    /// character. Tells whether the field was drawn anew.
    pub fn move_cursor_to_end(&mut self, rerender: bool, screen: &mut Screen) -> (rendered: bool)
        requires
            old(self).balanced(old(screen)),
        ensures
            final(self).on(final(screen)) == old(self).on(old(screen)).at_end(),
            *final(screen) == (Screen { col: final(screen).col, ..*old(screen) }),
            final(self).placeholder == old(self).placeholder,
            final(self).wf(final(screen)),
            rendered == (rerender && old(self).content@.len() >= old(self).on(
                old(screen),
            ).visible_width()),
    {
        proof {
            lemma_at_start_at_end(self.on(screen));
        }
        let mut rendered = false;
        if self.len() >= self.visible_area_width(screen) {
            screen.move_to_col(screen.width - self.margin_right);
            self.overflow_left = self.overflow_left + self.overflow_right;
            self.overflow_right = 0;
            rendered = rerender;
        } else {
            let line_end_pos = self.margin_left + self.len();
            screen.move_to_col(line_end_pos);
        }
        rendered
    }

    /// Moves the cursor one place to the left or to the right. Tells
    /// whether the field was drawn anew, which is when the window moved.
    pub fn move_cursor_horizontal(&mut self, dir: Direction, rerender: bool, screen: &mut Screen) -> (rendered: bool)
        requires
            old(self).wf(old(screen)),
            dir.is_horizontal(),
        ensures
            final(self).on(final(screen)) == old(self).on(old(screen)).step(dir),
            *final(screen) == (Screen { col: final(screen).col, ..*old(screen) }),
            final(self).placeholder == old(self).placeholder,
            final(self).wf(final(screen)),
            rendered == (rerender && old(self).on(old(screen)).step_scrolls(dir)),
    {
        proof {
            lemma_step(self.on(screen), dir);
            self.lemma_len_bounded();
        }
        match dir {
            Direction::Left => {
                let state = self.state_left(screen);
                if state.is_at_area_start {
                    return false;
                }
                if state.is_at_left_side {
                    self.overflow_left = self.overflow_left - 1;
                    self.overflow_right = self.overflow_right + 1;
                } else {
                    screen.move_to_col(screen.col - 1);
                    return false;
                }
            },
            _ => {
                let state = self.state_right(screen);
                if state.is_at_area_end {
                    return false;
                }
                if state.is_at_right_side {
                    self.overflow_right = self.overflow_right - 1;
                    self.overflow_left = self.overflow_left + 1;
                } else {
                    screen.move_to_col(screen.col + 1);
                    return false;
                }
            },
        }
        rerender
    }

    /// Moves the cursor `count` places to the left or right, one place at
    /// a time and without drawing.
    pub fn move_cursor_by(&mut self, dir: Direction, count: usize, screen: &mut Screen)
        requires
            old(self).wf(old(screen)),
            dir.is_horizontal(),
        ensures
            final(self).on(final(screen)) == old(self).on(old(screen)).steps(dir, count as nat),
            *final(screen) == (Screen { col: final(screen).col, ..*old(screen) }),
            final(self).placeholder == old(self).placeholder,
            final(self).wf(final(screen)),
    {
        let ghost start = self.on(screen);
        let mut done: usize = 0;
        while done < count
            invariant
                done <= count,
                dir.is_horizontal(),
                start.wf(),
                self.on(screen) == start.steps(dir, done as nat),
                *screen == (Screen { col: screen.col, ..*old(screen) }),
                self.placeholder == old(self).placeholder,
            decreases count - done,
        {
            proof {
                lemma_steps(start, dir, done as nat);
                lemma_steps_add(start, dir, done as nat, 1);
                let here = start.steps(dir, done as nat);
                assert(here.steps(dir, 1) == here.step(dir)) by {
                    reveal_with_fuel(Field::steps, 2);
                }
            }
            self.move_cursor_horizontal(dir, false, screen);
            done = done + 1;
        }
        proof {
            lemma_steps(start, dir, count as nat);
        }
    }

    /// Moves the cursor over the word that lies next to it in the given
    /// direction, or over one character where no word lies there. Tells
    /// whether the field was drawn anew.
    pub fn jump_to_word_edge(&mut self, dir: Direction, rerender: bool, screen: &mut Screen) -> (rendered: bool)
        requires
            old(self).wf(old(screen)),
            dir.is_horizontal(),
        ensures
            final(self).on(final(screen)) == old(self).on(old(screen)).steps(
                dir,
                word_displacement(old(self).on(old(screen)), dir),
            ),
            *final(screen) == (Screen { col: final(screen).col, ..*old(screen) }),
            final(self).placeholder == old(self).placeholder,
            final(self).wf(final(screen)),
            rendered == rerender,
    {
        let ghost start = self.on(screen);
        proof {
            self.lemma_len_bounded();
        }
        let cursor_pos = self.cursor_pos(screen);
        let mut displacement = Self::continuous_word_count(&self.content, cursor_pos, dir);

        // when displacement is 0 and cursor is not at left and right end
        if displacement == 0 {
            let at_bound = match dir {
                Direction::Left => self.state_left(screen).is_at_area_start,
                _ => self.state_right(screen).is_at_area_end,
            };
            if !at_bound {
                displacement = 1;
            }
        }
        assert(displacement == word_displacement(start, dir));

        self.move_cursor_by(dir, displacement, screen);
        rerender
    }
}

impl TextArea {
    pub fn new(margin_left: usize, margin_right: usize) -> (area: Self)
        ensures
            area.content@ == Seq::<char>::empty(),
            area.placeholder@ == Seq::<char>::empty(),
            area.margin_left == margin_left,
            area.margin_right == margin_right,
            area.overflow_left == 0,
            area.overflow_right == 0,
    {
        Self {
            content: Vec::new(),
            placeholder: Vec::new(),
            overflow_left: 0,
            overflow_right: 0,
            margin_left,
            margin_right,
        }
    }

    /// What the field draws in its window. Drawing moves neither the
    /// cursor nor the window.
    pub fn render(&self, screen: &Screen) -> (drawn: RenderedText)
        requires
            self.balanced(screen),
        ensures
            drawn.text@ == drawn_text(self.on(screen), self.placeholder@),
            drawn.text@.len() == self.on(screen).visible_width(),
            drawn.dimmed == (self.content@.len() == 0 && self.placeholder@.len() > 0),
    {
        let visible_area_width = self.visible_area_width(screen);
        let dimmed = self.len() == 0 && self.placeholder.len() > 0;
        let mut text: Vec<char> = if dimmed {
            if self.placeholder.len() > visible_area_width {
                copy_range(&self.placeholder, 0, visible_area_width)
            } else {
                copy_range(&self.placeholder, 0, self.placeholder.len())
            }
        } else if self.len() > visible_area_width {
            copy_range(&self.content, self.overflow_left, self.len() - self.overflow_right)
        } else {
            copy_range(&self.content, 0, self.len())
        };
        assert(text@ =~= shown(self.on(screen), self.placeholder@));
        let remain_area_width = visible_area_width - text.len();
        append_repeated(&mut text, ' ', remain_area_width);
        RenderedText { text: string_of(&text), dimmed }
    }

    /// Puts `ch` in at the cursor. Tells whether the field was drawn anew.
    pub fn insert_char(&mut self, ch: char, rerender: bool, screen: &mut Screen) -> (rendered: bool)
        requires
            old(self).wf(old(screen)),
        ensures
            final(self).on(final(screen)) == old(self).on(old(screen)).insert(ch),
            *final(screen) == (Screen { col: final(screen).col, ..*old(screen) }),
            final(self).placeholder == old(self).placeholder,
            final(self).wf(final(screen)),
            rendered == rerender,
    {
        proof {
            lemma_insert(self.on(screen), ch);
            self.lemma_len_bounded();
        }
        let insert_pos = self.cursor_pos(screen);
        self.content.insert(insert_pos, ch);
        assert(self.content.len() == self.content@.len());

        if self.content.len() > self.visible_area_width(screen) {
            self.overflow_left = self.overflow_left + 1;
        } else {
            screen.move_to_col(screen.col + 1);
        }
        rerender
    }

    /// Takes out the character left of the cursor and hands it back; at
    /// the start of the text nothing happens and nothing is handed back.
    /// The field is drawn anew when `rerender` is set and a character
    /// left.
    pub fn delete_char(&mut self, rerender: bool, screen: &mut Screen) -> (removed: Option<char>)
        requires
            old(self).wf(old(screen)),
        ensures
            final(self).on(final(screen)) == old(self).on(old(screen)).delete(),
            removed == old(self).on(old(screen)).deleted(),
            *final(screen) == (Screen { col: final(screen).col, ..*old(screen) }),
            final(self).placeholder == old(self).placeholder,
            final(self).wf(final(screen)),
    {
        proof {
            lemma_delete(self.on(screen));
            self.lemma_len_bounded();
        }
        if self.state_left(screen).is_at_area_start {
            return None;
        }
        let remove_pos = self.cursor_pos(screen) - 1;
        let removed_ch = self.content.remove(remove_pos);

        if self.content.len() >= self.visible_area_width(screen) && self.overflow_left > 0 {
            self.overflow_left = self.overflow_left - 1;
        } else {
            if self.overflow_right > 0 {
                self.overflow_right = self.overflow_right - 1;
            }
            screen.move_to_col(screen.col - 1);
        }
        Some(removed_ch)
    }

    /// Adds `str` at the end of the text.
    pub fn push_str(&mut self, str: &str, screen: &Screen)
        requires
            old(self).on(screen).fits(),
        ensures
            final(self).on(screen) == old(self).on(screen).pushed(str@),
            final(self).balanced(screen),
            final(self).placeholder == old(self).placeholder,
    {
        let tail = chars_of(str);
        self.push_chars(&tail, screen);
    }

    /// Adds the characters of `tail` at the end of the text.
    pub fn push_chars(&mut self, tail: &Vec<char>, screen: &Screen)
        requires
            old(self).on(screen).fits(),
        ensures
            final(self).on(screen) == old(self).on(screen).pushed(tail@),
            final(self).balanced(screen),
            final(self).placeholder == old(self).placeholder,
    {
        append_chars(&mut self.content, tail);
        self.overflow_refresh(screen);
    }

    /// Replaces the text by `str`.
    pub fn set_content(&mut self, str: &str, screen: &Screen)
        requires
            old(self).on(screen).fits(),
        ensures
            final(self).on(screen) == old(self).on(screen).with_content(str@),
            final(self).balanced(screen),
            final(self).placeholder == old(self).placeholder,
    {
        self.content = chars_of(str);
        self.overflow_refresh(screen);
    }

    /// Sets the text that is shown, dimmed, while the field is empty.
    pub fn set_placeholder(&mut self, str: &str)
        ensures
            final(self).placeholder@ == str@,
            final(self).content == old(self).content,
            final(self).margin_left == old(self).margin_left,
            final(self).margin_right == old(self).margin_right,
            final(self).overflow_left == old(self).overflow_left,
            final(self).overflow_right == old(self).overflow_right,
    {
        self.placeholder = chars_of(str);
    }

    /// Cuts the text off at the cursor and hands back what was cut off.
    pub fn truncate(&mut self, screen: &Screen) -> (rest: String)
        requires
            old(self).wf(screen),
        ensures
            final(self).on(screen) == old(self).on(screen).truncated(),
            rest@ == old(self).on(screen).cut_off(),
            final(self).balanced(screen),
            final(self).placeholder == old(self).placeholder,
    {
        proof {
            self.lemma_len_bounded();
        }
        let truncate_pos = self.cursor_pos(screen);
        let rest = copy_range(&self.content, truncate_pos, self.len());
        self.content.truncate(truncate_pos);
        assert(self.content@ =~= old(self).content@.take(truncate_pos as int));
        assert(rest@ =~= old(self).content@.skip(truncate_pos as int));
        self.overflow_refresh(screen);
        string_of(&rest)
    }

    /// The index in the text before which the cursor stands.
    pub fn cursor_pos(&self, screen: &Screen) -> (pos: usize)
        requires
            0 <= self.on(screen).cursor() <= usize::MAX,
        ensures
            pos == self.on(screen).cursor(),
    {
        if screen.col >= self.margin_left {
            (screen.col - self.margin_left) + self.overflow_left
        } else {
            self.overflow_left - (self.margin_left - screen.col)
        }
    }

    pub fn content(&self) -> (text: String)
        ensures
            text@ == self.content@,
    {
        string_of(&self.content)
    }

    /// Empties the text.
    pub fn clear(&mut self)
        ensures
            final(self).content@ == Seq::<char>::empty(),
            final(self).overflow_left == 0,
            final(self).overflow_right == 0,
            final(self).placeholder == old(self).placeholder,
            final(self).margin_left == old(self).margin_left,
            final(self).margin_right == old(self).margin_right,
            forall|screen: &Screen| #[trigger]
                final(self).on(screen) == old(self).on(screen).cleared(),
    {
        self.overflow_left = 0;
        self.overflow_right = 0;
        self.content.clear();
    }

    pub fn len(&self) -> (len: usize)
        ensures
            len == self.content@.len(),
    {
        self.content.len()
    }
}

} // verus!
