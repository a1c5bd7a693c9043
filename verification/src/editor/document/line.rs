use vstd::prelude::*;
use crate::editor::direction::Direction;
use crate::editor::text_area::model::{lemma_refreshed, Field};
use crate::editor::text_area::{drawn_text, word_displacement, RenderedText, TextArea};
use crate::utils::number_bit_count::{digit_count, number_bit_count};
use crate::utils::screen::Screen;
use crate::utils::search::{
    find_from,
    lemma_occurrences_none,
    lemma_occurrences_skip_to_first,
    occurrences_from,
};
use crate::utils::text::{append_repeated, chars_of, decimal, decimal_chars, repeated, string_of};

verus! {

/// The label of a line: its number, then spaces up to the label's width.
pub open spec fn label_text(index: nat, label_width: nat) -> Seq<char> {
    decimal(index) + repeated(' ', (label_width - digit_count(index)) as nat)
}

/// The label of a line is as wide as asked for.
pub proof fn lemma_label_text_len(index: nat, label_width: nat)
    requires
        label_width >= digit_count(index),
    ensures
        label_text(index, label_width).len() == label_width,
{
    crate::utils::text::lemma_decimal_len(index);
}

/// One line of the document: a text field behind a numbered label.
pub struct EditorLine {
    pub text_area: TextArea,
    pub is_active: bool,
    pub cached_index: usize,
    pub cached_label_width: usize,
}

/// What a line draws: its label, whether the label is drawn as that of the
/// active line, and the text of its field.
pub struct RenderedLine {
    pub label: String,
    pub is_active: bool,
    pub text: RenderedText,
}

// state methods
impl EditorLine {
    /// The line's text.
    pub open spec fn text(&self) -> Seq<char> {
        self.text_area.content@
    }

    /// The line's field as it stands on `screen`.
    pub open spec fn on(&self, screen: &Screen) -> Field {
        self.text_area.on(screen)
    }

    /// The label has room for the line's number and one space behind it.
    pub open spec fn label_fits(&self) -> bool {
        self.cached_label_width >= digit_count(self.cached_index as nat) + 1
    }

    /// The field keeps one column free at the right edge and is balanced.
    pub open spec fn balanced(&self, screen: &Screen) -> bool {
        self.text_area.margin_right == 1 && self.text_area.balanced(screen)
    }

    /// The line is balanced and the cursor stands in it.
    pub open spec fn wf(&self, screen: &Screen) -> bool {
        self.text_area.margin_right == 1 && self.text_area.wf(screen)
    }

    pub fn is_at_line_start(&self, screen: &Screen) -> (at_start: bool)
        ensures
            at_start == self.on(screen).at_area_start(),
    {
        self.text_area.state_left(screen).is_at_area_start
    }

    pub fn is_at_line_end(&self, screen: &Screen) -> (at_end: bool)
        requires
            self.text_area.margin_right <= screen.width,
            self.text_area.overflow_left <= self.text().len(),
        ensures
            at_end == self.on(screen).at_area_end(),
    {
        self.text_area.state_right(screen).is_at_area_end
    }
}

// editing methods
impl EditorLine {
    /// Gives the label a new width and puts the cursor before the first
    /// character. Tells whether the line was drawn anew.
    pub fn move_cursor_to_start(&mut self, label_width: usize, screen: &mut Screen) -> (rendered: bool)
        requires
            old(self).text_area.margin_right == 1,
            label_width < old(screen).width,
        ensures
            final(self).on(final(screen)) == old(self).relabelled(
                label_width,
                old(screen),
            ).at_start(),
            *final(screen) == (Screen { col: final(screen).col, ..*old(screen) }),
            final(self).wf(final(screen)),
            final(self).on(final(screen)).cursor() == 0,
            final(self).same_but_field(old(self)),
            rendered == (old(self).text().len() >= old(screen).width - label_width - 1),
    {
        self.update_label_width(label_width, screen);
        proof {
            crate::editor::text_area::model::lemma_at_start_at_end(self.on(screen));
        }
        self.text_area.move_cursor_to_start(true, screen)
    }

    /// Gives the label a new width and puts the cursor behind the last
    /// character. Tells whether the line was drawn anew.
    pub fn move_cursor_to_end(&mut self, label_width: usize, screen: &mut Screen) -> (rendered: bool)
        requires
            old(self).text_area.margin_right == 1,
            label_width < old(screen).width,
        ensures
            final(self).on(final(screen)) == old(self).relabelled(label_width, old(screen)).at_end(),
            *final(screen) == (Screen { col: final(screen).col, ..*old(screen) }),
            final(self).wf(final(screen)),
            final(self).on(final(screen)).cursor() == old(self).text().len(),
            final(self).same_but_field(old(self)),
            rendered == (old(self).text().len() >= old(screen).width - label_width - 1),
    {
        self.update_label_width(label_width, screen);
        proof {
            crate::editor::text_area::model::lemma_at_start_at_end(self.on(screen));
        }
        self.text_area.move_cursor_to_end(true, screen)
    }

    /// Moves the cursor one place to the left or right. Tells whether the
    /// line was drawn anew.
    pub fn move_cursor_horizontal(&mut self, dir: Direction, screen: &mut Screen) -> (rendered: bool)
        requires
            old(self).wf(old(screen)),
            dir.is_horizontal(),
        ensures
            final(self).on(final(screen)) == old(self).on(old(screen)).step(dir),
            *final(screen) == (Screen { col: final(screen).col, ..*old(screen) }),
            final(self).wf(final(screen)),
            final(self).same_but_field(old(self)),
            rendered == old(self).on(old(screen)).step_scrolls(dir),
    {
        self.text_area.move_cursor_horizontal(dir, true, screen)
    }

    /// Moves the cursor `count` places to the left or right, without
    /// drawing.
    pub fn move_cursor_by(&mut self, dir: Direction, count: usize, screen: &mut Screen)
        requires
            old(self).wf(old(screen)),
            dir.is_horizontal(),
        ensures
            final(self).on(final(screen)) == old(self).on(old(screen)).steps(dir, count as nat),
            *final(screen) == (Screen { col: final(screen).col, ..*old(screen) }),
            final(self).wf(final(screen)),
            final(self).same_but_field(old(self)),
    {
        proof {
            crate::editor::text_area::model::lemma_steps(self.on(screen), dir, count as nat);
        }
        self.text_area.move_cursor_by(dir, count, screen);
    }

    /// Moves the cursor to the edge of the word next to it. The line is
    /// drawn anew.
    pub fn jump_to_word_edge(&mut self, dir: Direction, screen: &mut Screen) -> (rendered: bool)
        requires
            old(self).wf(old(screen)),
            dir.is_horizontal(),
        ensures
            final(self).on(final(screen)) == old(self).on(old(screen)).steps(
                dir,
                word_displacement(old(self).on(old(screen)), dir),
            ),
            *final(screen) == (Screen { col: final(screen).col, ..*old(screen) }),
            final(self).wf(final(screen)),
            final(self).same_but_field(old(self)),
            rendered,
    {
        proof {
            crate::editor::text_area::model::lemma_steps(
                self.on(screen),
                dir,
                word_displacement(self.on(screen), dir),
            );
        }
        self.text_area.jump_to_word_edge(dir, true, screen)
    }

    /// Puts `ch` in at the cursor. The line is drawn anew.
    pub fn insert_char(&mut self, ch: char, screen: &mut Screen) -> (rendered: bool)
        requires
            old(self).wf(old(screen)),
        ensures
            final(self).on(final(screen)) == old(self).on(old(screen)).insert(ch),
            *final(screen) == (Screen { col: final(screen).col, ..*old(screen) }),
            final(self).wf(final(screen)),
            final(self).same_but_field(old(self)),
            rendered,
    {
        self.text_area.insert_char(ch, true, screen)
    }

    /// Takes out the character left of the cursor and hands it back; at
    /// the start of the line nothing happens.
    pub fn delete_char(&mut self, screen: &mut Screen) -> (removed: Option<char>)
        requires
            old(self).wf(old(screen)),
        ensures
            final(self).on(final(screen)) == old(self).on(old(screen)).delete(),
            removed == old(self).on(old(screen)).deleted(),
            *final(screen) == (Screen { col: final(screen).col, ..*old(screen) }),
            final(self).wf(final(screen)),
            final(self).same_but_field(old(self)),
    {
        self.text_area.delete_char(true, screen)
    }
}

impl EditorLine {
    /// The line's field on `screen` once its left margin is `label_width`
    /// and its scroll state is set anew for the window that this leaves.
    pub open spec fn relabelled(&self, label_width: usize, screen: &Screen) -> Field {
        (Field { margin_left: label_width as int, ..self.on(screen) }).refreshed()
    }

    /// Nothing but the field's text, left margin and scroll state differs
    /// between `self` and `before`.
    pub open spec fn same_but_field(&self, before: &EditorLine) -> bool {
        &&& self.is_active == before.is_active
        &&& self.cached_index == before.cached_index
        &&& self.cached_label_width == before.cached_label_width
        &&& self.text_area.placeholder == before.text_area.placeholder
        &&& self.text_area.margin_right == before.text_area.margin_right
    }

    /// An empty line whose label is `width` columns wide.
    pub fn new(width: usize, is_active: bool) -> (line: Self)
        ensures
            line.text() == Seq::<char>::empty(),
            line.text_area.placeholder@ == Seq::<char>::empty(),
            line.text_area.margin_left == width,
            line.text_area.margin_right == 1,
            line.text_area.overflow_left == 0,
            line.text_area.overflow_right == 0,
            line.is_active == is_active,
            line.cached_index == 0,
            line.cached_label_width == width,
            forall|screen: &Screen| width < screen.width ==> #[trigger] line.balanced(screen),
    {
        Self {
            text_area: TextArea::new(width, 1),
            is_active,
            cached_index: 0,
            cached_label_width: width,
        }
    }

    /// Draws the line as number `index` with a label of `label_width`
    /// columns. The line remembers both, and its field starts behind the
    /// label.
    pub fn render(&mut self, index: usize, label_width: usize, screen: &Screen) -> (drawn: RenderedLine)
        requires
            old(self).text_area.margin_right == 1,
            label_width < screen.width,
            label_width >= digit_count(index as nat) + 1,
        ensures
            final(self).on(screen) == old(self).relabelled(label_width, screen),
            final(self).balanced(screen),
            final(self).cached_index == index,
            final(self).cached_label_width == label_width,
            final(self).is_active == old(self).is_active,
            final(self).text_area.placeholder == old(self).text_area.placeholder,
            drawn.label@ == label_text(index as nat, label_width as nat),
            drawn.label@.len() == label_width,
            drawn.is_active == old(self).is_active,
            drawn.text.text@ == drawn_text(
                final(self).on(screen),
                final(self).text_area.placeholder@,
            ),
            drawn.text.dimmed == (old(self).text().len() == 0 && old(
                self,
            ).text_area.placeholder@.len() > 0),
            drawn.text.text@.len() == screen.width - label_width - 1,
    {
        self.cached_index = index;
        self.cached_label_width = label_width;
        let label = self.render_label();
        self.update_label_width(label_width, screen);
        let text = self.text_area.render(screen);
        RenderedLine { label, is_active: self.is_active, text }
    }

    /// Every place where `pat` stands in the line, found by a scan from
    /// left to right that goes on behind each match, so that the matches
    /// do not overlap; `None` where there is none.
    pub fn find_all(&self, pat: &str) -> (places: Option<Vec<usize>>)
        requires
            pat@.len() > 0,
        ensures
            match places {
                None => occurrences_from(self.text(), pat@, 0).len() == 0,
                Some(found) => {
                    &&& found@.len() > 0
                    &&& found@.map_values(|at: usize| at as int) == occurrences_from(
                        self.text(),
                        pat@,
                        0,
                    )
                },
            },
    {
        let pat_chars = chars_of(pat);
        let text = &self.text_area.content;
        let mut result_vec: Vec<usize> = Vec::new();
        let mut from: usize = 0;
        assert(text.len() == text@.len());
        assert(result_vec@.map_values(|at: usize| at as int) =~= Seq::<int>::empty());
        loop
            invariant
                pat_chars@ == pat@,
                pat@.len() > 0,
                text@ == self.text(),
                from <= text@.len() <= usize::MAX,
                occurrences_from(text@, pat@, 0) == result_vec@.map_values(|at: usize| at as int)
                    + occurrences_from(text@, pat@, from as int),
            ensures
                occurrences_from(text@, pat@, 0) == result_vec@.map_values(|at: usize| at as int),
            decreases text@.len() - from,
        {
            match find_from(text, &pat_chars, from) {
                None => {
                    proof {
                        lemma_occurrences_none(text@, pat@, from as int);
                    }
                    break ;
                },
                Some(pos) => {
                    proof {
                        lemma_occurrences_skip_to_first(text@, pat@, from as int, pos as int);
                    }
                    let ghost before = result_vec@.map_values(|at: usize| at as int);
                    result_vec.push(pos);
                    assert(result_vec@.map_values(|at: usize| at as int) =~= before + seq![
                        pos as int,
                    ]);
                    from = pos + pat_chars.len();
                },
            }
        }
        if result_vec.len() == 0 {
            None
        } else {
            Some(result_vec)
        }
    }

    /// The label as the line last was drawn: its number, then spaces up to
    /// the label's width.
    pub fn render_label(&self) -> (label: String)
        requires
            self.cached_label_width >= digit_count(self.cached_index as nat),
        ensures
            label@ == label_text(self.cached_index as nat, self.cached_label_width as nat),
            label@.len() == self.cached_label_width,
    {
        proof {
            lemma_label_text_len(self.cached_index as nat, self.cached_label_width as nat);
        }
        let index_width = number_bit_count(self.cached_index);
        let space_width = self.cached_label_width - index_width;
        let mut line_label = decimal_chars(self.cached_index);
        append_repeated(&mut line_label, ' ', space_width);
        string_of(&line_label)
    }

    /// Marks the line as the active one and hands back its label to draw.
    pub fn active(&mut self) -> (label: String)
        requires
            old(self).cached_label_width >= digit_count(old(self).cached_index as nat),
        ensures
            final(self).is_active,
            final(self).text_area == old(self).text_area,
            final(self).cached_index == old(self).cached_index,
            final(self).cached_label_width == old(self).cached_label_width,
            label@ == label_text(old(self).cached_index as nat, old(self).cached_label_width as nat),
    {
        self.is_active = true;
        self.render_label()
    }

    /// Marks the line as not active and hands back its label to draw.
    pub fn disable(&mut self) -> (label: String)
        requires
            old(self).cached_label_width >= digit_count(old(self).cached_index as nat),
        ensures
            !final(self).is_active,
            final(self).text_area == old(self).text_area,
            final(self).cached_index == old(self).cached_index,
            final(self).cached_label_width == old(self).cached_label_width,
            label@ == label_text(old(self).cached_index as nat, old(self).cached_label_width as nat),
    {
        self.is_active = false;
        self.render_label()
    }

    /// Lets the field start behind a label of `new_width` columns, and sets
    /// its scroll state anew for the window that this leaves.
    pub fn update_label_width(&mut self, new_width: usize, screen: &Screen)
        requires
            old(self).text_area.margin_right == 1,
            new_width < screen.width,
        ensures
            final(self).on(screen) == old(self).relabelled(new_width, screen),
            final(self).balanced(screen),
            final(self).same_but_field(old(self)),
            old(self).balanced(screen) && old(self).text_area.margin_left == new_width
                ==> final(self).on(screen) == old(self).on(screen),
    {
        proof {
            if self.balanced(screen) && self.text_area.margin_left == new_width {
                lemma_refreshed(self.on(screen));
            }
        }
        self.text_area.margin_left = new_width;
        self.text_area.overflow_refresh(screen);
    }

    /// The index in the line's text before which the cursor stands.
    pub fn cursor_pos(&self, screen: &Screen) -> (pos: usize)
        requires
            0 <= self.on(screen).cursor() <= usize::MAX,
        ensures
            pos == self.on(screen).cursor(),
    {
        self.text_area.cursor_pos(screen)
    }

    pub fn content(&self) -> (text: String)
        ensures
            text@ == self.text(),
    {
        self.text_area.content()
    }

    /// Adds `str` at the end of the line.
    pub fn push_str(&mut self, str: &str, screen: &Screen)
        requires
            old(self).on(screen).fits(),
        ensures
            final(self).on(screen) == old(self).on(screen).pushed(str@),
            final(self).text() == old(self).text() + str@,
            final(self).text_area.balanced(screen),
            final(self).same_but_field(old(self)),
    {
        self.text_area.push_str(str, screen);
    }

    /// Adds the characters of `tail` at the end of the line.
    pub fn push_chars(&mut self, tail: &Vec<char>, screen: &Screen)
        requires
            old(self).on(screen).fits(),
        ensures
            final(self).on(screen) == old(self).on(screen).pushed(tail@),
            final(self).text() == old(self).text() + tail@,
            final(self).text_area.balanced(screen),
            final(self).same_but_field(old(self)),
    {
        self.text_area.push_chars(tail, screen);
    }

    /// Cuts the line off at the cursor and hands back what was cut off.
    pub fn truncate(&mut self, screen: &Screen) -> (rest: String)
        requires
            old(self).wf(screen),
        ensures
            final(self).on(screen) == old(self).on(screen).truncated(),
            final(self).text() == old(self).text().take(old(self).on(screen).cursor()),
            rest@ == old(self).text().skip(old(self).on(screen).cursor()),
            final(self).balanced(screen),
            final(self).same_but_field(old(self)),
    {
        self.text_area.truncate(screen)
    }

    pub fn len(&self) -> (len: usize)
        ensures
            len == self.text().len(),
    {
        self.text_area.len()
    }
}

} // verus!
