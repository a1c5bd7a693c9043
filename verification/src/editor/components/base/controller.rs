use vstd::prelude::*;
use vstd::string::StrSliceExecFns;
use crate::editor::direction::Direction;
use crate::editor::key::KeyCode;
use crate::editor::text_area::model::{lemma_at_start_at_end, lemma_refreshed, Field};
use crate::editor::text_area::{drawn_text, RenderedText, TextArea};
use crate::utils::screen::Screen;
use crate::utils::text::{chars_of, copy_range, string_of};

verus! {

/// A one-line prompt: a caption at the left edge, a button at the right
/// edge, and a text field between them, in one row of the terminal.
pub struct LineComponentController {
    pub prompt: &'static str,
    pub button: &'static str,
    pub text_area: TextArea,
    // vertical position to show; below zero it counts up from the row
    // above the status bar
    pub position: isize,
    pub editable: bool,
}

/// What an open prompt draws: the row, the caption at the left edge, the
/// button and the column where it starts, and the text of the field.
pub struct RenderedPrompt {
    pub row: usize,
    pub prompt: String,
    pub button: String,
    pub button_col: usize,
    pub text: RenderedText,
}

impl LineComponentController {
    /// The row in which a prompt at `position` is shown on a terminal of
    /// `height` rows: the position itself where it is not negative, else
    /// counted up from the row above the status bar.
    pub open spec fn row_of(position: int, height: int) -> int {
        if position >= 0 {
            position
        } else {
            height + position - 1
        }
    }

    /// The field lies between the caption and the button.
    pub open spec fn framed(&self) -> bool {
        &&& self.text_area.margin_left == self.prompt@.len()
        &&& self.text_area.margin_right == self.button@.len()
        &&& self.button@.len() >= 1
    }

    /// The prompt has room on `screen`: the caption and the button fit in
    /// its width, and the prompt's row is one of its rows.
    pub open spec fn fits(&self, screen: &Screen) -> bool {
        &&& self.framed()
        &&& self.prompt@.len() + self.button@.len() <= screen.width
        &&& 0 <= Self::row_of(self.position as int, screen.height as int) < screen.height
    }

    /// The prompt is open on `screen`: the cursor stands in its row and in
    /// its field, and the field is balanced.
    pub open spec fn wf(&self, screen: &Screen) -> bool {
        &&& self.fits(screen)
        &&& self.text_area.wf(screen)
        &&& screen.row == Self::row_of(self.position as int, screen.height as int)
    }

    /// A prompt with an empty field between `prompt` and `button`.
    pub fn new(prompt: &'static str, button: &'static str, position: isize, editable: bool) -> (comp:
        Self)
        ensures
            comp.prompt@ == prompt@,
            comp.button@ == button@,
            comp.position == position,
            comp.editable == editable,
            comp.text_area.content@.len() == 0,
            comp.text_area.placeholder@.len() == 0,
            comp.text_area.margin_left == prompt@.len(),
            comp.text_area.margin_right == button@.len(),
            comp.text_area.overflow_left == 0,
            comp.text_area.overflow_right == 0,
    {
        Self {
            prompt,
            button,
            text_area: TextArea::new(prompt.unicode_len(), button.unicode_len()),
            position,
            editable,
        }
    }

    /// `drawn` is what the prompt shows on `screen`: its row, the caption,
    /// the button at the right edge, and between them the text of the
    /// field's window.
    pub open spec fn draws(&self, drawn: &RenderedPrompt, screen: &Screen) -> bool {
        &&& drawn.row == Self::row_of(self.position as int, screen.height as int)
        &&& drawn.prompt@ == self.prompt@
        &&& drawn.button@ == self.button@
        &&& drawn.button_col == screen.width - self.button@.len()
        &&& drawn.text.text@ == drawn_text(self.text_area.on(screen), self.text_area.placeholder@)
        &&& drawn.text.dimmed == (self.text_area.content@.len() == 0
            && self.text_area.placeholder@.len() > 0)
    }

    /// What the prompt draws in its row. Drawing moves nothing.
    pub fn render(&self, screen: &Screen) -> (drawn: RenderedPrompt)
        requires
            self.fits(screen),
            self.text_area.balanced(screen),
        ensures
            self.draws(&drawn, screen),
    {
        let render_pos: usize = if self.position >= 0 {
            self.position as usize
        } else {
            let back: usize = (-(self.position + 1)) as usize;
            screen.height() - 2 - back
        };
        let prompt = string_of(&chars_of(self.prompt));
        let button = string_of(&chars_of(self.button));
        let button_col = screen.width() - self.button.unicode_len();
        let text = self.text_area.render(screen);
        RenderedPrompt { row: render_pos, prompt, button, button_col, text }
    }

    /// Opens the prompt: the cursor goes to the prompt's row and behind
    /// the last character of the field, whose scroll state is set anew
    /// for the terminal's width.
    pub fn open(&mut self, screen: &mut Screen) -> (drawn: RenderedPrompt)
        requires
            old(self).fits(old(screen)),
        ensures
            final(self).wf(final(screen)),
            final(self).text_area.on(final(screen)) == old(self).text_area.on(
                old(screen),
            ).refreshed().at_end(),
            final(self).text_area.placeholder == old(self).text_area.placeholder,
            final(self).prompt == old(self).prompt,
            final(self).button == old(self).button,
            final(self).position == old(self).position,
            final(self).editable == old(self).editable,
            *final(screen) == (Screen {
                row: final(screen).row,
                col: final(screen).col,
                ..*old(screen)
            }),
            final(self).draws(&drawn, final(screen)),
    {
        let render_pos: usize = if self.position >= 0 {
            self.position as usize
        } else {
            let back: usize = (-(self.position + 1)) as usize;
            screen.height() - 2 - back
        };
        screen.move_to_row(render_pos);
        proof {
            lemma_refreshed(self.text_area.on(screen));
            lemma_at_start_at_end(self.text_area.on(screen).refreshed());
        }
        self.text_area.overflow_refresh(screen);
        self.text_area.move_cursor_to_end(false, screen);
        self.render(screen)
    }

    /// Lets an editing key act on the field: backspace deletes, the
    /// arrows move, a character is put in. A prompt that is not editable
    /// takes no key. Tells whether the key acted.
    pub fn edit(&mut self, key: KeyCode, screen: &mut Screen) -> (edited: bool)
        requires
            old(self).wf(old(screen)),
        ensures
            final(self).wf(final(screen)),
            edited == (old(self).editable && (key == KeyCode::Backspace || key == KeyCode::Left
                || key == KeyCode::Right || key is Char)),
            final(self).text_area.on(final(screen)) == Self::edited_field(
                old(self).text_area.on(old(screen)),
                old(self).editable,
                key,
            ),
            final(self).text_area.placeholder == old(self).text_area.placeholder,
            final(self).prompt == old(self).prompt,
            final(self).button == old(self).button,
            final(self).position == old(self).position,
            final(self).editable == old(self).editable,
            *final(screen) == (Screen { col: final(screen).col, ..*old(screen) }),
    {
        if !self.editable {
            return false;
        }
        match key {
            KeyCode::Backspace => {
                self.text_area.delete_char(true, screen);
                true
            },
            KeyCode::Left => {
                self.text_area.move_cursor_horizontal(Direction::Left, true, screen);
                true
            },
            KeyCode::Right => {
                self.text_area.move_cursor_horizontal(Direction::Right, true, screen);
                true
            },
            KeyCode::Char(ch) => {
                self.text_area.insert_char(ch, true, screen);
                true
            },
            _ => false,
        }
    }

    /// The field after an editing key.
    pub open spec fn edited_field(f: Field, editable: bool, key: KeyCode) -> Field {
        if !editable {
            f
        } else {
            match key {
                KeyCode::Backspace => f.delete(),
                KeyCode::Left => f.step(Direction::Left),
                KeyCode::Right => f.step(Direction::Right),
                KeyCode::Char(ch) => f.insert(ch),
                _ => f,
            }
        }
    }
}

// --- --- --- --- --- ---
/// A text that takes the whole screen.
pub struct ScreenComponentController {
    pub content: String,
}

impl ScreenComponentController {
    /// The text cut into rows of `width` characters; the last row holds
    /// what is left. An empty text has no row.
    pub open spec fn rows_of(content: Seq<char>, width: int) -> Seq<Seq<char>>
        decreases content.len(),
    {
        if content.len() == 0 || width <= 0 {
            Seq::empty()
        } else if content.len() > width {
            seq![content.take(width)] + Self::rows_of(content.skip(width), width)
        } else {
            seq![content]
        }
    }

    /// The rows in which the text is shown on `screen`, from the top.
    pub fn render(&self, screen: &Screen) -> (rows: Vec<String>)
        requires
            screen.width >= 1,
        ensures
            rows@.map_values(|row: String| row@) == Self::rows_of(
                self.content@,
                screen.width as int,
            ),
    {
        let term_width = screen.width();
        let chars = chars_of(self.content.as_str());
        let mut rows: Vec<String> = Vec::new();
        let mut start: usize = 0;
        assert(chars@.skip(0) =~= chars@);
        assert(rows@.map_values(|row: String| row@) =~= Seq::<Seq<char>>::empty());
        while start < chars.len()
            invariant
                start <= chars@.len(),
                term_width == screen.width,
                term_width >= 1,
                chars@ == self.content@,
                Self::rows_of(self.content@, term_width as int) == rows@.map_values(
                    |row: String| row@,
                ) + Self::rows_of(chars@.skip(start as int), term_width as int),
            decreases chars@.len() - start,
        {
            let ghost rest = chars@.skip(start as int);
            let ghost before = rows@.map_values(|row: String| row@);
            if chars.len() - start > term_width {
                let row = copy_range(&chars, start, start + term_width);
                assert(row@ =~= rest.take(term_width as int));
                rows.push(string_of(&row));
                assert(rows@.map_values(|row: String| row@) =~= before.push(
                    rest.take(term_width as int),
                ));
                assert(rest.skip(term_width as int) =~= chars@.skip(start + term_width));
                start = start + term_width;
            } else {
                let row = copy_range(&chars, start, chars.len());
                assert(row@ =~= rest);
                rows.push(string_of(&row));
                assert(rows@.map_values(|row: String| row@) =~= before.push(rest));
                start = chars.len();
                assert(Self::rows_of(chars@.skip(start as int), term_width as int)
                    =~= Seq::<Seq<char>>::empty());
                assert(Self::rows_of(rest, term_width as int) =~= seq![rest]);
            }
        }
        rows
    }
}

} // verus!
