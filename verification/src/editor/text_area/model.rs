use vstd::prelude::*;
use crate::editor::direction::Direction;

verus! {

/// A text field as it stands on the screen, in mathematical terms: its
/// text, its margins, how much of the text is scrolled out of view on
/// either side, the width of the terminal and the column of the hardware
/// cursor.
///
/// The text occupies the columns from `margin_left` on; `margin_right`
/// columns at the right edge are left free. The place in the text where the
/// cursor stands is not stored: it follows from the cursor's column.
pub struct Field {
    pub content: Seq<char>,
    pub margin_left: int,
    pub margin_right: int,
    pub overflow_left: int,
    pub overflow_right: int,
    pub width: int,
    pub col: int,
}

impl Field {
    pub open spec fn len(self) -> int {
        self.content.len() as int
    }

    /// The number of columns in which text is shown.
    pub open spec fn visible_width(self) -> int {
        self.width - self.margin_left - self.margin_right
    }

    /// The index in the text before which the cursor stands.
    pub open spec fn cursor(self) -> int {
        self.col + self.overflow_left - self.margin_left
    }

    /// The margins leave room on the terminal, and at least the last column
    /// is kept free.
    pub open spec fn fits(self) -> bool {
        &&& 0 <= self.margin_left
        &&& 1 <= self.margin_right
        &&& self.margin_left + self.margin_right <= self.width
    }

    /// What is scrolled out on both sides and what is shown make up the
    /// text: a text wider than the window is cut to the window's width, a
    /// text that fits is not scrolled at all.
    pub open spec fn balanced(self) -> bool {
        &&& self.fits()
        &&& 0 <= self.overflow_left
        &&& 0 <= self.overflow_right
        &&& if self.len() > self.visible_width() {
            self.overflow_left + self.overflow_right + self.visible_width() == self.len()
        } else {
            self.overflow_left == 0 && self.overflow_right == 0
        }
    }

    /// The field is balanced and the cursor stands in its window or just
    /// behind it, and at or before the end of the text.
    pub open spec fn wf(self) -> bool {
        &&& self.balanced()
        &&& self.margin_left <= self.col <= self.width - self.margin_right
        &&& self.cursor() <= self.len()
    }

    /// The part of the text that is shown.
    pub open spec fn visible(self) -> Seq<char> {
        if self.len() > self.visible_width() {
            self.content.subrange(self.overflow_left, self.len() - self.overflow_right)
        } else {
            self.content
        }
    }

    /// The cursor stands in the first column of the window.
    pub open spec fn at_left_side(self) -> bool {
        self.col == self.margin_left
    }

    /// The cursor stands just behind the window: in the last column of
    /// the terminal where the right margin is a single column.
    pub open spec fn at_right_side(self) -> bool {
        self.col == self.width - self.margin_right
    }

    /// The cursor stands before the first character of the text.
    pub open spec fn at_area_start(self) -> bool {
        self.at_left_side() && self.overflow_left == 0
    }

    /// The cursor stands behind the last character of the text.
    pub open spec fn at_area_end(self) -> bool {
        ||| self.col == self.len() + self.margin_left
        ||| self.col == self.len() - self.overflow_left + self.margin_left
    }

    /// The scroll state set anew for the text as it is now. What is
    /// scrolled out on the right stays so as far as the text allows; the
    /// left side takes the rest.
    pub open spec fn refreshed(self) -> Field {
        let excess = self.len() - self.visible_width();
        if excess > 0 {
            let right = if self.overflow_right > excess {
                excess
            } else {
                self.overflow_right
            };
            Field { overflow_left: excess - right, overflow_right: right, ..self }
        } else {
            Field { overflow_left: 0, overflow_right: 0, ..self }
        }
    }

    /// The window at the start of the text and the cursor before its first
    /// character.
    pub open spec fn at_start(self) -> Field {
        if self.len() >= self.visible_width() {
            Field {
                overflow_left: 0,
                overflow_right: self.overflow_right + self.overflow_left,
                col: self.margin_left,
                ..self
            }
        } else {
            Field { col: self.margin_left, ..self }
        }
    }

    /// The window at the end of the text and the cursor behind its last
    /// character.
    pub open spec fn at_end(self) -> Field {
        if self.len() >= self.visible_width() {
            Field {
                overflow_left: self.overflow_left + self.overflow_right,
                overflow_right: 0,
                col: self.width - self.margin_right,
                ..self
            }
        } else {
            Field { col: self.margin_left + self.len(), ..self }
        }
    }

    /// One step to the left: nothing at the start of the text; at the left
    /// edge of the window the window moves; elsewhere the cursor moves.
    pub open spec fn step_left(self) -> Field {
        if self.at_area_start() {
            self
        } else if self.at_left_side() {
            Field {
                overflow_left: self.overflow_left - 1,
                overflow_right: self.overflow_right + 1,
                ..self
            }
        } else {
            Field { col: self.col - 1, ..self }
        }
    }

    /// One step to the right: nothing at the end of the text; just behind
    /// the window the window moves; elsewhere the cursor moves.
    pub open spec fn step_right(self) -> Field {
        if self.at_area_end() {
            self
        } else if self.at_right_side() {
            Field {
                overflow_left: self.overflow_left + 1,
                overflow_right: self.overflow_right - 1,
                ..self
            }
        } else {
            Field { col: self.col + 1, ..self }
        }
    }

    /// One step to the left or to the right.
    pub open spec fn step(self, dir: Direction) -> Field {
        if dir == Direction::Left {
            self.step_left()
        } else {
            self.step_right()
        }
    }

    /// `count` steps in one direction.
    pub open spec fn steps(self, dir: Direction, count: nat) -> Field
        decreases count,
    {
        if count == 0 {
            self
        } else {
            self.step(dir).steps(dir, (count - 1) as nat)
        }
    }

    /// A step in the given direction would redraw the field: the window
    /// moves rather than the cursor.
    pub open spec fn step_scrolls(self, dir: Direction) -> bool {
        if dir == Direction::Left {
            !self.at_area_start() && self.at_left_side()
        } else {
            !self.at_area_end() && self.at_right_side()
        }
    }

    /// The character `ch` put in at the cursor. Where the text then is
    /// wider than the window, the window moves on and the cursor stays in
    /// its column; else the cursor moves one column to the right.
    pub open spec fn insert(self, ch: char) -> Field {
        let content = self.content.insert(self.cursor(), ch);
        if content.len() > self.visible_width() {
            Field { content, overflow_left: self.overflow_left + 1, ..self }
        } else {
            Field { content, col: self.col + 1, ..self }
        }
    }

    /// The character left of the cursor taken out; nothing at the start of
    /// the text. Where the text still fills the window and some of it is
    /// scrolled out on the left, the window moves back and the cursor stays
    /// in its column; else the cursor moves one column to the left, and
    /// what is scrolled out on the right shrinks where the window would
    /// reach past the end.
    pub open spec fn delete(self) -> Field {
        if self.at_area_start() {
            self
        } else {
            let content = self.content.remove(self.cursor() - 1);
            if content.len() >= self.visible_width() && self.overflow_left > 0 {
                Field { content, overflow_left: self.overflow_left - 1, ..self }
            } else if self.overflow_right > 0 {
                Field {
                    content,
                    overflow_right: self.overflow_right - 1,
                    col: self.col - 1,
                    ..self
                }
            } else {
                Field { content, col: self.col - 1, ..self }
            }
        }
    }

    /// The field after a run of edits, each of which puts a character in
    /// at the cursor or, where it names none, takes out the character
    /// left of the cursor.
    pub open spec fn edited(self, edits: Seq<Option<char>>) -> Field
        decreases edits.len(),
    {
        if edits.len() == 0 {
            self
        } else {
            let before = self.edited(edits.drop_last());
            match edits.last() {
                Some(ch) => before.insert(ch),
                None => before.delete(),
            }
        }
    }

    /// The character that `delete` takes out, if any.
    pub open spec fn deleted(self) -> Option<char> {
        if self.at_area_start() {
            None
        } else {
            Some(self.content[self.cursor() - 1])
        }
    }

    /// The text replaced, and the scroll state set anew.
    pub open spec fn with_content(self, content: Seq<char>) -> Field {
        (Field { content, ..self }).refreshed()
    }

    /// `tail` added at the end of the text, and the scroll state set anew.
    pub open spec fn pushed(self, tail: Seq<char>) -> Field {
        self.with_content(self.content + tail)
    }

    /// The text cut off at the cursor, and the scroll state set anew.
    pub open spec fn truncated(self) -> Field {
        self.with_content(self.content.take(self.cursor()))
    }

    /// What `truncated` cuts off: the text from the cursor on.
    pub open spec fn cut_off(self) -> Seq<char> {
        self.content.skip(self.cursor())
    }

    /// The text emptied and nothing scrolled.
    pub open spec fn cleared(self) -> Field {
        Field { content: Seq::empty(), overflow_left: 0, overflow_right: 0, ..self }
    }
}

/// In a balanced field, what is scrolled out on the left, what is shown
/// and what is scrolled out on the right make up the text; and nothing is
/// scrolled out of a text that fits the window.
pub proof fn lemma_balanced_parts(f: Field)
    requires
        f.balanced(),
    ensures
        f.overflow_left + f.visible().len() + f.overflow_right == f.len(),
        f.len() > f.visible_width() ==> f.visible().len() == f.visible_width(),
        f.len() <= f.visible_width() ==> f.overflow_left == 0 && f.overflow_right == 0,
        f.content == f.content.take(f.overflow_left) + f.visible() + f.content.skip(
            f.len() - f.overflow_right,
        ),
{
    assert(f.content =~= f.content.take(f.overflow_left) + f.visible() + f.content.skip(
        f.len() - f.overflow_right,
    ));
}

/// A well-formed field keeps the cursor inside the shown part of the
/// text: the cursor stands at or behind the first shown character and at
/// or before the place behind the last shown one.
pub proof fn lemma_window_holds_cursor(f: Field)
    requires
        f.wf(),
    ensures
        f.overflow_left <= f.cursor() <= f.len() - f.overflow_right,
        f.visible().len() <= f.visible_width(),
        f.col - f.margin_left <= f.visible().len(),
{
}

/// In a well-formed field the cursor stands behind the last character
/// exactly when `at_area_end` says so, and before the first exactly when
/// `at_area_start` says so.
pub proof fn lemma_area_bounds(f: Field)
    requires
        f.wf(),
    ensures
        f.at_area_end() <==> f.cursor() == f.len(),
        f.at_area_start() <==> f.cursor() == 0,
{
}

/// Setting the scroll state anew balances any field whose margins fit, and
/// changes nothing in a balanced one.
pub proof fn lemma_refreshed(f: Field)
    requires
        f.fits(),
        0 <= f.overflow_right,
    ensures
        f.refreshed().balanced(),
        f.refreshed().content == f.content,
        f.balanced() ==> f.refreshed() == f,
        f.len() > f.visible_width() && f.overflow_right <= f.len() - f.visible_width()
            ==> f.refreshed().overflow_left == f.len() - f.visible_width() - f.overflow_right
            && f.refreshed().overflow_right == f.overflow_right,
{
}

/// Moving to the start or to the end of a balanced field gives a
/// well-formed one with the cursor before the first or behind the last
/// character.
pub proof fn lemma_at_start_at_end(f: Field)
    requires
        f.balanced(),
    ensures
        f.at_start().wf(),
        f.at_start().cursor() == 0,
        f.at_start().content == f.content,
        f.at_end().wf(),
        f.at_end().cursor() == f.len(),
        f.at_end().content == f.content,
{
}

/// A step keeps a field well-formed and its text unchanged, and moves the
/// cursor by one place unless it stands at the end it is moving towards.
pub proof fn lemma_step(f: Field, dir: Direction)
    requires
        f.wf(),
        dir.is_horizontal(),
    ensures
        f.step(dir).wf(),
        f.step(dir).content == f.content,
        f.step(dir).margin_left == f.margin_left,
        f.step(dir).margin_right == f.margin_right,
        f.step(dir).width == f.width,
        dir == Direction::Left ==> f.step(dir).cursor() == if f.cursor() == 0 {
            0
        } else {
            f.cursor() - 1
        },
        dir == Direction::Right ==> f.step(dir).cursor() == if f.cursor() == f.len() {
            f.len()
        } else {
            f.cursor() + 1
        },
{
}

/// Several steps keep a field well-formed and its text unchanged, and move
/// the cursor by as many places as there is room for.
pub proof fn lemma_steps(f: Field, dir: Direction, count: nat)
    requires
        f.wf(),
        dir.is_horizontal(),
    ensures
        f.steps(dir, count).wf(),
        f.steps(dir, count).content == f.content,
        f.steps(dir, count).margin_left == f.margin_left,
        f.steps(dir, count).margin_right == f.margin_right,
        f.steps(dir, count).width == f.width,
        dir == Direction::Left ==> f.steps(dir, count).cursor() == if f.cursor() <= count {
            0
        } else {
            f.cursor() - count
        },
        dir == Direction::Right ==> f.steps(dir, count).cursor() == if f.len() - f.cursor()
            <= count {
            f.len()
        } else {
            f.cursor() + count
        },
    decreases count,
{
    if count > 0 {
        lemma_step(f, dir);
        lemma_steps(f.step(dir), dir, (count - 1) as nat);
    }
}

/// Steps can be taken one after the other or counted together.
pub proof fn lemma_steps_add(f: Field, dir: Direction, a: nat, b: nat)
    ensures
        f.steps(dir, a).steps(dir, b) == f.steps(dir, a + b),
    decreases a,
{
    if a > 0 {
        lemma_steps_add(f.step(dir), dir, (a - 1) as nat, b);
    }
}

/// Putting a character in keeps a field well-formed, and with it the
/// balance of what is shown and what is scrolled out; the cursor then
/// stands behind the new character.
pub proof fn lemma_insert(f: Field, ch: char)
    requires
        f.wf(),
    ensures
        f.insert(ch).wf(),
        f.insert(ch).cursor() == f.cursor() + 1,
        f.insert(ch).len() == f.len() + 1,
        f.insert(ch).content[f.cursor()] == ch,
{
}

/// Taking a character out keeps a field well-formed, and with it the
/// balance of what is shown and what is scrolled out; unless the cursor
/// stood at the start, it then stands one place further left.
pub proof fn lemma_delete(f: Field)
    requires
        f.wf(),
    ensures
        f.delete().wf(),
        f.deleted().is_none() <==> f.cursor() == 0,
        f.cursor() == 0 ==> f.delete() == f,
        f.cursor() > 0 ==> f.delete().cursor() == f.cursor() - 1 && f.delete().len() == f.len()
            - 1,
{
}

/// After any run of insertions and deletions a well-formed field is
/// well-formed: what is scrolled out and what is shown make up the text
/// where the text is wider than the window, and nothing is scrolled out
/// where it is not.
pub proof fn lemma_edited(f: Field, edits: Seq<Option<char>>)
    requires
        f.wf(),
    ensures
        f.edited(edits).wf(),
        f.edited(edits).balanced(),
    decreases edits.len(),
{
    if edits.len() > 0 {
        let before = f.edited(edits.drop_last());
        lemma_edited(f, edits.drop_last());
        match edits.last() {
            Some(ch) => lemma_insert(before, ch),
            None => lemma_delete(before),
        }
    }
}

/// Putting a character in and taking it out again gives back the field as
/// it was: the same text, the same scroll state and the same cursor
/// column.
pub proof fn lemma_insert_then_delete(f: Field, ch: char)
    requires
        f.wf(),
    ensures
        f.insert(ch).deleted() == Some(ch),
        f.insert(ch).delete() == f,
{
    let g = f.insert(ch);
    lemma_insert(f, ch);
    assert(g.content.remove(g.cursor() - 1) =~= f.content);
}

/// Replacing, extending or cutting the text leaves the field balanced.
pub proof fn lemma_with_content(f: Field, content: Seq<char>)
    requires
        f.fits(),
        0 <= f.overflow_right,
    ensures
        f.with_content(content).balanced(),
        f.with_content(content).content == content,
        f.with_content(content).margin_left == f.margin_left,
        f.with_content(content).margin_right == f.margin_right,
        f.with_content(content).width == f.width,
        f.with_content(content).col == f.col,
{
}

/// Cutting a field at the cursor and joining the two parts gives the text
/// as it was.
pub proof fn lemma_truncated(f: Field)
    requires
        f.wf(),
    ensures
        f.truncated().balanced(),
        f.truncated().content + f.cut_off() == f.content,
        f.truncated().len() == f.cursor(),
{
    assert(f.content.take(f.cursor()) + f.content.skip(f.cursor()) =~= f.content);
}

} // verus!
