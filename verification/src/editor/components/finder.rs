use vstd::prelude::*;
use crate::editor::components::base::controller::{LineComponentController, RenderedPrompt};
use crate::editor::components::base::history::ComponentHistory;
use crate::editor::cursor_pos::EditorCursorPos;
use crate::editor::key::{KeyCode, KeyEvent, KeyModifiers};
use crate::editor::text_area::model::{lemma_at_start_at_end, lemma_with_content};
use crate::editor::text_area::TextArea;
use crate::utils::loop_traverser::LoopTraverser;
use crate::utils::screen::Screen;

verus! {

/// The prompt that asks what to find, with the list of the places found,
/// through which it steps round and round, and the history of what was
/// searched for.
pub struct Finder {
    pub match_list: LoopTraverser<EditorCursorPos>,
    pub history: ComponentHistory,
    pub comp: LineComponentController,
}

impl Finder {
    /// The list of matches wraps round, the history does not, and the
    /// prompt is the find prompt.
    pub open spec fn is_find_prompt(&self) -> bool {
        &&& self.match_list.wf()
        &&& self.match_list.cycles()
        &&& self.history.wf()
        &&& self.comp.framed()
        &&& self.comp.prompt@.len() == 6
        &&& self.comp.button@.len() == 15
        &&& self.comp.position == -1
        &&& self.comp.editable
    }

    /// The prompt is open on `screen`.
    pub open spec fn wf(&self, screen: &Screen) -> bool {
        self.is_find_prompt() && self.comp.wf(screen)
    }

    /// Nothing but the field and the position in the history differs
    /// between `self` and `before`.
    pub open spec fn same_but_field(&self, before: &Finder) -> bool {
        &&& self.match_list == before.match_list
        &&& self.comp.prompt == before.comp.prompt
        &&& self.comp.button == before.comp.button
        &&& self.comp.position == before.comp.position
        &&& self.comp.editable == before.comp.editable
        &&& self.comp.text_area.placeholder == before.comp.text_area.placeholder
    }

    /// The field, the history and the position in it are those of
    /// `before`.
    pub open spec fn unmoved(&self, before: &Finder) -> bool {
        &&& self.comp == before.comp
        &&& self.history.entries() == before.history.entries()
        &&& self.history.list.position() == before.history.list.position()
    }

    /// A find prompt in the row above the status bar, with an empty
    /// field, no matches and no history.
    pub fn new() -> (finder: Self)
        ensures
            finder.is_find_prompt(),
            finder.comp.prompt@ == "Find: "@,
            finder.comp.button@ == "[(Shift) Enter]"@,
            finder.match_list.items().len() == 0,
            finder.match_list.position() == -1,
            finder.history.entries().len() == 0,
            finder.history.list.position() == -1,
            finder.comp.text_area.content@.len() == 0,
            finder.comp.text_area.placeholder@.len() == 0,
            finder.comp.text_area.overflow_left == 0,
            finder.comp.text_area.overflow_right == 0,
    {
        proof {
            reveal_strlit("Find: ");
            reveal_strlit("[(Shift) Enter]");
        }
        Self {
            match_list: LoopTraverser::new(true),
            history: ComponentHistory::new(),
            comp: LineComponentController::new("Find: ", "[(Shift) Enter]", -1, true),
        }
    }

    /// Replaces the list of matches; the next step leads to its first.
    pub fn set_matches(&mut self, pos_list: Vec<EditorCursorPos>)
        requires
            old(self).is_find_prompt(),
            pos_list@.len() <= isize::MAX,
        ensures
            final(self).is_find_prompt(),
            final(self).match_list.items() == pos_list@,
            final(self).match_list.position() == -1,
            final(self).history == old(self).history,
            final(self).comp == old(self).comp,
    {
        self.match_list.set_content(pos_list);
    }

    /// Steps to the next match, from the last round to the first.
    pub fn next<'a>(&'a mut self) -> (place: Option<&'a EditorCursorPos>)
        requires
            old(self).is_find_prompt(),
        ensures
            final(self).is_find_prompt(),
            final(self).match_list.items() == old(self).match_list.items(),
            final(self).history == old(self).history,
            final(self).comp == old(self).comp,
            match old(self).match_list.position_after_next() {
                None => place.is_none() && final(self).match_list.position() == old(
                    self,
                ).match_list.position(),
                Some(i) => {
                    &&& 0 <= i < old(self).match_list.items().len()
                    &&& final(self).match_list.position() == i
                    &&& place == Some(&old(self).match_list.items()[i])
                },
            },
    {
        self.match_list.next()
    }

    /// Steps to the match before, from the first round to the last.
    pub fn previous<'a>(&'a mut self) -> (place: Option<&'a EditorCursorPos>)
        requires
            old(self).is_find_prompt(),
        ensures
            final(self).is_find_prompt(),
            final(self).match_list.items() == old(self).match_list.items(),
            final(self).history == old(self).history,
            final(self).comp == old(self).comp,
            match old(self).match_list.position_after_previous() {
                None => place.is_none() && final(self).match_list.position() == old(
                    self,
                ).match_list.position(),
                Some(i) => {
                    &&& 0 <= i < old(self).match_list.items().len()
                    &&& final(self).match_list.position() == i
                    &&& place == Some(&old(self).match_list.items()[i])
                },
            },
    {
        self.match_list.previous()
    }

    /// What is searched for: the text in the field.
    pub fn content(&self) -> (text: String)
        ensures
            text@ == self.comp.text_area.content@,
    {
        self.comp.text_area.content()
    }

    /// There is no list of matches.
    pub fn is_empty(&self) -> (empty: bool)
        ensures
            empty == (self.match_list.items().len() == 0),
    {
        self.match_list.is_empty()
    }

    /// Forgets the list of matches.
    pub fn clear(&mut self)
        requires
            old(self).is_find_prompt(),
        ensures
            final(self).is_find_prompt(),
            final(self).match_list.items().len() == 0,
            final(self).match_list.position() == -1,
            final(self).history == old(self).history,
            final(self).comp == old(self).comp,
    {
        self.match_list.clear()
    }

    // --- --- --- --- --- ---
    pub fn is_finding_key(key: KeyEvent) -> (is_finding: bool)
        ensures
            is_finding == key.is_plain_enter(),
    {
        key.modifiers == KeyModifiers::Plain && key.code == KeyCode::Enter
    }

    pub fn is_reverse_finding_key(key: KeyEvent) -> (is_finding: bool)
        ensures
            is_finding == key.is_shift_enter(),
    {
        key.modifiers == KeyModifiers::Shift && key.code == KeyCode::Enter
    }

    pub fn open(&mut self, screen: &mut Screen) -> (drawn: RenderedPrompt)
        requires
            old(self).is_find_prompt(),
            old(self).comp.fits(old(screen)),
        ensures
            final(self).wf(final(screen)),
            final(self).comp.text_area.on(final(screen)) == old(self).comp.text_area.on(
                old(screen),
            ).refreshed().at_end(),
            final(self).same_but_field(old(self)),
            final(self).history == old(self).history,
            *final(screen) == (Screen {
                row: final(screen).row,
                col: final(screen).col,
                ..*old(screen)
            }),
            final(self).comp.draws(&drawn, final(screen)),
    {
        self.comp.open(screen)
    }

    /// What `key_resolve` makes of the prompt `before` on `screen_before`
    /// when it is given `key`: `self` on `screen`.
    pub open spec fn resolved(
        &self,
        before: &Finder,
        key: KeyEvent,
        screen_before: &Screen,
        screen: &Screen,
    ) -> bool {
        &&& self.same_but_field(before)
        &&& *screen == (Screen { col: screen.col, ..*screen_before })
        &&& !(key.modifiers == KeyModifiers::Plain || key.modifiers == KeyModifiers::Shift) ==> {
                &&& self == before
                &&& *screen == *screen_before
            }
        &&& (key.modifiers == KeyModifiers::Plain || key.modifiers == KeyModifiers::Shift) ==> {
                match key.code {
                    KeyCode::Up => match before.history.list.position_after_next() {
                        None => self.unmoved(before) && *screen == *screen_before,
                        Some(i) => {
                            &&& self.history.list.position() == i
                            &&& self.history.entries() == before.history.entries()
                            &&& self.comp.text_area.on(screen) == before.comp.text_area.on(screen_before).with_content(
                                before.history.entries()[i]@,
                            ).at_end()
                        },
                    },
                    KeyCode::Down => match before.history.list.position_after_previous() {
                        None => self.unmoved(before) && *screen == *screen_before,
                        Some(i) => {
                            &&& self.history.list.position() == i
                            &&& self.history.entries() == before.history.entries()
                            &&& self.comp.text_area.on(screen) == before.comp.text_area.on(screen_before).with_content(
                                before.history.entries()[i]@,
                            ).at_end()
                        },
                    },
                    KeyCode::Enter => {
                        &&& self.comp == before.comp
                        &&& *screen == *screen_before
                        &&& self.history.list.position() == before.history.list.position()
                        &&& if before.history.entries().len() < isize::MAX {
                            &&& self.history.entries().len() == before.history.entries().len() + 1
                            &&& self.history.entries()[0]@ == before.comp.text_area.content@
                            &&& self.history.entries().skip(1) == before.history.entries()
                        } else {
                            self.history.entries() == before.history.entries()
                        }
                    },
                    code => {
                        &&& self.comp.text_area.on(screen)
                            == LineComponentController::edited_field(
                            before.comp.text_area.on(screen_before),
                            true,
                            code,
                        )
                        &&& self.history.entries() == before.history.entries()
                        &&& self.history.list.position() == if code == KeyCode::Backspace
                            || code == KeyCode::Left || code == KeyCode::Right || code is Char {
                            -1
                        } else {
                            before.history.list.position()
                        }
                    },
                }
            }
    }

    /// What a key does in the open prompt. Keys pressed with anything but
    /// shift do nothing. The up and down arrows step through the history
    /// and put the entry reached in the field, with the cursor behind it.
    /// Enter adds what is in the field to the history. An editing key
    /// edits the field and resets the position in the history.
    pub fn key_resolve(&mut self, key: KeyEvent, screen: &mut Screen)
        requires
            old(self).wf(old(screen)),
        ensures
            final(self).wf(final(screen)),
            final(self).resolved(old(self), key, old(screen), final(screen)),
    {
        if !(key.modifiers == KeyModifiers::Plain || key.modifiers == KeyModifiers::Shift) {
            return ;
        }
        match key.code {
            KeyCode::Up | KeyCode::Down => {
                let history_content = match key.code {
                    KeyCode::Up => self.history.previous(),
                    _ => self.history.next(),
                };
                let entry: Option<String> = match history_content {
                    Some(str) => Some(str.clone()),
                    None => None,
                };
                if let Some(str) = entry {
                    proof {
                        lemma_with_content(self.comp.text_area.on(screen), str@);
                        lemma_at_start_at_end(
                            self.comp.text_area.on(screen).with_content(str@),
                        );
                    }
                    self.comp.text_area.set_content(str.as_str(), screen);
                    self.comp.text_area.move_cursor_to_end(true, screen);
                }
            },
            KeyCode::Enter => {
                if self.history.list.len() < isize::MAX as usize {
                    let current_target = self.content();
                    self.history.append(current_target);
                    assert(self.history.entries().skip(1) =~= old(self).history.entries());
                }
            },
            k => {
                if TextArea::is_editing_key(k) {
                    self.history.reset_index();
                    self.comp.edit(k, screen);
                }
            },
        }
    }
}

} // verus!
