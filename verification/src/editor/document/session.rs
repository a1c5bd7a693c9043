use vstd::prelude::*;
use crate::editor::components::base::controller::RenderedPrompt;
use crate::editor::components::file_saver::SaveRequest;
use crate::editor::components::{FileSaver, Finder, Positioner};
use crate::editor::cursor_pos::EditorCursorPos;
use crate::editor::direction::Direction;
use crate::editor::document::line::RenderedLine;
use crate::editor::document::mode::EditorMode;
use crate::editor::document::state::EditorState;
use crate::editor::document::{line_ok, Editor};
use crate::editor::key::{KeyCode, KeyEvent, KeyModifiers};
use crate::editor::text_area::model::lemma_refreshed;
use crate::utils::number_bit_count::lemma_digit_count_monotonic;
use crate::utils::screen::Screen;
use crate::utils::text::joined;

verus! {

/// What a change of mode draws: the prompt that opened; or, when a prompt
/// closed, the line that it had covered, if it had covered one; or
/// nothing.
pub enum ModeChange {
    Opened(RenderedPrompt),
    Closed(Option<RenderedLine>),
    Unchanged,
}

impl Editor {
    /// The screen as the document sees it: with the hardware cursor where
    /// it stands in normal mode, and where it stood when the prompt
    /// opened in any other.
    pub open spec fn document_screen(&self, screen: &Screen) -> Screen {
        if self.mode == EditorMode::Normal {
            *screen
        } else {
            Screen { row: screen.saved_row, col: screen.saved_col, ..*screen }
        }
    }

    /// The editor is in order on `screen`: the document is, the prompts
    /// have room, and the prompt of the current mode is open.
    pub open spec fn in_order(&self, screen: &Screen) -> bool {
        &&& self.wf(&self.document_screen(screen))
        &&& self.components.fits(screen)
        &&& self.components.active_wf(EditorState::of_mode(self.mode), screen)
    }

    /// Whether the document is in order depends on the size of the
    /// terminal and on the place of the cursor alone.
    pub proof fn lemma_wf_same_cursor(&self, a: &Screen, b: &Screen)
        requires
            self.wf(a),
            a.width == b.width,
            a.height == b.height,
            a.row == b.row,
            a.col == b.col,
        ensures
            self.wf(b),
    {
        assert(self.viewport(a) == self.viewport(b));
        assert(self.lines@[self.current_row - 1].on(a) == self.lines@[self.current_row - 1].on(b));
    }

    /// What `open_mode` makes of the editor `before` on `screen_before`:
    /// `self` on `screen`. The place of the cursor is saved, the mode is
    /// `mode`, the status bar shows it, and the prompt of the mode is
    /// open with the cursor behind its text: the save prompt has taken
    /// the document's text, the find prompt has forgotten its matches,
    /// the position prompt has taken the place of the cursor as its
    /// target.
    pub open spec fn mode_opened(
        &self,
        before: &Editor,
        mode: EditorMode,
        screen_before: &Screen,
        screen: &Screen,
    ) -> bool {
        &&& self.mode == mode
        &&& self.lines == before.lines
        &&& self.current_row == before.current_row
        &&& self.overflow_top == before.overflow_top
        &&& self.overflow_bottom == before.overflow_bottom
        &&& screen.width == screen_before.width
        &&& screen.height == screen_before.height
        &&& screen.saved_row == screen_before.row
        &&& screen.saved_col == screen_before.col
        &&& self.dashboard.state == EditorState::of_mode(mode)
        &&& self.dashboard.previous_state == before.dashboard.remembered(
            EditorState::of_mode(mode),
        )
        &&& self.dashboard.cursor_pos == before.dashboard.cursor_pos
        &&& self.components.file_opener == before.components.file_opener
        &&& self.components.helper == before.components.helper
        &&& match mode {
            EditorMode::Saving => {
                &&& self.components.file_saver.editor_content@ == joined(before.text())
                &&& self.components.file_saver.comp.text_area.on(screen)
                    == before.components.file_saver.comp.text_area.on(
                    screen_before,
                ).refreshed().at_end()
                &&& self.components.finder == before.components.finder
                &&& self.components.positioner == before.components.positioner
            },
            EditorMode::Finding => {
                &&& self.components.finder.match_list.items().len() == 0
                &&& self.components.finder.match_list.position() == -1
                &&& self.components.finder.history == before.components.finder.history
                &&& self.components.finder.comp.text_area.on(screen)
                    == before.components.finder.comp.text_area.on(
                    screen_before,
                ).refreshed().at_end()
                &&& self.components.file_saver == before.components.file_saver
                &&& self.components.positioner == before.components.positioner
            },
            _ => {
                &&& (
                    self.components.positioner.target.row as int,
                    self.components.positioner.target.col as int,
                ) == before.position(screen_before)
                &&& self.components.positioner.comp.text_area.placeholder@
                    == self.components.positioner.target.short_text()
                &&& self.components.positioner.comp.text_area.on(screen)
                    == before.components.positioner.comp.text_area.on(
                    screen_before,
                ).refreshed().at_end()
                &&& self.components.file_saver == before.components.file_saver
                &&& self.components.finder == before.components.finder
            },
        }
    }

    /// `drawn` is what the prompt of the current mode shows on `screen`.
    pub open spec fn draws_prompt(&self, drawn: &RenderedPrompt, screen: &Screen) -> bool {
        match self.mode {
            EditorMode::Normal => false,
            EditorMode::Saving => self.components.file_saver.comp.draws(drawn, screen),
            EditorMode::Finding => self.components.finder.comp.draws(drawn, screen),
            EditorMode::Positioning => self.components.positioner.comp.draws(drawn, screen),
        }
    }

    /// Opens the prompt of `mode` over the document.
    pub fn open_mode(&mut self, mode: EditorMode, screen: &mut Screen) -> (drawn: RenderedPrompt)
        requires
            old(self).in_order(old(screen)),
            old(self).mode == EditorMode::Normal,
            mode != EditorMode::Normal,
        ensures
            final(self).in_order(final(screen)),
            final(self).mode_opened(old(self), mode, old(screen), final(screen)),
            final(self).draws_prompt(&drawn, final(screen)),
    {
        proof {
            let saved = Screen { saved_row: screen.row, saved_col: screen.col, ..*screen };
            self.lemma_wf_same_cursor(screen, &saved);
        }
        screen.save_pos();
        self.mode = mode;
        self.dashboard.set_state(EditorState::from_mode(mode), screen);
        let drawn = match mode {
            EditorMode::Saving => {
                let current_content = self.content();
                self.components.file_saver.set_content(current_content);
                self.components.file_saver.open(screen)
            },
            EditorMode::Finding => {
                let drawn = self.components.finder.open(screen);
                self.components.finder.clear();
                drawn
            },
            _ => {
                let current_cursor_pos = self.cursor_pos(screen);
                self.components.positioner.set_cursor_pos(current_cursor_pos);
                self.components.positioner.open(screen)
            },
        };
        proof {
            let seen = self.document_screen(screen);
            old(self).lemma_wf_same_cursor(old(screen), &seen);
            assert(self.viewport(&seen) == old(self).viewport(old(screen)));
        }
        drawn
    }

    /// Every line has the field on `screen`, the placeholder and the mark
    /// of the active line that it has in `before`.
    pub open spec fn same_fields(&self, before: &Editor, screen: &Screen) -> bool {
        &&& self.lines@.len() == before.lines@.len()
        &&& forall|i: int|
            0 <= i < self.lines@.len() ==> {
                &&& (#[trigger] self.lines@[i]).on(screen) == before.lines@[i].on(screen)
                &&& self.lines@[i].text_area.placeholder == before.lines@[i].text_area.placeholder
                &&& self.lines@[i].is_active == before.lines@[i].is_active
            }
    }

    /// What `close_mode` makes of the editor `before` on `screen_before`:
    /// `self` on `screen`. The mode is normal, the cursor is back where
    /// it stood when the prompt opened, and the status bar shows again
    /// what it showed before. The text is as it was.
    pub open spec fn mode_closed(&self, before: &Editor, screen_before: &Screen, screen: &Screen) -> bool {
        &&& self.mode == EditorMode::Normal
        &&& self.text() == before.text()
        &&& self.same_fields(before, screen)
        &&& self.viewport(screen) == before.viewport(&before.document_screen(screen_before))
        &&& self.position(screen) == before.position(&before.document_screen(screen_before))
        &&& *screen == (Screen {
            row: screen_before.saved_row,
            col: screen_before.saved_col,
            ..*screen_before
        })
        &&& self.components == before.components
        &&& self.dashboard.state == before.dashboard.previous_state
        &&& self.dashboard.previous_state == before.dashboard.previous_state
        &&& self.dashboard.cursor_pos == before.dashboard.cursor_pos
    }

    /// Closes the open prompt. Hands back what the line draws that the
    /// prompt had covered; `None` where it had covered a row without a
    /// line.
    pub fn close_mode(&mut self, screen: &mut Screen) -> (covered: Option<RenderedLine>)
        requires
            old(self).in_order(old(screen)),
            old(self).mode != EditorMode::Normal,
        ensures
            final(self).in_order(final(screen)),
            final(self).mode_closed(old(self), old(screen), final(screen)),
            covered.is_some() == (old(screen).row + old(self).overflow_top - 1 < old(
                self,
            ).lines@.len()),
            covered.is_some() ==> final(self).draws_line(
                &covered.unwrap(),
                old(screen).row + old(self).overflow_top - 1,
                final(screen),
            ),
    {
        // restore the covered line
        let label_width = self.label_width();
        let ghost seen = self.document_screen(screen);
        let offset = screen.pos_row() - 1;
        let covered = if offset < self.lines.len() - self.overflow_top {
            let covered_pos = offset + self.overflow_top;
            proof {
                lemma_digit_count_monotonic((covered_pos + 1) as nat, self.lines@.len());
                let line = self.lines@[covered_pos as int];
                assert(line_ok(line, screen.width as int, label_width as int));
                lemma_refreshed(line.on(screen));
            }
            Some(self.lines[covered_pos].render(covered_pos + 1, label_width, screen))
        } else {
            None
        };
        assert(self.text() =~= old(self).text());
        assert(self.lines_ok(&seen)) by {
            assert forall|i: int| 0 <= i < self.lines@.len() implies line_ok(
                #[trigger] self.lines@[i],
                seen.width as int,
                self.spec_label_width(),
            ) by {
                assert(line_ok(old(self).lines@[i], seen.width as int, label_width as int));
            }
        }
        assert(self.lines@[self.current_row - 1].on(&seen) == old(self).lines@[self.current_row
            - 1].on(&seen));
        screen.restore_pos();
        self.mode = EditorMode::Normal;
        self.dashboard.restore_state(screen);
        proof {
            self.lemma_wf_same_cursor(&seen, screen);
        }
        covered
    }

    /// What `toggle_mode` makes of the editor `before` on
    /// `screen_before`: in normal mode the prompt of `mode` opens; in
    /// mode `mode` its prompt closes; in any other mode nothing changes.
    pub open spec fn toggled(
        &self,
        before: &Editor,
        mode: EditorMode,
        screen_before: &Screen,
        screen: &Screen,
    ) -> bool {
        if before.mode == EditorMode::Normal {
            self.mode_opened(before, mode, screen_before, screen)
        } else if before.mode == mode {
            self.mode_closed(before, screen_before, screen)
        } else {
            *self == *before && *screen == *screen_before
        }
    }

    /// Opens the prompt of `mode`, or closes it if it is open.
    pub fn toggle_mode(&mut self, mode: EditorMode, screen: &mut Screen) -> (change: ModeChange)
        requires
            old(self).in_order(old(screen)),
            mode != EditorMode::Normal,
        ensures
            final(self).in_order(final(screen)),
            final(self).toggled(old(self), mode, old(screen), final(screen)),
            old(self).mode == EditorMode::Normal ==> change is Opened && final(self).draws_prompt(
                &change->Opened_0,
                final(screen),
            ),
            old(self).mode == mode ==> change is Closed && (change->Closed_0).is_some() == (old(
                screen,
            ).row + old(self).overflow_top - 1 < old(self).lines@.len()) && ((
            change->Closed_0).is_some() ==> final(self).draws_line(
                &(change->Closed_0).unwrap(),
                old(screen).row + old(self).overflow_top - 1,
                final(screen),
            )),
            old(self).mode != EditorMode::Normal && old(self).mode != mode ==> change is Unchanged,
    {
        if self.mode == EditorMode::Normal {
            ModeChange::Opened(self.open_mode(mode, screen))
        } else if self.mode == mode {
            ModeChange::Closed(self.close_mode(screen))
        } else {
            ModeChange::Unchanged
        }
    }
}

/// A character of the first 128, which the document takes.
pub open spec fn is_ascii_char(ch: char) -> bool {
    (ch as u32) < 128
}

fn char_is_ascii(ch: char) -> (ascii: bool)
    ensures
        ascii == is_ascii_char(ch),
{
    (ch as u32) < 128
}

/// What one key press leaves for the front end to do: to quit, or to
/// write the text to a file.
pub struct CycleOutcome {
    pub quit: bool,
    pub save: Option<SaveRequest>,
}

// callback resolver methods
impl Editor {
    /// The places where the text in the find prompt stands in the
    /// document.
    pub open spec fn fresh_matches(&self) -> Seq<(int, int)> {
        Self::matches_upto(
            self.text(),
            self.components.finder.comp.text_area.content@,
            self.lines@.len() as int,
        )
    }

    /// A search is made anew: Enter is pressed alone while there is no
    /// list of matches, and the search finds something.
    pub open spec fn searches_anew(&self, key: KeyEvent) -> bool {
        &&& key.is_plain_enter()
        &&& self.components.finder.match_list.items().len() == 0
        &&& 0 < self.fresh_matches().len() <= isize::MAX
    }

    /// The index, in the list of matches, of the match that the key
    /// leads to: Enter steps forward, through a list made anew from its
    /// first match on; Enter with shift steps backward; any other key
    /// leads nowhere.
    pub open spec fn find_target_index(&self, key: KeyEvent) -> Option<int> {
        let list = self.components.finder.match_list;
        if key.is_plain_enter() {
            if list.items().len() == 0 {
                if self.searches_anew(key) {
                    Some(0)
                } else {
                    None
                }
            } else {
                list.position_after_next()
            }
        } else if key.is_shift_enter() {
            list.position_after_previous()
        } else {
            None
        }
    }

    /// What `find_step` makes of the editor `before` on `screen_before`:
    /// `self` on `screen`.
    pub open spec fn find_resolved(
        &self,
        before: &Editor,
        key: KeyEvent,
        screen_before: &Screen,
        screen: &Screen,
    ) -> bool {
        let finder = self.components.finder;
        let places = finder.match_list.items().map_values(
            |pos: EditorCursorPos| (pos.row as int, pos.col as int),
        );
        &&& self.mode == EditorMode::Finding
        &&& self.text() == before.text()
        &&& self.same_marks(before)
        &&& self.dashboard == before.dashboard
        &&& self.components.file_saver == before.components.file_saver
        &&& self.components.file_opener == before.components.file_opener
        &&& self.components.positioner == before.components.positioner
        &&& self.components.helper == before.components.helper
        &&& finder.history == before.components.finder.history
        &&& screen.width == screen_before.width
        &&& screen.height == screen_before.height
        &&& if before.searches_anew(key) {
            places == before.fresh_matches()
        } else {
            finder.match_list.items() == before.components.finder.match_list.items()
        }
        &&& match before.find_target_index(key) {
            None => {
                &&& self.lines == before.lines
                &&& self.viewport(&self.document_screen(screen)) == before.viewport(
                    &before.document_screen(screen_before),
                )
                &&& finder.comp == before.components.finder.comp
                &&& finder.match_list.position() == before.components.finder.match_list.position()
                &&& *screen == *screen_before
            },
            Some(i) => {
                &&& 0 <= i < places.len()
                &&& finder.match_list.position() == i
                &&& self.position(&self.document_screen(screen)) == if Self::valid_position(
                    before.text(),
                    places[i].0,
                    places[i].1,
                ) {
                    places[i]
                } else {
                    before.position(&before.document_screen(screen_before))
                }
                &&& finder.comp.text_area.on(screen) == before.components.finder.comp.text_area.on(
                    screen_before,
                ).refreshed().at_end()
            },
        }
    }

    /// Picks the match that `key` leads to in the find prompt, as
    /// `find_target_index` says, after searching the document anew where
    /// there is no list of matches. Nothing but the list of matches and
    /// the position in it changes.
    fn choose_match(&mut self, key: KeyEvent, screen: &Screen) -> (chosen: Option<EditorCursorPos>)
        requires
            old(self).in_order(screen),
            old(self).mode == EditorMode::Finding,
        ensures
            final(self).in_order(screen),
            final(self).lines == old(self).lines,
            final(self).current_row == old(self).current_row,
            final(self).overflow_top == old(self).overflow_top,
            final(self).overflow_bottom == old(self).overflow_bottom,
            final(self).mode == old(self).mode,
            final(self).dashboard == old(self).dashboard,
            final(self).components.file_saver == old(self).components.file_saver,
            final(self).components.file_opener == old(self).components.file_opener,
            final(self).components.positioner == old(self).components.positioner,
            final(self).components.helper == old(self).components.helper,
            final(self).components.use_line_component == old(self).components.use_line_component,
            final(self).components.use_screen_component == old(
                self,
            ).components.use_screen_component,
            final(self).components.finder.history == old(self).components.finder.history,
            final(self).components.finder.comp == old(self).components.finder.comp,
            if old(self).searches_anew(key) {
                final(self).components.finder.match_list.items().map_values(
                    |pos: EditorCursorPos| (pos.row as int, pos.col as int),
                ) == old(self).fresh_matches()
            } else {
                final(self).components.finder.match_list.items() == old(
                    self,
                ).components.finder.match_list.items()
            },
            match old(self).find_target_index(key) {
                None => {
                    &&& chosen.is_none()
                    &&& final(self).components.finder.match_list.position() == old(
                        self,
                    ).components.finder.match_list.position()
                },
                Some(i) => {
                    &&& 0 <= i < final(self).components.finder.match_list.items().len()
                    &&& final(self).components.finder.match_list.position() == i
                    &&& chosen == Some(final(self).components.finder.match_list.items()[i])
                },
            },
    {
        let ghost seen = self.document_screen(screen);
        if Finder::is_finding_key(key) {
            if self.components.finder.is_empty() {
                let target_content = self.components.finder.content();
                assert forall|i: int| 0 <= i < self.lines@.len() implies self.text()[i].len()
                    < usize::MAX by {
                    assert(line_ok(self.lines@[i], seen.width as int, self.spec_label_width()));
                }
                if let Some(pos_list) = self.search(target_content.as_str()) {
                    if pos_list.len() <= isize::MAX as usize {
                        self.components.finder.set_matches(pos_list);
                    }
                }
            }
            match self.components.finder.next() {
                Some(pos) => Some(*pos),
                None => None,
            }
        } else if Finder::is_reverse_finding_key(key) {
            match self.components.finder.previous() {
                Some(pos) => Some(*pos),
                None => None,
            }
        } else {
            None
        }
    }

    /// What Enter does while the find prompt is open. Pressed alone it
    /// steps to the next match, and first searches the document for the
    /// text in the prompt if there is no list of matches; pressed with
    /// shift it steps to the match before. The cursor of the document
    /// goes to the match reached, and the prompt opens again.
    pub fn find_step(&mut self, key: KeyEvent, screen: &mut Screen)
        requires
            old(self).in_order(old(screen)),
            old(self).mode == EditorMode::Finding,
        ensures
            final(self).in_order(final(screen)),
            final(self).find_resolved(old(self), key, old(screen), final(screen)),
    {
        let ghost seen = self.document_screen(screen);
        let chosen = self.choose_match(key, screen);
        assert(self.same_marks(old(self)));
        if let Some(pos) = chosen {
            screen.restore_pos();
            proof {
                self.lemma_wf_same_cursor(&seen, screen);
            }
            self.jump_to_target_pos(pos, screen);
            screen.save_pos();
            proof {
                let now = self.document_screen(screen);
                let jumped = Screen {
                    saved_row: old(screen).saved_row,
                    saved_col: old(screen).saved_col,
                    ..*screen
                };
                self.lemma_wf_same_cursor(&jumped, &now);
            }
            self.components.finder.open(screen);
            proof {
                let now = self.document_screen(screen);
                let jumped = Screen {
                    row: screen.saved_row,
                    col: screen.saved_col,
                    saved_row: old(screen).saved_row,
                    saved_col: old(screen).saved_col,
                    ..*screen
                };
                self.lemma_wf_same_cursor(&jumped, &now);
            }
        }
    }

    /// What Enter makes of the editor `before` on `screen_before` while
    /// the position prompt is open: `self` on `screen`. The prompt is
    /// closed, and the cursor of the document stands at the prompt's
    /// target if that is a place in the document; the status bar then
    /// shows the target.
    pub open spec fn positioned(&self, before: &Editor, screen_before: &Screen, screen: &Screen) -> bool {
        let target = before.components.positioner.target;
        &&& self.mode == EditorMode::Normal
        &&& self.text() == before.text()
        &&& self.components == before.components
        &&& screen.width == screen_before.width
        &&& screen.height == screen_before.height
        &&& self.dashboard.state == before.dashboard.previous_state
        &&& self.dashboard.previous_state == before.dashboard.previous_state
        &&& if Self::valid_position(before.text(), target.row as int, target.col as int) {
            &&& self.position(screen) == (target.row as int, target.col as int)
            &&& self.dashboard.cursor_pos.row == target.row
            &&& self.dashboard.cursor_pos.col == target.col
        } else {
            &&& self.position(screen) == before.position(&before.document_screen(screen_before))
            &&& self.viewport(screen) == before.viewport(&before.document_screen(screen_before))
            &&& self.dashboard.cursor_pos == before.dashboard.cursor_pos
            &&& *screen == (Screen {
                row: screen_before.saved_row,
                col: screen_before.saved_col,
                ..*screen_before
            })
        }
    }

    /// What `callbacks_resolve` makes of the editor `before` on
    /// `screen_before`: `self` on `screen`.
    pub open spec fn callbacks_resolved(
        &self,
        before: &Editor,
        key: KeyEvent,
        screen_before: &Screen,
        screen: &Screen,
    ) -> bool {
        match before.mode {
            EditorMode::Saving => {
                &&& self.lines == before.lines
                &&& self.current_row == before.current_row
                &&& self.overflow_top == before.overflow_top
                &&& self.overflow_bottom == before.overflow_bottom
                &&& self.mode == before.mode
                &&& self.components == before.components
                &&& *screen == *screen_before
                &&& self.dashboard.cursor_pos == before.dashboard.cursor_pos
                &&& if key.is_plain_enter() {
                    &&& self.dashboard.state == EditorState::Saved
                    &&& self.dashboard.previous_state == EditorState::Saved
                } else {
                    &&& self.dashboard.state == before.dashboard.state
                    &&& self.dashboard.previous_state == before.dashboard.previous_state
                }
            },
            EditorMode::Finding => self.find_resolved(before, key, screen_before, screen),
            EditorMode::Positioning => if key.is_plain_enter() {
                self.positioned(before, screen_before, screen)
            } else {
                *self == *before && *screen == *screen_before
            },
            EditorMode::Normal => *self == *before && *screen == *screen_before,
        }
    }

    /// What follows a key in an open prompt, once the prompt has taken
    /// it. In the save prompt Enter marks the text as saved. In the find
    /// prompt Enter steps through the matches. In the position prompt
    /// Enter closes the prompt and moves the cursor to the target.
    pub fn callbacks_resolve(&mut self, key: KeyEvent, screen: &mut Screen)
        requires
            old(self).in_order(old(screen)),
        ensures
            final(self).in_order(final(screen)),
            final(self).callbacks_resolved(old(self), key, old(screen), final(screen)),
    {
        match self.mode {
            EditorMode::Saving => {
                if FileSaver::is_save_callback_key(key) {
                    self.dashboard.set_state(EditorState::Saved, screen);
                }
            },
            EditorMode::Finding => {
                self.find_step(key, screen);
            },
            EditorMode::Positioning => {
                if Positioner::is_positioning_key(key) {
                    self.toggle_mode(EditorMode::Positioning, screen);

                    let target_pos = self.components.positioner.get_target();
                    if self.check_cursor_pos(target_pos) {
                        self.jump_to_target_pos(target_pos, screen);
                        self.dashboard.set_cursor_pos(target_pos.row, target_pos.col, screen);
                    }
                }
            },
            EditorMode::Normal => {},
        }
    }
}

// the driver's decisions
impl Editor {
    /// The status bar shows the place where the cursor of the document
    /// stands on `screen`.
    pub open spec fn shows_position(&self, screen: &Screen) -> bool {
        (self.dashboard.cursor_pos.row as int, self.dashboard.cursor_pos.col as int)
            == self.position(screen)
    }

    /// The status bar says that the text is modified.
    pub open spec fn shows_modified(&self) -> bool {
        &&& self.dashboard.state == EditorState::Modified
        &&& self.dashboard.previous_state == EditorState::Modified
    }

    /// What `normal_key` makes of the editor `before` on `screen_before`:
    /// `self` on `screen`. Escape quits and changes nothing. The arrows
    /// move the cursor. Backspace deletes backward, Enter breaks the
    /// line, a character of the first 128 is put in, each unless the
    /// machine's limits forbid it; all three mark the text as modified.
    /// After every key but Escape and a character that is not taken, the
    /// status bar shows the place of the cursor.
    pub open spec fn normal_resolved(
        &self,
        before: &Editor,
        key: KeyEvent,
        screen_before: &Screen,
        screen: &Screen,
        quit: bool,
    ) -> bool {
        let text = before.text();
        let (row, col) = before.position(screen_before);
        let untouched = {
            &&& self.lines == before.lines
            &&& self.text() == text
            &&& self.position(screen) == (row, col)
            &&& self.viewport(screen) == before.viewport(screen_before)
            &&& *screen == *screen_before
        };
        &&& quit == (key.code == KeyCode::Esc)
        &&& self.mode == EditorMode::Normal
        &&& self.components == before.components
        &&& screen.width == screen_before.width
        &&& screen.height == screen_before.height
        &&& screen.saved_row == screen_before.saved_row
        &&& screen.saved_col == screen_before.saved_col
        &&& match key.code {
            KeyCode::Esc => *self == *before && *screen == *screen_before,
            KeyCode::Up => {
                &&& self.text() == text
                &&& self.viewport(screen) == before.viewport(screen_before).up()
                &&& screen.col == before.col_after_vertical(Direction::Up, screen_before)
                &&& self.same_fields(before, screen)
                &&& self.dashboard.state == before.dashboard.state
                &&& self.shows_position(screen)
            },
            KeyCode::Down => {
                &&& self.text() == text
                &&& self.viewport(screen) == before.viewport(screen_before).down()
                &&& screen.col == before.col_after_vertical(Direction::Down, screen_before)
                &&& self.same_fields(before, screen)
                &&& self.dashboard.state == before.dashboard.state
                &&& self.shows_position(screen)
            },
            KeyCode::Left => {
                &&& self.text() == text
                &&& self.viewport(screen) == before.horizontal_target(Direction::Left, screen_before)
                &&& self.position(screen) == before.position_after_step(
                    Direction::Left,
                    screen_before,
                )
                &&& !before.crosses_line(Direction::Left, screen_before) ==> self.current_field(
                    screen,
                ) == before.current_field(screen_before).step(Direction::Left)
                &&& self.same_lines_except(before, self.current_row - 1)
                &&& self.dashboard.state == before.dashboard.state
                &&& self.shows_position(screen)
            },
            KeyCode::Right => {
                &&& self.text() == text
                &&& self.viewport(screen) == before.horizontal_target(
                    Direction::Right,
                    screen_before,
                )
                &&& self.position(screen) == before.position_after_step(
                    Direction::Right,
                    screen_before,
                )
                &&& !before.crosses_line(Direction::Right, screen_before) ==> self.current_field(
                    screen,
                ) == before.current_field(screen_before).step(Direction::Right)
                &&& self.same_lines_except(before, self.current_row - 1)
                &&& self.dashboard.state == before.dashboard.state
                &&& self.shows_position(screen)
            },
            KeyCode::Backspace => {
                &&& self.shows_modified()
                &&& self.shows_position(screen)
                &&& if col > 1 {
                    &&& self.text() == text.update(row - 1, text[row - 1].remove(col - 2))
                    &&& self.position(screen) == (row, col - 1)
                    &&& self.viewport(screen) == before.viewport(screen_before)
                    &&& self.current_field(screen) == before.current_field(screen_before).delete()
                    &&& self.same_lines_except(before, row - 1)
                } else if row > 1 && before.join_fits() {
                    &&& self.text() == Self::merged_text(text, row - 1)
                    &&& self.position(screen) == (row - 1, text[row - 2].len() as int + 1)
                    &&& self.viewport(screen) == before.viewport(screen_before).line_removed()
                } else {
                    untouched
                }
            },
            KeyCode::Enter => {
                &&& self.shows_modified()
                &&& self.shows_position(screen)
                &&& if before.split_fits(screen_before) {
                    &&& self.text() == Self::split_text(text, row - 1, col - 1)
                    &&& self.position(screen) == (row + 1, 1int)
                    &&& self.viewport(screen) == before.viewport(screen_before).line_added()
                } else {
                    untouched
                }
            },
            KeyCode::Char(ch) => {
                &&& self.shows_modified()
                &&& if is_ascii_char(ch) && text[row - 1].len() + 1 < usize::MAX {
                    &&& self.text() == text.update(row - 1, text[row - 1].insert(col - 1, ch))
                    &&& self.position(screen) == (row, col + 1)
                    &&& self.viewport(screen) == before.viewport(screen_before)
                    &&& self.current_field(screen) == before.current_field(screen_before).insert(
                        ch,
                    )
                    &&& self.same_lines_except(before, row - 1)
                    &&& self.shows_position(screen)
                } else {
                    &&& untouched
                    &&& is_ascii_char(ch) ==> self.shows_position(screen)
                    &&& !is_ascii_char(ch) ==> self.dashboard.cursor_pos
                        == before.dashboard.cursor_pos
                }
            },
            KeyCode::Other => {
                &&& untouched
                &&& self.dashboard.state == before.dashboard.state
                &&& self.shows_position(screen)
            },
        }
    }

    /// What a key does in normal mode. Tells whether the editor is to
    /// quit.
    pub fn normal_key(&mut self, key: KeyEvent, screen: &mut Screen) -> (quit: bool)
        requires
            old(self).in_order(old(screen)),
            old(self).mode == EditorMode::Normal,
        ensures
            final(self).in_order(final(screen)),
            final(self).normal_resolved(old(self), key, old(screen), final(screen), quit),
    {
        proof {
            crate::editor::text_area::model::lemma_area_bounds(self.current_field(screen));
        }
        match key.code {
            // input `Escape` to exit
            KeyCode::Esc => {
                return true;
            },
            KeyCode::Up | KeyCode::Down => {
                self.move_cursor_vertical(Direction::from(key.code), screen);
                self.render_all(screen);
            },
            KeyCode::Left | KeyCode::Right => {
                self.move_cursor_horizontal(Direction::from(key.code), screen);
            },
            KeyCode::Backspace => {
                self.dashboard.set_state(EditorState::Modified, screen);
                let row = self.current_row - 1;
                let fits = if self.lines[row].is_at_line_start(screen) && row >= 1 {
                    self.lines[row - 1].len() < usize::MAX - self.lines[row].len()
                } else {
                    true
                };
                if fits {
                    self.delete(screen);
                }
            },
            KeyCode::Enter => {
                self.dashboard.set_state(EditorState::Modified, screen);
                let count = self.lines.len();
                if count < usize::MAX && self.label_width_with(count + 1) < screen.width() {
                    self.insert_line(screen);
                }
            },
            KeyCode::Char(ch) => {
                self.dashboard.set_state(EditorState::Modified, screen);
                if !char_is_ascii(ch) {
                    // avoid Non-ASCII characters
                    return false;
                }
                if self.lines[self.current_row - 1].len() < usize::MAX - 1 {
                    self.insert_char(ch, screen);
                }
            },
            _ => {},
        }
        self.dashboard_cursor_pos_refresh(screen);
        false
    }

    /// The editor `mid` on `mid_screen` is `self` on `screen_before` after
    /// the open prompt has taken `key`; nothing but the components has
    /// changed.
    pub open spec fn handed_to_component(
        &self,
        mid: &Editor,
        key: KeyEvent,
        screen_before: &Screen,
        mid_screen: &Screen,
        request: Option<SaveRequest>,
    ) -> bool {
        &&& mid.lines == self.lines
        &&& mid.current_row == self.current_row
        &&& mid.overflow_top == self.overflow_top
        &&& mid.overflow_bottom == self.overflow_bottom
        &&& mid.mode == self.mode
        &&& mid.dashboard == self.dashboard
        &&& mid.components.resolved(
            &self.components,
            EditorState::of_mode(self.mode),
            key,
            screen_before,
            mid_screen,
            request,
        )
    }

    /// What `cycle` makes of the editor `before` on `screen_before`:
    /// `self` on `screen`. A key pressed with control toggles a mode: `s`
    /// the save prompt, `f` the find prompt, `g` the position prompt.
    /// While a prompt is open, Escape closes it, and any other key goes
    /// to the prompt and then to the callbacks. In normal mode the key
    /// acts on the document.
    pub open spec fn cycle_resolved(
        &self,
        before: &Editor,
        key: KeyEvent,
        screen_before: &Screen,
        screen: &Screen,
        outcome: CycleOutcome,
    ) -> bool {
        if key.modifiers == KeyModifiers::Control {
            &&& !outcome.quit
            &&& outcome.save.is_none()
            &&& match key.code {
                KeyCode::Char(ch) => if ch == 's' {
                    self.toggled(before, EditorMode::Saving, screen_before, screen)
                } else if ch == 'f' {
                    self.toggled(before, EditorMode::Finding, screen_before, screen)
                } else if ch == 'g' {
                    self.toggled(before, EditorMode::Positioning, screen_before, screen)
                } else {
                    *self == *before && *screen == *screen_before
                },
                _ => *self == *before && *screen == *screen_before,
            }
        } else if before.mode != EditorMode::Normal {
            &&& !outcome.quit
            &&& if key.code == KeyCode::Esc {
                outcome.save.is_none() && self.mode_closed(before, screen_before, screen)
            } else {
                exists|mid: Editor, mid_screen: Screen|
                    {
                        &&& #[trigger] before.handed_to_component(
                            &mid,
                            key,
                            screen_before,
                            &mid_screen,
                            outcome.save,
                        )
                        &&& self.callbacks_resolved(&mid, key, &mid_screen, screen)
                    }
            }
        } else {
            &&& outcome.save.is_none()
            &&& self.normal_resolved(before, key, screen_before, screen, outcome.quit)
        }
    }

    /// Takes one key press: the step that the driver repeats until the
    /// outcome says to quit. Where the outcome holds a request to save,
    /// the front end writes the text to the file.
    pub fn cycle(&mut self, key: KeyEvent, screen: &mut Screen) -> (outcome: CycleOutcome)
        requires
            old(self).in_order(old(screen)),
        ensures
            final(self).in_order(final(screen)),
            final(self).cycle_resolved(old(self), key, old(screen), final(screen), outcome),
    {
        // ctrl shortcuts
        if key.modifiers == KeyModifiers::Control {
            if let KeyCode::Char(ch) = key.code {
                if ch == 's' {
                    self.toggle_mode(EditorMode::Saving, screen);
                } else if ch == 'f' {
                    self.toggle_mode(EditorMode::Finding, screen);
                } else if ch == 'g' {
                    self.toggle_mode(EditorMode::Positioning, screen);
                }
            }
            return CycleOutcome { quit: false, save: None };
        }
        if self.mode != EditorMode::Normal {
            if key.code == KeyCode::Esc {
                // use key `Esc` to restore to normal mode
                self.close_mode(screen);
                return CycleOutcome { quit: false, save: None };
            }
            let save = self.components.resolve(EditorState::from_mode(self.mode), key, screen);
            let ghost mid = *self;
            let ghost mid_screen = *screen;
            proof {
                let seen = old(self).document_screen(old(screen));
                let now = self.document_screen(screen);
                self.lemma_wf_same_cursor(&seen, &now);
                assert(old(self).handed_to_component(&mid, key, old(screen), &mid_screen, save));
            }
            self.callbacks_resolve(key, screen);
            return CycleOutcome { quit: false, save };
        }
        // will enter matches in normal mode

        let quit = self.normal_key(key, screen);
        CycleOutcome { quit, save: None }
    }
}

/// Breaking a line with Enter and deleting backward right after gives
/// back the text of the document and the place of the cursor.
pub proof fn lemma_enter_then_backspace(
    start: Editor,
    screen: Screen,
    enter: KeyEvent,
    broken: Editor,
    broken_screen: Screen,
    backspace: KeyEvent,
    joined: Editor,
    joined_screen: Screen,
)
    requires
        start.mode == EditorMode::Normal,
        start.in_order(&screen),
        start.split_fits(&screen),
        enter.code == KeyCode::Enter,
        backspace.code == KeyCode::Backspace,
        broken.in_order(&broken_screen),
        broken.normal_resolved(&start, enter, &screen, &broken_screen, false),
        joined.normal_resolved(&broken, backspace, &broken_screen, &joined_screen, false),
    ensures
        joined.text() == start.text(),
        joined.position(&joined_screen) == start.position(&screen),
{
    let text = start.text();
    let (row, col) = start.position(&screen);
    let line = start.lines@[row - 1];
    assert(line_ok(line, screen.width as int, start.spec_label_width()));
    assert(text[row - 1] == line.text());
    crate::editor::document::lemma_split_then_merge(text, row - 1, col - 1);
    let split = broken.text();
    assert(split[row].len() == text[row - 1].len() - (col - 1));
    assert(broken.current_row == row + 1);
    assert(broken.join_fits());
}

/// Putting a character in and deleting backward right after gives back
/// the text of the document and the place of the cursor.
pub proof fn lemma_character_then_backspace(
    start: Editor,
    screen: Screen,
    character: KeyEvent,
    typed: Editor,
    typed_screen: Screen,
    backspace: KeyEvent,
    erased: Editor,
    erased_screen: Screen,
)
    requires
        start.mode == EditorMode::Normal,
        start.in_order(&screen),
        character.code is Char,
        is_ascii_char(character.code->Char_0),
        start.current_field(&screen).len() + 1 < usize::MAX,
        backspace.code == KeyCode::Backspace,
        typed.normal_resolved(&start, character, &screen, &typed_screen, false),
        erased.normal_resolved(&typed, backspace, &typed_screen, &erased_screen, false),
    ensures
        erased.text() == start.text(),
        erased.position(&erased_screen) == start.position(&screen),
{
    let text = start.text();
    let (row, col) = start.position(&screen);
    let ch = character.code->Char_0;
    assert(text[row - 1] == start.lines@[row - 1].text());
    let grown = text[row - 1].insert(col - 1, ch);
    assert(grown.remove(col - 1) =~= text[row - 1]);
    assert(text.update(row - 1, grown).update(row - 1, text[row - 1]) =~= text);
}

} // verus!
