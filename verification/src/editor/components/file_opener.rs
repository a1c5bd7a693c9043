use vstd::prelude::*;
use crate::editor::components::base::controller::{LineComponentController, RenderedPrompt};
use crate::editor::key::{KeyCode, KeyEvent, KeyModifiers};
use crate::editor::text_area::TextArea;
use crate::utils::screen::Screen;

verus! {

/// The prompt that asks which file to open.
pub struct FileOpener {
    pub comp: LineComponentController,
}

impl FileOpener {
    /// An open prompt in the second row of the terminal, with an empty
    /// field.
    pub fn new() -> (opener: Self)
        ensures
            opener.comp.framed(),
            opener.comp.prompt@ == "Path: "@,
            opener.comp.prompt@.len() == 6,
            opener.comp.button@ == "[Enter]"@,
            opener.comp.button@.len() == 7,
            opener.comp.position == 1,
            opener.comp.editable,
            opener.comp.text_area.content@.len() == 0,
            opener.comp.text_area.placeholder@.len() == 0,
            opener.comp.text_area.overflow_left == 0,
            opener.comp.text_area.overflow_right == 0,
    {
        proof {
            reveal_strlit("Path: ");
            reveal_strlit("[Enter]");
        }
        Self { comp: LineComponentController::new("Path: ", "[Enter]", 1, true) }
    }

    /// The path in the field.
    pub fn get_file_path(&mut self) -> (path: String)
        ensures
            path@ == old(self).comp.text_area.content@,
            *final(self) == *old(self),
    {
        self.comp.text_area.content()
    }

    pub fn is_open_file_callback_key(key: KeyEvent) -> (is_callback: bool)
        ensures
            is_callback == key.is_plain_enter(),
    {
        key.modifiers == KeyModifiers::Plain && key.code == KeyCode::Enter
    }

    /// Puts `path` in the field.
    pub fn set_path(&mut self, path: &str, screen: &Screen)
        requires
            old(self).comp.text_area.on(screen).fits(),
        ensures
            final(self).comp.text_area.on(screen) == old(self).comp.text_area.on(
                screen,
            ).with_content(path@),
            final(self).comp.text_area.balanced(screen),
            final(self).comp.text_area.placeholder == old(self).comp.text_area.placeholder,
            final(self).comp.prompt == old(self).comp.prompt,
            final(self).comp.button == old(self).comp.button,
            final(self).comp.position == old(self).comp.position,
            final(self).comp.editable == old(self).comp.editable,
    {
        self.comp.text_area.set_content(path, screen);
    }

    pub fn open(&mut self, screen: &mut Screen) -> (drawn: RenderedPrompt)
        requires
            old(self).comp.fits(old(screen)),
        ensures
            final(self).comp.wf(final(screen)),
            final(self).comp.text_area.on(final(screen)) == old(self).comp.text_area.on(
                old(screen),
            ).refreshed().at_end(),
            final(self).comp.text_area.placeholder == old(self).comp.text_area.placeholder,
            final(self).comp.prompt == old(self).comp.prompt,
            final(self).comp.button == old(self).comp.button,
            final(self).comp.position == old(self).comp.position,
            final(self).comp.editable == old(self).comp.editable,
            *final(screen) == (Screen {
                row: final(screen).row,
                col: final(screen).col,
                ..*old(screen)
            }),
            final(self).comp.draws(&drawn, final(screen)),
    {
        self.comp.open(screen)
    }

    /// What `key_resolve` makes of the prompt `before` on `screen_before`
    /// when it is given `key`: `self` on `screen`.
    pub open spec fn resolved(
        &self,
        before: &FileOpener,
        key: KeyEvent,
        screen_before: &Screen,
        screen: &Screen,
    ) -> bool {
        &&& self.comp.prompt == before.comp.prompt
        &&& self.comp.button == before.comp.button
        &&& self.comp.position == before.comp.position
        &&& self.comp.editable == before.comp.editable
        &&& self.comp.text_area.placeholder == before.comp.text_area.placeholder
        &&& *screen == (Screen { col: screen.col, ..*screen_before })
        &&& self.comp.text_area.on(screen) == if key.modifiers == KeyModifiers::Plain
                || key.modifiers == KeyModifiers::Shift {
                LineComponentController::edited_field(
                    before.comp.text_area.on(screen_before),
                    before.comp.editable,
                    key.code,
                )
            } else {
                before.comp.text_area.on(screen_before)
            }
    }

    /// An editing key pressed alone or with shift edits the path; any
    /// other key does nothing. Tells whether the key edited.
    pub fn key_resolve(&mut self, key: KeyEvent, screen: &mut Screen) -> (edited: bool)
        requires
            old(self).comp.wf(old(screen)),
        ensures
            final(self).comp.wf(final(screen)),
            final(self).resolved(old(self), key, old(screen), final(screen)),
    {
        if key.modifiers == KeyModifiers::Plain || key.modifiers == KeyModifiers::Shift {
            if TextArea::is_editing_key(key.code) {
                return self.comp.edit(key.code, screen);
            }
        }
        false
    }
}

} // verus!
