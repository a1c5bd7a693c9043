use vstd::prelude::*;
use crate::editor::components::base::controller::{LineComponentController, RenderedPrompt};
use crate::editor::key::{KeyCode, KeyEvent};
use crate::editor::text_area::TextArea;
use crate::utils::screen::Screen;
use crate::utils::text::chars_of;

verus! {

/// The prompt that asks where to save the text.
pub struct FileSaver {
    pub editor_content: String,
    pub comp: LineComponentController,
}

/// What is to be written, and to which path.
pub struct SaveRequest {
    pub path: String,
    pub content: String,
}

impl FileSaver {
    /// The prompt is the one that `new` makes: its caption, its button and
    /// its row are those of the save prompt.
    pub open spec fn is_save_prompt(&self) -> bool {
        &&& self.comp.framed()
        &&& self.comp.prompt@.len() == 6
        &&& self.comp.button@.len() == 7
        &&& self.comp.position == 1
        &&& self.comp.editable
    }

    /// A save prompt in the second row of the terminal, with the path
    /// `temp.txt` in its field.
    pub fn new() -> (saver: Self)
        ensures
            saver.is_save_prompt(),
            saver.comp.prompt@ == "Path: "@,
            saver.comp.button@ == "[Enter]"@,
            saver.comp.text_area.content@ == "temp.txt"@,
            saver.comp.text_area.placeholder@.len() == 0,
            saver.comp.text_area.overflow_left == 0,
            saver.comp.text_area.overflow_right == 0,
            saver.editor_content@.len() == 0,
    {
        proof {
            reveal_strlit("Path: ");
            reveal_strlit("[Enter]");
        }
        let mut comp = LineComponentController::new("Path: ", "[Enter]", 1, true);
        comp.text_area.content = chars_of("temp.txt");
        Self { editor_content: String::new(), comp }
    }

    /// What pressing Enter asks for: the text handed over by `set_content`
    /// is to be written to the path in the field.
    pub fn save(&self) -> (request: SaveRequest)
        ensures
            request.path@ == self.comp.text_area.content@,
            request.content@ == self.editor_content@,
    {
        SaveRequest { path: self.comp.text_area.content(), content: self.editor_content.clone() }
    }

    pub fn is_save_callback_key(key: KeyEvent) -> (is_callback: bool)
        ensures
            is_callback == key.is_plain_enter(),
    {
        key.modifiers == crate::editor::key::KeyModifiers::Plain && key.code == KeyCode::Enter
    }

    /// Hands over the text that a save is to write.
    pub fn set_content(&mut self, content: String)
        ensures
            final(self).editor_content == content,
            final(self).comp == old(self).comp,
    {
        self.editor_content = content;
    }

    /// `self` is `before` with `path` in its field, on `screen`.
    pub open spec fn resolved_path(&self, before: &FileSaver, path: Seq<char>, screen: &Screen) -> bool {
        &&& self.comp.text_area.on(screen) == before.comp.text_area.on(screen).with_content(path)
        &&& self.comp.text_area.balanced(screen)
        &&& self.comp.text_area.placeholder == before.comp.text_area.placeholder
        &&& self.comp.prompt == before.comp.prompt
        &&& self.comp.button == before.comp.button
        &&& self.comp.position == before.comp.position
        &&& self.comp.editable == before.comp.editable
        &&& self.editor_content == before.editor_content
    }

    /// Puts `path` in the field.
    pub fn set_path(&mut self, path: &str, screen: &Screen)
        requires
            old(self).comp.text_area.on(screen).fits(),
        ensures
            final(self).resolved_path(old(self), path@, screen),
    {
        self.comp.text_area.set_content(path, screen);
    }

    pub fn open(&mut self, screen: &mut Screen) -> (drawn: RenderedPrompt)
        requires
            old(self).comp.fits(old(screen)),
        ensures
            final(self).comp.wf(final(screen)),
            final(self).comp.text_area.on(final(screen)) == old(self).comp.text_area.on(
                old(screen),
            ).refreshed().at_end(),
            final(self).comp.text_area.placeholder == old(self).comp.text_area.placeholder,
            final(self).comp.prompt == old(self).comp.prompt,
            final(self).comp.button == old(self).comp.button,
            final(self).comp.position == old(self).comp.position,
            final(self).comp.editable == old(self).comp.editable,
            final(self).editor_content == old(self).editor_content,
            *final(screen) == (Screen {
                row: final(screen).row,
                col: final(screen).col,
                ..*old(screen)
            }),
            final(self).comp.draws(&drawn, final(screen)),
    {
        self.comp.open(screen)
    }

    /// What `key_resolve` makes of the prompt `before` on `screen_before`
    /// when it is given `key`: `self` on `screen`, and the request it
    /// hands back.
    pub open spec fn resolved(
        &self,
        before: &FileSaver,
        key: KeyEvent,
        screen_before: &Screen,
        screen: &Screen,
        request: Option<SaveRequest>,
    ) -> bool {
        &&& self.editor_content == before.editor_content
        &&& self.comp.prompt == before.comp.prompt
        &&& self.comp.button == before.comp.button
        &&& self.comp.position == before.comp.position
        &&& self.comp.editable == before.comp.editable
        &&& self.comp.text_area.placeholder == before.comp.text_area.placeholder
        &&& *screen == (Screen { col: screen.col, ..*screen_before })
        &&& key.code == KeyCode::Enter ==> {
                &&& request.is_some()
                &&& request.unwrap().path@ == before.comp.text_area.content@
                &&& request.unwrap().content@ == before.editor_content@
                &&& self.comp == before.comp
                &&& *screen == *screen_before
            }
        &&& key.code != KeyCode::Enter ==> {
                &&& request.is_none()
                &&& self.comp.text_area.on(screen)
                    == LineComponentController::edited_field(
                    before.comp.text_area.on(screen_before),
                    before.comp.editable,
                    key.code,
                )
            }
    }

    /// Enter asks for the text to be saved; an editing key edits the path;
    /// any other key does nothing.
    pub fn key_resolve(&mut self, key: KeyEvent, screen: &mut Screen) -> (request: Option<
        SaveRequest,
    >)
        requires
            old(self).comp.wf(old(screen)),
        ensures
            final(self).comp.wf(final(screen)),
            final(self).resolved(old(self), key, old(screen), final(screen), request),
    {
        match key.code {
            KeyCode::Enter => Some(self.save()),
            k => {
                if TextArea::is_editing_key(k) {
                    self.comp.edit(k, screen);
                }
                None
            },
        }
    }
}

} // verus!
