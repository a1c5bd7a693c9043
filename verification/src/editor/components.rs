//! The components that open over the document: the prompts for saving,
//! opening, finding and positioning, and the help screen.

pub mod base;
pub mod file_opener;
pub mod file_saver;
pub mod finder;
pub mod helper;
pub mod positioner;

pub use base::{ComponentHistory, LineComponentController, ScreenComponentController};
pub use file_opener::FileOpener;
pub use file_saver::{FileSaver, SaveRequest};
pub use finder::Finder;
pub use helper::Helper;
pub use positioner::Positioner;

use vstd::prelude::*;
use crate::editor::document::state::EditorState;
use crate::editor::key::KeyEvent;
use crate::utils::screen::Screen;

verus! {

/// All the components of the editor.
pub struct EditorComponentManager {
    pub use_line_component: bool,
    pub use_screen_component: bool,
    // line components
    pub file_saver: FileSaver,
    pub file_opener: FileOpener,
    pub positioner: Positioner,
    pub finder: Finder,
    // screen components
    pub helper: Helper,
}

impl EditorComponentManager {
    /// Each prompt is the one that its `new` makes.
    pub open spec fn ready(&self) -> bool {
        &&& self.file_saver.is_save_prompt()
        &&& self.file_opener.comp.framed()
        &&& self.file_opener.comp.prompt@.len() == 6
        &&& self.file_opener.comp.button@.len() == 7
        &&& self.file_opener.comp.position == 1
        &&& self.positioner.is_position_prompt()
        &&& self.finder.is_find_prompt()
    }

    /// The prompts are ready and have room on `screen`.
    pub open spec fn fits(&self, screen: &Screen) -> bool {
        &&& self.ready()
        &&& self.file_saver.comp.fits(screen)
        &&& self.file_opener.comp.fits(screen)
        &&& self.positioner.comp.fits(screen)
        &&& self.finder.comp.fits(screen)
    }

    /// The component that `state` names is open on `screen`.
    pub open spec fn active_wf(&self, state: EditorState, screen: &Screen) -> bool {
        match state {
            EditorState::Saving => self.file_saver.comp.wf(screen),
            EditorState::Opening => self.file_opener.comp.wf(screen),
            EditorState::Positioning => self.positioner.comp.wf(screen),
            EditorState::Finding => self.finder.wf(screen),
            _ => true,
        }
    }

    /// What `resolve` makes of the components `before` on `screen_before`
    /// when the component that `state` names is given `key`: the component
    /// named has resolved the key, the others are as they were. The states
    /// that name no prompt change nothing.
    pub open spec fn resolved(
        &self,
        before: &EditorComponentManager,
        state: EditorState,
        key: KeyEvent,
        screen_before: &Screen,
        screen: &Screen,
        request: Option<SaveRequest>,
    ) -> bool {
        &&& self.use_line_component == before.use_line_component
        &&& self.use_screen_component == before.use_screen_component
        &&& self.helper == before.helper
        &&& if state == EditorState::Saving {
            self.file_saver.resolved(&before.file_saver, key, screen_before, screen, request)
        } else {
            self.file_saver == before.file_saver && request.is_none()
        }
        &&& if state == EditorState::Opening {
            self.file_opener.resolved(&before.file_opener, key, screen_before, screen)
        } else {
            self.file_opener == before.file_opener
        }
        &&& if state == EditorState::Positioning {
            self.positioner.resolved(&before.positioner, key, screen_before, screen)
        } else {
            self.positioner == before.positioner
        }
        &&& if state == EditorState::Finding {
            self.finder.resolved(&before.finder, key, screen_before, screen)
        } else {
            self.finder == before.finder
        }
        &&& (state == EditorState::Replacing || state == EditorState::ReadingHelpMsg) ==> *screen
            == *screen_before
    }

    /// Tells whether the prompts have room on `screen`: the widest of
    /// them needs 21 columns, and the rows that they open in must exist.
    pub fn has_room(&self, screen: &Screen) -> (room: bool)
        requires
            self.ready(),
        ensures
            room == self.fits(screen),
            room == (screen.width >= 21 && screen.height >= 2),
    {
        screen.width() >= 21 && screen.height() >= 2
    }

    /// The components as the editor starts with them: no component is in
    /// use; the save prompt holds the path `temp.txt` and no text to
    /// save; the open prompt and the find prompt are empty, the latter
    /// without matches and without history; the position prompt is empty
    /// and shows its target, the first place of the document; and the
    /// help screen holds its text.
    pub fn new() -> (manager: Self)
        ensures
            manager.ready(),
            !manager.use_line_component,
            !manager.use_screen_component,
            manager.file_saver.comp.prompt@ == "Path: "@,
            manager.file_saver.comp.button@ == "[Enter]"@,
            manager.file_saver.comp.text_area.content@ == "temp.txt"@,
            manager.file_saver.comp.text_area.placeholder@.len() == 0,
            manager.file_saver.comp.text_area.overflow_left == 0,
            manager.file_saver.comp.text_area.overflow_right == 0,
            manager.file_saver.editor_content@.len() == 0,
            manager.file_opener.comp.prompt@ == "Path: "@,
            manager.file_opener.comp.button@ == "[Enter]"@,
            manager.file_opener.comp.editable,
            manager.file_opener.comp.text_area.content@.len() == 0,
            manager.file_opener.comp.text_area.placeholder@.len() == 0,
            manager.file_opener.comp.text_area.overflow_left == 0,
            manager.file_opener.comp.text_area.overflow_right == 0,
            manager.positioner.comp.prompt@ == "Target: "@,
            manager.positioner.comp.button@ == "[Enter]"@,
            manager.positioner.target == (crate::editor::cursor_pos::EditorCursorPos {
                row: 1,
                col: 1,
            }),
            manager.positioner.comp.text_area.content@.len() == 0,
            manager.positioner.comp.text_area.placeholder@
                == manager.positioner.target.short_text(),
            manager.positioner.comp.text_area.overflow_left == 0,
            manager.positioner.comp.text_area.overflow_right == 0,
            manager.finder.comp.prompt@ == "Find: "@,
            manager.finder.comp.button@ == "[(Shift) Enter]"@,
            manager.finder.comp.text_area.content@.len() == 0,
            manager.finder.comp.text_area.placeholder@.len() == 0,
            manager.finder.comp.text_area.overflow_left == 0,
            manager.finder.comp.text_area.overflow_right == 0,
            manager.finder.match_list.items().len() == 0,
            manager.finder.match_list.position() == -1,
            manager.finder.history.entries().len() == 0,
            manager.finder.history.list.position() == -1,
            manager.helper.comp.content@ == "Ctrl + s | Open / Close file saving component"@,
    {
        Self {
            use_line_component: false,
            use_screen_component: false,
            file_saver: FileSaver::new(),
            file_opener: FileOpener::new(),
            positioner: Positioner::new(),
            finder: Finder::new(),
            helper: Helper::new(),
        }
    }

    /// Hands `key` to the component that `current_state` names. Only the
    /// save prompt ever hands back a request.
    pub fn resolve(&mut self, current_state: EditorState, key: KeyEvent, screen: &mut Screen) -> (request:
        Option<SaveRequest>)
        requires
            current_state.spec_is_component_state(),
            old(self).ready(),
            old(self).active_wf(current_state, old(screen)),
        ensures
            final(self).ready(),
            final(self).active_wf(current_state, final(screen)),
            final(self).resolved(old(self), current_state, key, old(screen), final(screen), request),
            *final(screen) == (Screen { col: final(screen).col, ..*old(screen) }),
    {
        match current_state {
            EditorState::Saving => self.file_saver.key_resolve(key, screen),
            EditorState::Opening => {
                self.file_opener.key_resolve(key, screen);
                None
            },
            EditorState::Positioning => {
                self.positioner.key_resolve(key, screen);
                None
            },
            EditorState::Finding => {
                self.finder.key_resolve(key, screen);
                None
            },
            _ => {
                self.helper.key_resolve(key);
                None
            },
        }
    }
}

} // verus!
