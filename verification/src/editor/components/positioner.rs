use vstd::prelude::*;
use crate::editor::components::base::controller::{LineComponentController, RenderedPrompt};
use crate::editor::cursor_pos::EditorCursorPos;
use crate::editor::key::{KeyCode, KeyEvent, KeyModifiers};
use crate::editor::text_area::TextArea;
use crate::utils::screen::Screen;

verus! {

/// The prompt that asks where to go. While its field is empty it shows,
/// dimmed, the place where the cursor stands.
pub struct Positioner {
    pub target: EditorCursorPos,
    pub comp: LineComponentController,
}

impl Positioner {
    /// The prompt is the one that `new` makes.
    pub open spec fn is_position_prompt(&self) -> bool {
        &&& self.comp.framed()
        &&& self.comp.prompt@.len() == 8
        &&& self.comp.button@.len() == 7
        &&& self.comp.position == -1
        &&& self.comp.editable
    }

    /// Nothing but the field and the target differs between `self` and
    /// `before`.
    pub open spec fn same_but_field(&self, before: &Positioner) -> bool {
        &&& self.comp.prompt == before.comp.prompt
        &&& self.comp.button == before.comp.button
        &&& self.comp.position == before.comp.position
        &&& self.comp.editable == before.comp.editable
        &&& self.comp.text_area.placeholder == before.comp.text_area.placeholder
    }

    /// A position prompt in the row above the status bar, with an empty
    /// field and the first place of the document as its target.
    pub fn new() -> (positioner: Self)
        ensures
            positioner.is_position_prompt(),
            positioner.comp.prompt@ == "Target: "@,
            positioner.comp.button@ == "[Enter]"@,
            positioner.target == (EditorCursorPos { row: 1, col: 1 }),
            positioner.comp.text_area.content@.len() == 0,
            positioner.comp.text_area.placeholder@ == positioner.target.short_text(),
            positioner.comp.text_area.overflow_left == 0,
            positioner.comp.text_area.overflow_right == 0,
    {
        proof {
            reveal_strlit("Target: ");
            reveal_strlit("[Enter]");
        }
        let initial_cursor_pos = EditorCursorPos { row: 1, col: 1 };
        let mut controller = LineComponentController::new("Target: ", "[Enter]", -1, true);
        let shown = initial_cursor_pos.short_display();
        controller.text_area.set_placeholder(shown.as_str());
        Self { target: initial_cursor_pos, comp: controller }
    }

    /// Makes `pos` the target and shows it while the field is empty.
    pub fn set_cursor_pos(&mut self, pos: EditorCursorPos)
        ensures
            final(self).target == pos,
            final(self).comp.text_area.placeholder@ == pos.short_text(),
            final(self).comp.text_area.content == old(self).comp.text_area.content,
            final(self).comp.text_area.margin_left == old(self).comp.text_area.margin_left,
            final(self).comp.text_area.margin_right == old(self).comp.text_area.margin_right,
            final(self).comp.text_area.overflow_left == old(self).comp.text_area.overflow_left,
            final(self).comp.text_area.overflow_right == old(self).comp.text_area.overflow_right,
            final(self).comp.prompt == old(self).comp.prompt,
            final(self).comp.button == old(self).comp.button,
            final(self).comp.position == old(self).comp.position,
            final(self).comp.editable == old(self).comp.editable,
    {
        let pos_str = pos.short_display();
        self.comp.text_area.set_placeholder(pos_str.as_str());
        self.target = pos;
    }

    pub fn is_positioning_key(key: KeyEvent) -> (is_positioning: bool)
        ensures
            is_positioning == key.is_plain_enter(),
    {
        key.modifiers == KeyModifiers::Plain && key.code == KeyCode::Enter
    }

    pub fn get_target(&self) -> (target: EditorCursorPos)
        ensures
            target == self.target,
    {
        self.target
    }

    pub fn open(&mut self, screen: &mut Screen) -> (drawn: RenderedPrompt)
        requires
            old(self).comp.fits(old(screen)),
        ensures
            final(self).comp.wf(final(screen)),
            final(self).comp.text_area.on(final(screen)) == old(self).comp.text_area.on(
                old(screen),
            ).refreshed().at_end(),
            final(self).same_but_field(old(self)),
            final(self).target == old(self).target,
            *final(screen) == (Screen {
                row: final(screen).row,
                col: final(screen).col,
                ..*old(screen)
            }),
            final(self).comp.draws(&drawn, final(screen)),
    {
        self.comp.open(screen)
    }

    /// What `key_resolve` makes of the prompt `before` on `screen_before`
    /// when it is given `key`: `self` on `screen`.
    pub open spec fn resolved(
        &self,
        before: &Positioner,
        key: KeyEvent,
        screen_before: &Screen,
        screen: &Screen,
    ) -> bool {
        &&& self.same_but_field(before)
        &&& *screen == (Screen { col: screen.col, ..*screen_before })
        &&& key.code == KeyCode::Enter ==> {
                &&& self.comp == before.comp
                &&& *screen == *screen_before
                &&& self.target == match EditorCursorPos::parsed(
                    before.comp.text_area.content@,
                ) {
                    Some(pos) => pos,
                    None => before.target,
                }
            }
        &&& key.code != KeyCode::Enter ==> {
                &&& self.target == before.target
                &&& self.comp.text_area.on(screen)
                    == LineComponentController::edited_field(
                    before.comp.text_area.on(screen_before),
                    before.comp.editable,
                    key.code,
                )
            }
    }

    /// What a key does in the open prompt. Enter reads the field as a
    /// place and makes it the target; a field that names no place leaves
    /// the target as it is. An editing key edits the field. Any other key
    /// does nothing.
    pub fn key_resolve(&mut self, key: KeyEvent, screen: &mut Screen)
        requires
            old(self).comp.wf(old(screen)),
        ensures
            final(self).comp.wf(final(screen)),
            final(self).resolved(old(self), key, old(screen), final(screen)),
    {
        match key.code {
            KeyCode::Enter => {
                let target_pos_str = self.comp.text_area.content();
                match EditorCursorPos::parse(target_pos_str.as_str()) {
                    Some(pos) => self.target = pos,
                    None => return ,
                }
            },
            k => {
                if TextArea::is_editing_key(k) {
                    self.comp.edit(k, screen);
                }
            },
        }
    }
}

} // verus!
