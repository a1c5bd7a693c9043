use vstd::prelude::*;
use crate::editor::document::mode::EditorMode;
use crate::utils::text::{chars_of, string_of};

verus! {

/// What the status bar says of the editor: whether the text is saved or
/// modified, or which component is open.
#[derive(Clone, Copy, Debug, PartialEq, Eq, Structural)]
pub enum EditorState {
    Saved,
    Modified,
    // states for components
    Saving,
    Opening,
    Positioning,
    Finding,
    Replacing,
    ReadingHelpMsg,
}

impl EditorState {
    /// The state names an open component, not the state of the text.
    pub open spec fn spec_is_component_state(&self) -> bool {
        !(*self == EditorState::Saved || *self == EditorState::Modified)
    }

    /// The word that the status bar shows for the state.
    pub open spec fn name(self) -> Seq<char> {
        match self {
            EditorState::Saved => "Saved"@,
            EditorState::Modified => "Modified"@,
            EditorState::Saving => "Saving"@,
            EditorState::Opening => "Opening"@,
            EditorState::Positioning => "Positioning"@,
            EditorState::Finding => "Finding"@,
            EditorState::Replacing => "Replacing"@,
            EditorState::ReadingHelpMsg => "Reading"@,
        }
    }

    /// The state that the status bar shows while the editor is in `mode`;
    /// in normal mode the text counts as saved.
    pub open spec fn of_mode(mode: EditorMode) -> EditorState {
        match mode {
            EditorMode::Normal => EditorState::Saved,
            EditorMode::Saving => EditorState::Saving,
            EditorMode::Finding => EditorState::Finding,
            EditorMode::Positioning => EditorState::Positioning,
        }
    }

    #[verifier::when_used_as_spec(spec_is_component_state)]
    pub fn is_component_state(&self) -> (component: bool)
        ensures
            component == self.spec_is_component_state(),
    {
        !matches!(self, Self::Saved | Self::Modified)
    }

    pub fn from_mode(mode: EditorMode) -> (state: EditorState)
        ensures
            state == Self::of_mode(mode),
    {
        match mode {
            EditorMode::Normal => EditorState::Saved,
            EditorMode::Saving => EditorState::Saving,
            EditorMode::Finding => EditorState::Finding,
            EditorMode::Positioning => EditorState::Positioning,
        }
    }

    pub fn to_string(&self) -> (text: String)
        ensures
            text@ == self.name(),
    {
        let str = match self {
            Self::Saved => "Saved",
            Self::Modified => "Modified",
            Self::Saving => "Saving",
            Self::Opening => "Opening",
            Self::Positioning => "Positioning",
            Self::Finding => "Finding",
            Self::Replacing => "Replacing",
            Self::ReadingHelpMsg => "Reading",
        };
        string_of(&chars_of(str))
    }
}

} // verus!
