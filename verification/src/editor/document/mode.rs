use vstd::prelude::*;

verus! {

/// The mode of the editor: normal editing, or one of the prompts open.
#[derive(Clone, Copy, Debug, PartialEq, Eq, Structural)]
pub enum EditorMode {
    Normal,
    Saving,
    Finding,
    Positioning,
}

} // verus!
