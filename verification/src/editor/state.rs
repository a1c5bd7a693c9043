use vstd::prelude::*;

verus! {

/// Where the cursor stands with regard to the edges of the window and the
/// ends of its line.
#[derive(Clone, Copy, Debug, PartialEq, Eq, Structural)]
pub struct EditorState {
    pub top_end: bool,
    pub bottom_end: bool,
    pub left_end: bool,
    pub right_end: bool,
    pub line_start: bool,
    pub line_end: bool,
}

impl EditorState {
    /// The state of the cursor in a new, empty document: in the top row,
    /// at the left edge, at the start and at the end of its line.
    pub fn new() -> (state: Self)
        ensures
            state == (EditorState {
                top_end: true,
                bottom_end: false,
                left_end: true,
                right_end: false,
                line_start: true,
                line_end: true,
            }),
    {
        Self {
            top_end: true,
            bottom_end: false,
            left_end: true,
            right_end: false,
            line_start: true,
            line_end: true,
        }
    }
}

} // verus!
