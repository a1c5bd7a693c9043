use vstd::prelude::*;
use crate::editor::cursor_pos::EditorCursorPos;

verus! {

/// One change of the text.
#[derive(Debug, Clone)]
pub enum EditorOperation {
    InsertChar(char),
    DeleteChar(char),
    InsertLine,
    DeleteLine,
    //      from  , to
    Replace(String, String),
}

impl EditorOperation {
    /// The change that takes `self` back.
    pub open spec fn reversed(self) -> EditorOperation {
        match self {
            EditorOperation::InsertChar(ch) => EditorOperation::DeleteChar(ch),
            EditorOperation::DeleteChar(ch) => EditorOperation::InsertChar(ch),
            EditorOperation::InsertLine => EditorOperation::DeleteLine,
            EditorOperation::DeleteLine => EditorOperation::InsertLine,
            EditorOperation::Replace(from, to) => EditorOperation::Replace(to, from),
        }
    }

    /// The change that takes `self` back.
    pub fn rev(&self) -> (back: Self)
        ensures
            back == self.reversed(),
    {
        match self {
            Self::InsertChar(ch) => Self::DeleteChar(*ch),
            Self::DeleteChar(ch) => Self::InsertChar(*ch),
            Self::InsertLine => Self::DeleteLine,
            Self::DeleteLine => Self::InsertLine,
            Self::Replace(from, to) => Self::Replace(to.clone(), from.clone()),
        }
    }
}

/// Taking back what takes a change back is the change itself.
pub proof fn lemma_rev_twice(op: EditorOperation)
    ensures
        op.reversed().reversed() == op,
{
}

// --- --- --- --- --- ---
/// A change of the text together with the places of the cursor before and
/// after it.
#[derive(Debug, Clone)]
pub struct EditorEvent {
    pub op: EditorOperation,
    pub pos_before: EditorCursorPos,
    pub pos_after: EditorCursorPos,
}

} // verus!
