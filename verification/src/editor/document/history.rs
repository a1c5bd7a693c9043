use vstd::prelude::*;
use std::collections::VecDeque;
use crate::editor::document::event::EditorEvent;

verus! {

/// The number of changes that the history keeps at most.
pub const MAX_CACHED_EVENT: usize = 255;

/// The changes made to the text, oldest first, with those that were
/// undone and those that were redone.
pub struct EditorHistory {
    pub ops: VecDeque<EditorEvent>,
    // operations that is undone
    pub undo_ops: Vec<EditorEvent>,
    // operations that is redone
    pub redo_ops: Vec<EditorEvent>,
}

impl EditorHistory {
    /// The history keeps no more changes than it may.
    pub open spec fn wf(&self) -> bool {
        self.ops@.len() <= MAX_CACHED_EVENT
    }

    pub fn new() -> (history: Self)
        ensures
            history.wf(),
            history.ops@.len() == 0,
            history.undo_ops@.len() == 0,
            history.redo_ops@.len() == 0,
    {
        Self { ops: VecDeque::new(), undo_ops: Vec::new(), redo_ops: Vec::new() }
    }

    /// Takes the newest change that is kept, or, where none is kept, the
    /// change redone last, puts it with the changes undone, and hands it
    /// out. Where there is neither, nothing happens.
    pub fn undo<'a>(&'a mut self) -> (event: Option<&'a EditorEvent>)
        ensures
            old(self).wf() ==> final(self).wf(),
            if old(self).ops@.len() > 0 {
                &&& final(self).ops@ == old(self).ops@.drop_last()
                &&& final(self).redo_ops@ == old(self).redo_ops@
                &&& final(self).undo_ops@ == old(self).undo_ops@.push(old(self).ops@.last())
                &&& event == Some(&old(self).ops@.last())
            } else if old(self).redo_ops@.len() > 0 {
                &&& final(self).ops@ == old(self).ops@
                &&& final(self).redo_ops@ == old(self).redo_ops@.drop_last()
                &&& final(self).undo_ops@ == old(self).undo_ops@.push(old(self).redo_ops@.last())
                &&& event == Some(&old(self).redo_ops@.last())
            } else {
                &&& final(self).ops@ == old(self).ops@
                &&& final(self).redo_ops@ == old(self).redo_ops@
                &&& final(self).undo_ops@ == old(self).undo_ops@
                &&& event.is_none()
            },
    {
        let option_op = if self.ops.len() == 0 {
            self.redo_ops.pop()
        } else {
            self.ops.pop_back()
        };

        match option_op {
            Some(op) => {
                self.undo_ops.push(op);
                let last = self.undo_ops.len() - 1;
                Some(&self.undo_ops[last])
            },
            None => None,
        }
    }

    /// Takes the change undone last, puts it with the changes redone, and
    /// hands it out. Where no change is undone, nothing happens.
    pub fn redo<'a>(&'a mut self) -> (event: Option<&'a EditorEvent>)
        ensures
            final(self).ops@ == old(self).ops@,
            if old(self).undo_ops@.len() > 0 {
                &&& final(self).undo_ops@ == old(self).undo_ops@.drop_last()
                &&& final(self).redo_ops@ == old(self).redo_ops@.push(old(self).undo_ops@.last())
                &&& event == Some(&old(self).undo_ops@.last())
            } else {
                &&& final(self).undo_ops@ == old(self).undo_ops@
                &&& final(self).redo_ops@ == old(self).redo_ops@
                &&& event.is_none()
            },
    {
        match self.undo_ops.pop() {
            Some(op) => {
                self.redo_ops.push(op);
                let last = self.redo_ops.len() - 1;
                Some(&self.redo_ops[last])
            },
            None => None,
        }
    }

    /// Adds a change as the newest. What was undone or redone is
    /// forgotten, and so is the oldest change where more are kept than
    /// may be.
    pub fn append(&mut self, ev: EditorEvent)
        requires
            old(self).wf(),
        ensures
            final(self).wf(),
            final(self).undo_ops@.len() == 0,
            final(self).redo_ops@.len() == 0,
            final(self).ops@ == if old(self).ops@.len() == MAX_CACHED_EVENT {
                old(self).ops@.push(ev).drop_first()
            } else {
                old(self).ops@.push(ev)
            },
    {
        self.undo_ops.clear();
        self.redo_ops.clear();
        self.ops.push_back(ev);

        if self.ops.len() > MAX_CACHED_EVENT {
            self.ops.pop_front();
        }
    }
}

} // verus!
