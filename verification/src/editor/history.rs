use vstd::prelude::*;
use crate::utils::loop_traverser::LoopTraverser;

verus! {

/// What was entered before, oldest first; stepping past either end leads
/// round to the other.
pub struct History {
    pub list: LoopTraverser<String>,
}

impl History {
    /// The entries, oldest first.
    pub open spec fn entries(&self) -> Seq<String> {
        self.list.items()
    }

    pub open spec fn wf(&self) -> bool {
        self.list.wf() && self.list.cycles()
    }

    pub fn new() -> (history: Self)
        ensures
            history.wf(),
            history.entries().len() == 0,
            history.list.position() == -1,
    {
        Self { list: LoopTraverser::new(true) }
    }

    pub fn next<'a>(&'a mut self) -> (entry: Option<&'a String>)
        requires
            old(self).wf(),
        ensures
            final(self).wf(),
            final(self).entries() == old(self).entries(),
            match old(self).list.position_after_next() {
                None => entry.is_none() && final(self).list.position() == old(
                    self,
                ).list.position(),
                Some(i) => {
                    &&& 0 <= i < old(self).entries().len()
                    &&& final(self).list.position() == i
                    &&& entry == Some(&old(self).entries()[i])
                },
            },
    {
        self.list.next()
    }

    pub fn previous<'a>(&'a mut self) -> (entry: Option<&'a String>)
        requires
            old(self).wf(),
        ensures
            final(self).wf(),
            final(self).entries() == old(self).entries(),
            match old(self).list.position_after_previous() {
                None => entry.is_none() && final(self).list.position() == old(
                    self,
                ).list.position(),
                Some(i) => {
                    &&& 0 <= i < old(self).entries().len()
                    &&& final(self).list.position() == i
                    &&& entry == Some(&old(self).entries()[i])
                },
            },
    {
        self.list.previous()
    }

    /// Adds an entry as the newest.
    pub fn append(&mut self, element: String)
        requires
            old(self).wf(),
            old(self).entries().len() < isize::MAX,
        ensures
            final(self).wf(),
            final(self).entries() == old(self).entries().push(element),
            final(self).list.position() == old(self).list.position(),
    {
        self.list.push(element);
    }

    pub fn reset_index(&mut self)
        requires
            old(self).wf(),
        ensures
            final(self).wf(),
            final(self).entries() == old(self).entries(),
            final(self).list.position() == -1,
    {
        self.list.reset_index();
    }
}

} // verus!
