use vstd::prelude::*;
use crate::utils::loop_traverser::LoopTraverser;

verus! {

/// What was entered in a prompt before, newest first. Stepping back in
/// time stops at the oldest entry, stepping forward at the newest.
pub struct ComponentHistory {
    pub list: LoopTraverser<String>,
}

impl ComponentHistory {
    /// The entries, newest first.
    pub open spec fn entries(&self) -> Seq<String> {
        self.list.items()
    }

    pub open spec fn wf(&self) -> bool {
        self.list.wf() && !self.list.cycles()
    }

    pub fn new() -> (history: Self)
        ensures
            history.wf(),
            history.entries().len() == 0,
            history.list.position() == -1,
    {
        Self { list: LoopTraverser::new(false) }
    }

    /// Steps to the entry made after the current one.
    pub fn next<'a>(&'a mut self) -> (entry: Option<&'a String>)
        requires
            old(self).wf(),
        ensures
            final(self).wf(),
            final(self).entries() == old(self).entries(),
            match old(self).list.position_after_previous() {
                None => entry.is_none() && final(self).list.position() == old(
                    self,
                ).list.position(),
                Some(i) => {
                    &&& 0 <= i < old(self).entries().len()
                    &&& final(self).list.position() == i
                    &&& entry == Some(&old(self).entries()[i])
                },
            },
    {
        self.list.previous()
    }

    /// Steps to the entry made before the current one.
    pub fn previous<'a>(&'a mut self) -> (entry: Option<&'a String>)
        requires
            old(self).wf(),
        ensures
            final(self).wf(),
            final(self).entries() == old(self).entries(),
            match old(self).list.position_after_next() {
                None => entry.is_none() && final(self).list.position() == old(
                    self,
                ).list.position(),
                Some(i) => {
                    &&& 0 <= i < old(self).entries().len()
                    &&& final(self).list.position() == i
                    &&& entry == Some(&old(self).entries()[i])
                },
            },
    {
        self.list.next()
    }

    /// The newest entry.
    pub fn last<'a>(&'a self) -> (entry: Option<&'a String>)
        ensures
            self.entries().len() == 0 ==> entry.is_none(),
            self.entries().len() > 0 ==> entry == Some(&self.entries()[0]),
    {
        self.list.first()
    }

    /// Adds an entry as the newest.
    pub fn append(&mut self, element: String)
        requires
            old(self).wf(),
            old(self).entries().len() < isize::MAX,
        ensures
            final(self).wf(),
            final(self).entries() == seq![element] + old(self).entries(),
            final(self).list.position() == old(self).list.position(),
    {
        self.list.push_front(element);
    }

    pub fn reset_index(&mut self)
        requires
            old(self).wf(),
        ensures
            final(self).wf(),
            final(self).entries() == old(self).entries(),
            final(self).list.position() == -1,
    {
        self.list.reset_index();
    }
}

} // verus!
