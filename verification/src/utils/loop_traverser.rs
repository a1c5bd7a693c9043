use vstd::prelude::*;

verus! {

/// A list with a position that steps forward and backward through it, either
/// stopping at the ends or wrapping round to the other end.
///
/// The position is `-1` before the first step and after every reset, and the
/// index of the element last handed out otherwise.
pub struct LoopTraverser<T> {
    vec: Vec<T>,
    index: isize,
    cycle: bool,
}

impl<T> LoopTraverser<T> {
    /// The elements, in order.
    pub closed spec fn items(&self) -> Seq<T> {
        self.vec@
    }

    /// The current position: `-1`, or an index into `items`.
    pub closed spec fn position(&self) -> int {
        self.index as int
    }

    /// Whether stepping past an end wraps round.
    pub closed spec fn cycles(&self) -> bool {
        self.cycle
    }

    /// The position is `-1` or an index into the list, and the list is no
    /// longer than a signed position can count.
    pub open spec fn wf(&self) -> bool {
        &&& self.items().len() <= isize::MAX
        &&& -1 <= self.position()
        &&& self.position() < self.items().len() || self.position() == -1
    }

    /// Where one step forward leads, or `None` where there is no further
    /// element: in an empty list, and at the last element of a list that
    /// does not wrap.
    pub open spec fn position_after_next(&self) -> Option<int> {
        let len = self.items().len() as int;
        if len == 0 || (!self.cycles() && self.position() == len - 1) {
            None
        } else {
            Some((self.position() + 1) % len)
        }
    }

    /// Where one step backward leads, or `None` where there is no further
    /// element: in an empty list, and at or before the first element of a
    /// list that does not wrap.
    pub open spec fn position_after_previous(&self) -> Option<int> {
        let len = self.items().len() as int;
        let at_front = self.position() == 0 || self.position() == -1;
        if len == 0 || (!self.cycles() && at_front) {
            None
        } else if at_front {
            Some(len - 1)
        } else {
            Some(self.position() - 1)
        }
    }

    pub fn new(cycle: bool) -> (list: Self)
        ensures
            list.wf(),
            list.items() == Seq::<T>::empty(),
            list.position() == -1,
            list.cycles() == cycle,
    {
        Self { vec: Vec::new(), index: -1, cycle }
    }

    /// The element at the current position.
    pub fn current<'a>(&'a self) -> (element: &'a T)
        requires
            self.wf(),
            self.position() >= 0,
        ensures
            0 <= self.position() < self.items().len(),
            *element == self.items()[self.position()],
    {
        &self.vec[self.index as usize]
    }

    /// Steps forward and hands out the element reached.
    pub fn next<'a>(&'a mut self) -> (element: Option<&'a T>)
        requires
            old(self).wf(),
        ensures
            final(self).wf(),
            final(self).items() == old(self).items(),
            final(self).cycles() == old(self).cycles(),
            match old(self).position_after_next() {
                None => element.is_none() && final(self).position() == old(self).position(),
                Some(i) => {
                    &&& 0 <= i < old(self).items().len()
                    &&& final(self).position() == i
                    &&& element == Some(&old(self).items()[i])
                },
            },
    {
        let len: usize = self.vec.len();
        if len == 0 {
            return None;
        }
        let at_last: bool = self.index >= 0 && self.index as usize == len - 1;
        if !self.cycle && at_last {
            return None;
        }
        let target: usize = if at_last {
            0
        } else {
            (self.index + 1) as usize
        };
        assert((self.index + 1) % (len as int) == target) by {
            if at_last {
                assert((len as int) % (len as int) == 0) by (nonlinear_arith)
                    requires
                        len > 0,
                ;
            } else {
                vstd::arithmetic::div_mod::lemma_small_mod((self.index + 1) as nat, len as nat);
            }
        }
        self.index = target as isize;
        Some(&self.vec[target])
    }

    /// Steps backward and hands out the element reached.
    pub fn previous<'a>(&'a mut self) -> (element: Option<&'a T>)
        requires
            old(self).wf(),
        ensures
            final(self).wf(),
            final(self).items() == old(self).items(),
            final(self).cycles() == old(self).cycles(),
            match old(self).position_after_previous() {
                None => element.is_none() && final(self).position() == old(self).position(),
                Some(i) => {
                    &&& 0 <= i < old(self).items().len()
                    &&& final(self).position() == i
                    &&& element == Some(&old(self).items()[i])
                },
            },
    {
        let len: usize = self.vec.len();
        let at_front: bool = self.index == 0 || self.index == -1;
        if len == 0 || (!self.cycle && at_front) {
            return None;
        }
        let target: usize = if at_front {
            len - 1
        } else {
            (self.index - 1) as usize
        };
        self.index = target as isize;
        Some(&self.vec[target])
    }

    /// The first element, if there is one. The position stays.
    pub fn first<'a>(&'a self) -> (element: Option<&'a T>)
        ensures
            self.items().len() == 0 ==> element.is_none(),
            self.items().len() > 0 ==> element == Some(&self.items()[0]),
    {
        if self.vec.len() == 0 {
            None
        } else {
            Some(&self.vec[0])
        }
    }

    /// Appends an element. The position stays.
    pub fn push(&mut self, element: T)
        requires
            old(self).wf(),
            old(self).items().len() < isize::MAX,
        ensures
            final(self).wf(),
            final(self).items() == old(self).items().push(element),
            final(self).position() == old(self).position(),
            final(self).cycles() == old(self).cycles(),
    {
        self.vec.push(element);
    }

    /// Puts an element in front of all others. The position stays, so it
    /// then names the element that stood one place earlier.
    pub fn push_front(&mut self, element: T)
        requires
            old(self).wf(),
            old(self).items().len() < isize::MAX,
        ensures
            final(self).wf(),
            final(self).items() == seq![element] + old(self).items(),
            final(self).position() == old(self).position(),
            final(self).cycles() == old(self).cycles(),
    {
        self.vec.insert(0, element);
        assert(self.vec@ =~= seq![element] + old(self).vec@);
    }

    /// Moves the position back before the first element.
    pub fn reset_index(&mut self)
        requires
            old(self).items().len() <= isize::MAX,
        ensures
            final(self).wf(),
            final(self).items() == old(self).items(),
            final(self).position() == -1,
            final(self).cycles() == old(self).cycles(),
    {
        self.index = -1;
    }

    /// Replaces the elements and resets the position.
    pub fn set_content(&mut self, new_vec: Vec<T>)
        requires
            new_vec@.len() <= isize::MAX,
        ensures
            final(self).wf(),
            final(self).items() == new_vec@,
            final(self).position() == -1,
            final(self).cycles() == old(self).cycles(),
    {
        self.index = -1;
        self.vec = new_vec;
    }

    /// Removes every element and resets the position.
    pub fn clear(&mut self)
        ensures
            final(self).wf(),
            final(self).items() == Seq::<T>::empty(),
            final(self).position() == -1,
            final(self).cycles() == old(self).cycles(),
    {
        self.index = -1;
        self.vec.clear();
    }

    pub fn len(&self) -> (len: usize)
        ensures
            len == self.items().len(),
    {
        self.vec.len()
    }

    pub fn is_empty(&self) -> (empty: bool)
        ensures
            empty == (self.items().len() == 0),
    {
        self.vec.len() == 0
    }
}

} // verus!
