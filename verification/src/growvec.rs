//! A growable buffer of `i32` that reports a size and a capacity. The
//! capacity starts at a chosen value and doubles whenever an append finds
//! the buffer full, so the growth can be observed step by step.

use vstd::prelude::*;

verus! {

/// The capacity after growing from `c`: it doubles, starting from 1, and
/// saturates at `usize::MAX`.
pub open spec fn grown_capacity(c: int) -> int {
    if c == 0 {
        1
    } else if 2 * c <= usize::MAX {
        2 * c
    } else {
        usize::MAX as int
    }
}

/// A vector of `i32` together with the capacity it reports. The elements
/// always fit within the capacity.
pub struct CapVec {
    data: Vec<i32>,
    cap: usize,
}

impl CapVec {
    /// The sequence of elements held.
    pub closed spec fn view(&self) -> Seq<i32> {
        self.data@
    }

    /// The capacity currently reported.
    pub closed spec fn spec_capacity(&self) -> int {
        self.cap as int
    }

    /// The elements never outnumber the capacity.
    pub closed spec fn wf(&self) -> bool {
        self.data@.len() <= self.cap
    }

    /// Reports at run time whether the elements fit within the capacity.
    pub fn check_wf(&self) -> (b: bool)
        ensures
            b == self.wf(),
    {
        self.data.len() <= self.cap
    }

    /// An empty buffer that starts with the given capacity.
    pub fn with_capacity(cap: usize) -> (r: CapVec)
        ensures
            r.wf(),
            r@ == Seq::<i32>::empty(),
            r.spec_capacity() == cap,
    {
        CapVec { data: Vec::new(), cap }
    }

    /// The number of elements held.
    pub fn len(&self) -> (n: usize)
        ensures
            n == self@.len(),
    {
        self.data.len()
    }

    /// The capacity currently reported.
    pub fn capacity(&self) -> (c: usize)
        ensures
            c == self.spec_capacity(),
    {
        self.cap
    }

    /// Read-only access to the elements.
    pub fn items(&self) -> (r: &Vec<i32>)
        ensures
            r@ == self@,
    {
        &self.data
    }

    /// Appends `x`. The capacity is unchanged while there is room and
    /// doubles when the buffer was full.
    pub fn push(&mut self, x: i32)
        requires
            old(self).wf(),
            old(self)@.len() < usize::MAX,
        ensures
            final(self).wf(),
            final(self)@ == old(self)@.push(x),
            final(self).spec_capacity() == if old(self)@.len() < old(self).spec_capacity() {
                old(self).spec_capacity()
            } else {
                grown_capacity(old(self).spec_capacity())
            },
    {
        if self.data.len() == self.cap {
            if self.cap == 0 {
                self.cap = 1;
            } else if self.cap <= usize::MAX / 2 {
                self.cap = 2 * self.cap;
            } else {
                self.cap = usize::MAX;
            }
        }
        self.data.push(x);
    }

    /// Removes and returns the last element; the capacity never shrinks.
    pub fn pop(&mut self) -> (r: Option<i32>)
        requires
            old(self).wf(),
        ensures
            final(self).wf(),
            final(self).spec_capacity() == old(self).spec_capacity(),
            old(self)@.len() > 0 ==> r == Some(old(self)@.last())
                && final(self)@ == old(self)@.drop_last(),
            old(self)@.len() == 0 ==> r is None && final(self)@ == old(self)@,
    {
        self.data.pop()
    }
}

} // verus!
