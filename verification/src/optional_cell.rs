//! A cell that holds a value or nothing, emptied by taking.
//!
//! An interrupt callback fills the cell and the main loop takes the value
//! out again. Taking leaves the cell empty, so an event is seen once.
//! The main loop takes with interrupts disabled.

use vstd::prelude::*;

verus! {

pub struct OptionalCell<T> {
    value: Option<T>,
}

impl<T> View for OptionalCell<T> {
    type V = Option<T>;

    closed spec fn view(&self) -> Option<T> {
        self.value
    }
}

impl<T> OptionalCell<T> {
    /// The cell that holds what `opt` holds.
    pub closed spec fn spec_from(opt: Option<T>) -> Self {
        OptionalCell { value: opt }
    }

    /// The cell after `set(val)`.
    pub open spec fn spec_set(self, val: T) -> Self {
        Self::spec_from(Some(val))
    }

    /// What `take()` hands out, and the cell it leaves.
    pub open spec fn spec_take(self) -> (Option<T>, Self) {
        (self@, Self::spec_from(None))
    }

    /// A cell is what it holds: `spec_from` and the view undo each other.
    pub broadcast proof fn lemma_spec_from(opt: Option<T>)
        ensures
            (#[trigger] Self::spec_from(opt))@ == opt,
    {
    }

    /// Two cells that hold the same are the same.
    pub proof fn lemma_view_injective(self, other: Self)
        requires
            self@ == other@,
        ensures
            self == other,
    {
    }

    /// A cell that holds `val`.
    pub fn new(val: T) -> (r: Self)
        ensures
            r@ == Some(val),
            r == Self::spec_from(Some(val)),
    {
        OptionalCell { value: Some(val) }
    }

    /// A cell that holds nothing.
    pub fn empty() -> (r: Self)
        ensures
            r@.is_none(),
            r == Self::spec_from(None),
    {
        OptionalCell { value: None }
    }

    /// Puts `val` into the cell, over whatever it held.
    pub fn set(&mut self, val: T)
        ensures
            final(self)@ == Some(val),
            *final(self) == old(self).spec_set(val),
    {
        self.value = Some(val);
    }

    /// Makes the cell hold what `opt` holds; `None` empties it.
    pub fn insert(&mut self, opt: Option<T>)
        ensures
            final(self)@ == opt,
            *final(self) == Self::spec_from(opt),
    {
        self.value = opt;
    }

    /// Hands out what the cell holds and leaves it empty.
    pub fn take(&mut self) -> (r: Option<T>)
        ensures
            r == old(self)@,
            final(self)@.is_none(),
            (r, *final(self)) == old(self).spec_take(),
    {
        self.value.take()
    }

    /// Empties the cell.
    pub fn clear(&mut self)
        ensures
            final(self)@.is_none(),
            *final(self) == Self::spec_from(None),
    {
        self.value = None;
    }

    /// What the cell holds, by reference.
    pub fn as_ref(&self) -> (r: Option<&T>)
        ensures
            r.is_some() == self@.is_some(),
            r.is_some() ==> *r.unwrap() == self@.unwrap(),
    {
        self.value.as_ref()
    }

    pub fn is_some(&self) -> (r: bool)
        ensures
            r == self@.is_some(),
    {
        self.value.is_some()
    }

    pub fn is_none(&self) -> (r: bool)
        ensures
            r == self@.is_none(),
    {
        self.value.is_none()
    }

    /// A copy of what the cell holds.
    pub fn get(&self) -> (r: Option<T>) where T: Copy
        ensures
            r == self@,
    {
        self.value
    }

    /// A value that was set is taken exactly once: whatever the cell
    /// held, the take right after `set(val)` hands out `val`, and the take
    /// after that hands out nothing.
    pub proof fn lemma_set_then_take_once(self, val: T)
        ensures
            self.spec_set(val).spec_take().0 == Some(val),
            self.spec_set(val).spec_take().1.spec_take().0.is_none(),
    {
    }
}

} // verus!
