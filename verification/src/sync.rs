//! Uniprocessor interior-mutability cell.
//!
//! On the single-core machine the kernel shares one mutable task table
//! between the scheduler entry points.  The cell grants one exclusive
//! borrow at a time and remembers that the borrow is outstanding until it
//! is released; the kernel panics (here: reports a conflict) when a second
//! borrow is attempted while one is live, rather than corrupt the table.
//! Holders must release the borrow before invoking the context-switch
//! primitive, because the resumed task re-enters the cell.

use vstd::prelude::*;

verus! {

/// Wraps a value so that the single processor may mutate it through a
/// checked exclusive borrow.
pub struct UPSafeCell<T> {
    value: T,
    borrowed: bool,
}

impl<T> UPSafeCell<T> {
    /// Whether the exclusive borrow is currently outstanding.
    pub closed spec fn is_borrowed(&self) -> bool {
        self.borrowed
    }

    /// The wrapped value.
    pub closed spec fn inner(&self) -> T {
        self.value
    }

    pub fn new(value: T) -> (r: Self)
        ensures
            !r.is_borrowed(),
            r.inner() == value,
    {
        UPSafeCell { value, borrowed: false }
    }

    /// Whether the exclusive borrow is currently outstanding.
    pub fn currently_borrowed(&self) -> (b: bool)
        ensures
            b == self.is_borrowed(),
    {
        self.borrowed
    }

    /// Takes the single exclusive borrow of the wrapped value.  The borrow
    /// stays recorded as outstanding until `release` is called; a caller
    /// that forgets to release it leaves the cell poisoned, and every later
    /// access is refused.
    pub fn exclusive_access(&mut self) -> (r: &mut T)
        requires
            !old(self).is_borrowed(),
        ensures
            *r == old(self).inner(),
            final(self).is_borrowed(),
            final(self).inner() == *final(r),
    {
        self.borrowed = true;
        &mut self.value
    }

    /// Gives the exclusive borrow back.
    pub fn release(&mut self)
        requires
            old(self).is_borrowed(),
        ensures
            !final(self).is_borrowed(),
            final(self).inner() == old(self).inner(),
    {
        self.borrowed = false;
    }
}

} // verus!
