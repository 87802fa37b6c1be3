//! Cell for state that the audio thread alone touches during `process`.
//!
//! VST3 guarantees that the parameter and event objects handed to a plugin
//! are only used during `IAudioProcessor::process`, one borrow at a time.
//! Here that discipline is expressed by ownership: shared access borrows the
//! cell, exclusive access borrows it mutably, so no lock is needed and no
//! second borrow can coexist with a mutable one.

use vstd::prelude::*;

verus! {

/// Holder of a value that is accessed one borrow at a time.
pub struct AudioThreadCell<T> {
    inner: T,
}

impl<T> AudioThreadCell<T> {
    /// The value the cell holds.
    pub closed spec fn value(&self) -> T {
        self.inner
    }

    /// A cell holding `val`.
    pub fn new(val: T) -> (c: Self)
        ensures
            c.value() == val,
    {
        AudioThreadCell { inner: val }
    }

    /// Kept for callers that reset the owning thread after a device switch;
    /// the cell pins no owner, so there is nothing to reset.
    pub fn reset_owner(&self) {
    }

    /// Exclusive access to the held value.
    pub fn borrow_mut(&mut self) -> (r: &mut T)
        ensures
            *r == old(self).value(),
            final(self).value() == *final(r),
    {
        &mut self.inner
    }

    /// Shared access to the held value.
    pub fn borrow(&self) -> (r: &T)
        ensures
            *r == self.value(),
    {
        &self.inner
    }
}

} // verus!
