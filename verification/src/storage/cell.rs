//! A slot for at most one pending value, written by a producer and emptied by
//! a consumer.

use vstd::prelude::*;

verus! {

/// Holds at most one value that has been delivered and not yet consumed.
///
/// A second value put before the first is taken replaces it: the slot never
/// queues.
pub struct SharedCell<T> {
    value: Option<T>,
}

impl<T> View for SharedCell<T> {
    type V = Option<T>;

    closed spec fn view(&self) -> Option<T> {
        self.value
    }
}

impl<T> SharedCell<T> {
    /// An empty slot.
    pub fn new() -> (cell: Self)
        ensures
            cell@ is None,
    {
        SharedCell { value: None }
    }

    /// Stores `value`, discarding whatever was pending.
    pub fn put(&mut self, value: T)
        ensures
            final(self)@ == Some(value),
    {
        self.value = Some(value);
    }

    /// Removes and returns the pending value, leaving the slot empty.
    pub fn take(&mut self) -> (taken: Option<T>)
        ensures
            taken == old(self)@,
            final(self)@ is None,
    {
        self.value.take()
    }

    /// Whether a value is pending.
    pub fn is_pending(&self) -> (pending: bool)
        ensures
            pending == self@.is_some(),
    {
        self.value.is_some()
    }
}

} // verus!
