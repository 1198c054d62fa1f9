//! The resumption handle of the task that consumes a stream.

use std::task::Waker;
use vstd::prelude::*;

verus! {

/// `std::task::Waker`: the handle by which a task is resumed. Nothing of it
/// is visible here; a handle is the same as itself and that is all.
#[verifier::external_type_specification]
#[verifier::external_body]
pub struct ExWaker(Waker);

/// Calls `Waker::wake_by_ref`, which asks the executor to poll the task that
/// owns the handle again. Nothing is claimed of the call: it returns nothing
/// and its effect lies with the executor.
#[verifier::external_body]
fn wake_by_ref(waker: &Waker) {
    waker.wake_by_ref()
}

/// Holds the resumption handle of the most recent poll.
///
/// Every poll overwrites the handle, so a producer that signals through the
/// slot always reaches the poll that is waiting now, never an earlier one.
pub struct WakerSlot {
    pending: Option<Waker>,
}

impl View for WakerSlot {
    type V = Option<Waker>;

    closed spec fn view(&self) -> Option<Waker> {
        self.pending
    }
}

impl WakerSlot {
    /// A slot in which no handle is registered.
    pub fn new() -> (slot: Self)
        ensures
            slot@ is None,
    {
        WakerSlot { pending: None }
    }

    /// Registers `waker`, replacing the handle of any earlier poll.
    pub fn register(&mut self, waker: Waker)
        ensures
            final(self)@ == Some(waker),
    {
        self.pending = Some(waker);
    }

    /// Signals the registered handle, if there is one, and says whether there
    /// was. The handle stays registered.
    pub fn wake(&self) -> (signalled: bool)
        ensures
            signalled == self@.is_some(),
    {
        match &self.pending {
            Some(waker) => {
                wake_by_ref(waker);
                true
            },
            None => false,
        }
    }
}

} // verus!
