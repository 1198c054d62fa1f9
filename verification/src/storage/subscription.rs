//! Ownership of a registration with an outside event source.

use vstd::prelude::*;

verus! {

/// Owns the handle by which a registration is cancelled, and hands it out at
/// most once.
///
/// The handle is whatever the event source returned on registration. Whoever
/// receives it from [`EventSubscription::release`] cancels the registration;
/// since a second release yields nothing, the cancellation cannot be repeated.
pub struct EventSubscription<U> {
    handle: Option<U>,
}

impl<U> View for EventSubscription<U> {
    type V = Option<U>;

    closed spec fn view(&self) -> Option<U> {
        self.handle
    }
}

impl<U> EventSubscription<U> {
    /// A subscription that holds no registration yet.
    pub fn detached() -> (subscription: Self)
        ensures
            subscription@ is None,
    {
        EventSubscription { handle: None }
    }

    /// A subscription that owns the registration cancelled through `handle`.
    pub fn new(handle: U) -> (subscription: Self)
        ensures
            subscription@ == Some(handle),
    {
        EventSubscription { handle: Some(handle) }
    }

    /// Takes ownership of `handle` and returns the handle held before, which
    /// the caller must cancel lest its registration outlive the subscription.
    pub fn attach(&mut self, handle: U) -> (displaced: Option<U>)
        ensures
            displaced == old(self)@,
            final(self)@ == Some(handle),
    {
        let displaced = self.handle.take();
        self.handle = Some(handle);
        displaced
    }

    /// Whether a registration is still owned.
    pub fn is_active(&self) -> (active: bool)
        ensures
            active == self@.is_some(),
    {
        self.handle.is_some()
    }

    /// Gives up the handle: `Some` the first time a registration is owned,
    /// `None` from then on.
    pub fn release(&mut self) -> (handle: Option<U>)
        ensures
            handle == old(self)@,
            final(self)@ is None,
    {
        self.handle.take()
    }
}

} // verus!
