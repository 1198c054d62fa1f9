//! A pull-based sequence over events that an outside source pushes.
//!
//! The source delivers progress snapshots, then at most one error or a bare
//! completion, each through a callback that may fire at any time between two
//! polls. The consumer polls for the next element and is woken when one may
//! be there. [`StreamView`] is the mathematical state of such a stream, its
//! spec functions are the transitions, and [`UploadTaskAsyncIter`] is the
//! executable stream that follows them.

use crate::storage::cell::SharedCell;
use crate::storage::subscription::EventSubscription;
use crate::storage::waker::WakerSlot;
use std::task::Waker;
use vstd::prelude::*;

verus! {

/// What a poll found: nothing yet, or a value.
#[derive(Debug, PartialEq, Eq)]
pub enum Step<T> {
    /// Nothing to hand out yet; the registered handle is signalled on the
    /// next delivery.
    Pending,
    /// The next value.
    Ready(T),
}

/// One element of the sequence as a poll reports it: `Ready(Some(Ok(_)))` for
/// a snapshot, `Ready(Some(Err(_)))` for the terminal error, `Ready(None)`
/// once the sequence is exhausted.
pub type Polled<S, E> = Step<Option<Result<S, E>>>;

/// The state of a stream.
pub struct StreamView<S, E, U> {
    /// The latest snapshot delivered and not yet consumed.
    pub snapshot: Option<S>,
    /// The terminal error delivered and not yet consumed.
    pub err: Option<E>,
    /// Whether the source has completed, with or without an error.
    pub completed: bool,
    /// The handle of the most recent poll.
    pub waker: Option<Waker>,
    /// The handle that cancels the registration, while it has not been
    /// released.
    pub subscription: Option<U>,
}

/// Something that happens to a stream: a delivery by the source, or a poll
/// or the close by the consumer.
pub enum Event<S, E> {
    /// The source reports progress.
    Snapshot(S),
    /// The source fails.
    Error(E),
    /// The source completes without an error.
    Complete,
    /// The consumer asks for the next element.
    Poll(Waker),
    /// The consumer gives the stream up and takes the handle that cancels
    /// the registration.
    Close,
}

impl<S, E, U> StreamView<S, E, U> {
    /// The state of a stream on which nothing has happened.
    pub open spec fn initial(subscription: Option<U>) -> Self {
        StreamView { snapshot: None, err: None, completed: false, waker: None, subscription }
    }

    /// A pending error implies completion: an error is never delivered
    /// without completing the stream.
    pub open spec fn wf(self) -> bool {
        self.err is Some ==> self.completed
    }

    /// The state after a snapshot is delivered: it replaces any snapshot that
    /// was not consumed.
    pub open spec fn on_snapshot(self, snapshot: S) -> Self {
        StreamView { snapshot: Some(snapshot), ..self }
    }

    /// The state after an error is delivered: the error is pending and the
    /// stream is completed.
    pub open spec fn on_err(self, err: E) -> Self {
        StreamView { err: Some(err), completed: true, ..self }
    }

    /// The state after a completion is delivered.
    pub open spec fn on_complete(self) -> Self {
        StreamView { completed: true, ..self }
    }

    /// What a poll of this state reports. Completion is looked at before the
    /// snapshot, so a snapshot that races with the end is never handed out
    /// after it.
    pub open spec fn polled(self) -> Polled<S, E> {
        if self.completed {
            match self.err {
                Some(err) => Step::Ready(Some(Err(err))),
                None => Step::Ready(None),
            }
        } else {
            match self.snapshot {
                Some(snapshot) => Step::Ready(Some(Ok(snapshot))),
                None => Step::Pending,
            }
        }
    }

    /// The state after a poll with `waker`: the handle is registered, and
    /// what the poll reported is consumed.
    pub open spec fn after_poll(self, waker: Waker) -> Self {
        if self.completed {
            StreamView { err: None, waker: Some(waker), ..self }
        } else {
            StreamView { snapshot: None, waker: Some(waker), ..self }
        }
    }

    /// The state after the registration handle is released.
    pub open spec fn after_close(self) -> Self {
        StreamView { subscription: None, ..self }
    }

    /// The state after one event.
    pub open spec fn after(self, event: Event<S, E>) -> Self {
        match event {
            Event::Snapshot(snapshot) => self.on_snapshot(snapshot),
            Event::Error(err) => self.on_err(err),
            Event::Complete => self.on_complete(),
            Event::Poll(waker) => self.after_poll(waker),
            Event::Close => self.after_close(),
        }
    }

    /// The state after a run of events, in order.
    pub open spec fn after_all(self, events: Seq<Event<S, E>>) -> Self
        decreases events.len(),
    {
        if events.len() == 0 {
            self
        } else {
            self.after(events.first()).after_all(events.drop_first())
        }
    }

    /// The handles that the closes among `events` hand out, in order: each
    /// close hands out the handle that the stream owns, if it owns one.
    pub open spec fn released(self, events: Seq<Event<S, E>>) -> Seq<U>
        decreases events.len(),
    {
        if events.len() == 0 {
            seq![]
        } else {
            let rest = self.after(events.first()).released(events.drop_first());
            match (events.first(), self.subscription) {
                (Event::Close, Some(handle)) => seq![handle] + rest,
                _ => rest,
            }
        }
    }

    /// What the polls among `events` report, in order.
    pub open spec fn reports(self, events: Seq<Event<S, E>>) -> Seq<Polled<S, E>>
        decreases events.len(),
    {
        if events.len() == 0 {
            seq![]
        } else {
            let rest = self.after(events.first()).reports(events.drop_first());
            match events.first() {
                Event::Poll(_) => seq![self.polled()] + rest,
                _ => rest,
            }
        }
    }
}

/// A stream of progress snapshots that ends with an error or a completion.
///
/// `S` is a snapshot, `E` the terminal error, `U` the handle that cancels the
/// registration with the source.
pub struct UploadTaskAsyncIter<S, E, U> {
    snapshot: SharedCell<S>,
    err: SharedCell<E>,
    completed: bool,
    waker: WakerSlot,
    unsub: EventSubscription<U>,
}

impl<S, E, U> View for UploadTaskAsyncIter<S, E, U> {
    type V = StreamView<S, E, U>;

    closed spec fn view(&self) -> StreamView<S, E, U> {
        StreamView {
            snapshot: self.snapshot@,
            err: self.err@,
            completed: self.completed,
            waker: self.waker@,
            subscription: self.unsub@,
        }
    }
}

impl<S, E, U> UploadTaskAsyncIter<S, E, U> {
    /// A stream on which nothing has happened and which owns no registration
    /// yet.
    pub fn new() -> (stream: Self)
        ensures
            stream@ == StreamView::<S, E, U>::initial(None),
    {
        UploadTaskAsyncIter {
            snapshot: SharedCell::new(),
            err: SharedCell::new(),
            completed: false,
            waker: WakerSlot::new(),
            unsub: EventSubscription::detached(),
        }
    }

    /// Hands the stream the handle that cancels its registration. Returns the
    /// handle it owned before, which the caller must cancel.
    pub fn attach(&mut self, handle: U) -> (displaced: Option<U>)
        ensures
            displaced == old(self)@.subscription,
            final(self)@ == (StreamView { subscription: Some(handle), ..old(self)@ }),
    {
        self.unsub.attach(handle)
    }

    /// The source reports progress: stores the snapshot over any that was not
    /// consumed and signals the waiting poll. Returns whether a poll was
    /// waiting.
    pub fn on_snapshot(&mut self, snapshot: S) -> (signalled: bool)
        ensures
            final(self)@ == old(self)@.on_snapshot(snapshot),
            signalled == old(self)@.waker.is_some(),
    {
        self.snapshot.put(snapshot);
        self.waker.wake()
    }

    /// The source fails: stores the error, completes the stream and signals
    /// the waiting poll. Returns whether a poll was waiting.
    pub fn on_err(&mut self, err: E) -> (signalled: bool)
        ensures
            final(self)@ == old(self)@.on_err(err),
            signalled == old(self)@.waker.is_some(),
    {
        self.completed = true;
        self.err.put(err);
        self.waker.wake()
    }

    /// The source completes: marks the stream completed and signals the
    /// waiting poll. Returns whether a poll was waiting.
    pub fn on_complete(&mut self) -> (signalled: bool)
        ensures
            final(self)@ == old(self)@.on_complete(),
            signalled == old(self)@.waker.is_some(),
    {
        self.completed = true;
        self.waker.wake()
    }

    /// The consumer asks for the next element and leaves `waker` to be
    /// signalled by the next delivery.
    ///
    /// The handle is registered first and in every case. A completed stream
    /// then reports its pending error once and is exhausted from then on; a
    /// running stream reports its pending snapshot, or `Pending`.
    pub fn poll_next(&mut self, waker: Waker) -> (item: Polled<S, E>)
        ensures
            item == old(self)@.polled(),
            final(self)@ == old(self)@.after_poll(waker),
    {
        self.waker.register(waker);
        if self.completed {
            match self.err.take() {
                Some(err) => Step::Ready(Some(Err(err))),
                None => Step::Ready(None),
            }
        } else {
            match self.snapshot.take() {
                Some(snapshot) => Step::Ready(Some(Ok(snapshot))),
                None => Step::Pending,
            }
        }
    }

    /// Releases the handle that cancels the registration: `Some` the first
    /// time a registration is owned, `None` from then on. Whoever receives
    /// the handle cancels the registration.
    pub fn close(&mut self) -> (handle: Option<U>)
        ensures
            handle == old(self)@.subscription,
            final(self)@ == old(self)@.after_close(),
    {
        self.unsub.release()
    }
}

} // verus!
