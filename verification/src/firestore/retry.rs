//! The bridge between an update function and the retry loop that drives it.
//!
//! The store owns the loop: it invokes the update function once per attempt,
//! one attempt at a time, until the transaction commits or fails for good.
//! The bridge answers each invocation and, once the loop has settled, tells a
//! failure of the store from a value that the update function threw.

use crate::error::{text_or_empty, ErrorView, FirebaseError};
use crate::firestore::error::{typed, FirestoreError, TransactionError, TransactionErrorView};
use crate::text::str_eq;
use vstd::prelude::*;

verus! {

/// Where a bridge stands.
#[derive(Clone, Copy, Debug, PartialEq, Eq, Structural)]
pub enum BridgeState {
    /// No attempt is running; the loop may start one.
    Idle,
    /// An attempt is running and has the update function to itself.
    Running,
    /// The loop has settled; the bridge admits no further attempt.
    Settled,
}

/// What the loop asks of a bridge, or tells it.
pub enum BridgeEvent {
    /// The loop invokes the update function.
    Invoke,
    /// The running attempt has ended.
    Finish,
    /// The loop has come to its final outcome.
    Settle,
}

impl BridgeState {
    /// Whether the event is in order in this state: an attempt starts only
    /// when none is running, and only a running attempt ends.
    pub open spec fn admits(self, event: BridgeEvent) -> bool {
        match event {
            BridgeEvent::Invoke => self == BridgeState::Idle,
            BridgeEvent::Finish => self == BridgeState::Running,
            BridgeEvent::Settle => true,
        }
    }

    /// The state after an event: the event's target where the event is in
    /// order, the same state where it is not.
    pub open spec fn after(self, event: BridgeEvent) -> BridgeState {
        if self.admits(event) {
            match event {
                BridgeEvent::Invoke => BridgeState::Running,
                BridgeEvent::Finish => BridgeState::Idle,
                BridgeEvent::Settle => BridgeState::Settled,
            }
        } else {
            self
        }
    }

    /// The state after a run of events, in order.
    pub open spec fn after_all(self, events: Seq<BridgeEvent>) -> BridgeState
        decreases events.len(),
    {
        if events.len() == 0 {
            self
        } else {
            self.after(events.first()).after_all(events.drop_first())
        }
    }
}

/// What was read of a value that the loop rejected with.
///
/// Values of every sort come through the one channel of rejections: failures
/// of the store, and whatever an update function chose to throw. Nothing but
/// its shape tells one from the other.
#[derive(Clone, Debug, PartialEq, Eq)]
pub struct RejectionShape {
    /// The name of the value's constructor, where the value is an object
    /// whose constructor has one.
    pub constructor: Option<String>,
    /// The value's `code`, where it has one that is a text.
    pub code: Option<String>,
    /// The value's `message`, where it has one that is a text.
    pub message: Option<String>,
}

/// The name of the class of which every failure of the store is an instance.
pub open spec fn store_error_class() -> Seq<char> {
    "FirebaseError"@
}

impl RejectionShape {
    /// Whether the shape is that of a failure of the store: the value is an
    /// object made by the store's error class.
    pub open spec fn is_store_error(self) -> bool {
        self.constructor is Some && self.constructor->0@ == store_error_class()
    }

    /// The failure that the shape holds: its code and its message, each
    /// empty where the value had none.
    pub open spec fn error(self) -> ErrorView {
        ErrorView { code: text_or_empty(self.code), message: text_or_empty(self.message) }
    }

    /// The shape of a value that is no object, or whose constructor has no
    /// name.
    pub fn unstructured() -> (shape: Self)
        ensures
            !shape.is_store_error(),
            shape == (RejectionShape { constructor: None, code: None, message: None }),
    {
        RejectionShape { constructor: None, code: None, message: None }
    }

    /// Whether the shape is that of a failure of the store.
    pub fn names_store_error(&self) -> (structured: bool)
        ensures
            structured == self.is_store_error(),
    {
        match &self.constructor {
            Some(name) => str_eq(name.as_str(), "FirebaseError"),
            None => false,
        }
    }
}

/// What a rejected value is classified as: a failure of the store, with its
/// kind made out from its code, where the value has that shape; the value
/// itself where it has not.
pub open spec fn classified<V>(raw: V, shape: RejectionShape) -> TransactionErrorView<V> {
    if shape.is_store_error() {
        TransactionErrorView::Firestore(typed(shape.error()))
    } else {
        TransactionErrorView::Custom(raw)
    }
}

/// Classifies a rejected value from what was read of it. A value that is no
/// failure of the store is handed on as it is.
pub fn classify<V>(raw: V, shape: RejectionShape) -> (failure: TransactionError<V>)
    ensures
        failure@ == classified(raw, shape),
{
    if shape.names_store_error() {
        let source = FirebaseError::from_properties(shape.code, shape.message);
        TransactionError::Firestore(FirestoreError::from(source))
    } else {
        TransactionError::Custom(raw)
    }
}

/// Answers the retry loop on behalf of one update function.
pub struct RetryBridge {
    state: BridgeState,
}

impl View for RetryBridge {
    type V = BridgeState;

    closed spec fn view(&self) -> BridgeState {
        self.state
    }
}

impl RetryBridge {
    /// A bridge on which no attempt is running.
    pub fn new() -> (bridge: Self)
        ensures
            bridge@ == BridgeState::Idle,
    {
        RetryBridge { state: BridgeState::Idle }
    }

    /// Where the bridge stands.
    pub fn state(&self) -> (state: BridgeState)
        ensures
            state == self@,
    {
        self.state
    }

    /// The loop invokes the update function. Returns whether the attempt may
    /// run: it may not while another attempt runs, nor once the loop has
    /// settled, and the bridge is then left as it was.
    pub fn try_begin_attempt(&mut self) -> (admitted: bool)
        ensures
            admitted == old(self)@.admits(BridgeEvent::Invoke),
            final(self)@ == old(self)@.after(BridgeEvent::Invoke),
    {
        match self.state {
            BridgeState::Idle => {
                self.state = BridgeState::Running;
                true
            },
            _ => false,
        }
    }

    /// The running attempt has ended, and `outcome` is what the update
    /// function gave. The bridge is free for the next attempt and hands the
    /// outcome on unchanged: whether to retry is for the loop to say. Where no
    /// attempt was running the bridge stays as it was.
    pub fn end_attempt<T, E>(&mut self, outcome: Result<T, E>) -> (answer: Result<T, E>)
        ensures
            final(self)@ == old(self)@.after(BridgeEvent::Finish),
            answer == outcome,
    {
        match self.state {
            BridgeState::Running => {
                self.state = BridgeState::Idle;
            },
            _ => {},
        }
        outcome
    }

    /// The loop has come to its final outcome. A success is handed on; a
    /// rejected value is classified from what was read of it, as
    /// [`classify`] says.
    pub fn settle<V>(&mut self, outcome: Result<(), (V, RejectionShape)>) -> (result: Result<
        (),
        TransactionError<V>,
    >)
        ensures
            final(self)@ == old(self)@.after(BridgeEvent::Settle),
            final(self)@ == BridgeState::Settled,
            outcome is Ok <==> result is Ok,
            outcome is Err ==> result->Err_0@ == classified(outcome->Err_0.0, outcome->Err_0.1),
    {
        self.state = BridgeState::Settled;
        match outcome {
            Ok(_) => Ok(()),
            Err((raw, shape)) => Err(classify(raw, shape)),
        }
    }
}

/// Attempts never overlap: while an attempt runs no other is admitted,
/// however often the loop invokes the update function before the attempt
/// ends.
pub proof fn lemma_attempts_are_exclusive(state: BridgeState, events: Seq<BridgeEvent>)
    requires
        state == BridgeState::Running,
        forall|i: int| 0 <= i < events.len() ==> #[trigger] events[i] is Invoke,
    ensures
        state.after_all(events) == BridgeState::Running,
    decreases events.len(),
{
    if events.len() > 0 {
        assert(events[0] is Invoke);
        let rest = events.drop_first();
        assert forall|i: int| 0 <= i < rest.len() implies #[trigger] rest[i] is Invoke by {
            assert(rest[i] == events[i + 1]);
        }
        lemma_attempts_are_exclusive(state.after(events.first()), rest);
    }
}

/// A settled bridge stays settled, whatever the loop still sends.
pub proof fn lemma_settled_is_final(state: BridgeState, events: Seq<BridgeEvent>)
    requires
        state == BridgeState::Settled,
    ensures
        state.after_all(events) == BridgeState::Settled,
    decreases events.len(),
{
    if events.len() > 0 {
        lemma_settled_is_final(state.after(events.first()), events.drop_first());
    }
}

/// A thrown value is never taken for a failure of the store, and a failure
/// of the store is never handed on as thrown: the two classes are told apart
/// by the constructor alone.
pub proof fn lemma_classes_are_disjoint<V>(raw: V, shape: RejectionShape)
    ensures
        classified(raw, shape) is Firestore <==> shape.is_store_error(),
        classified(raw, shape) is Custom <==> !shape.is_store_error(),
        classified(raw, shape) is Custom ==> classified(raw, shape)->Custom_0 == raw,
{
}

} // verus!
