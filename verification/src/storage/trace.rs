//! What holds of a stream over every run of events.
//!
//! The statements are over [`StreamView`], the state in which the contracts
//! of [`UploadTaskAsyncIter`](crate::storage::stream::UploadTaskAsyncIter) are
//! written, so each of them holds of the executable stream as well.

use crate::storage::stream::{Event, Polled, Step, StreamView};
use std::task::Waker;
use vstd::prelude::*;

verus! {

/// Whether a poll reported a snapshot.
pub open spec fn is_snapshot<S, E>(item: Polled<S, E>) -> bool {
    item matches Step::Ready(Some(Ok(_)))
}

/// Whether every event of the run is a poll.
pub open spec fn only_polls<S, E>(events: Seq<Event<S, E>>) -> bool {
    forall|i: int| 0 <= i < events.len() ==> #[trigger] events[i] is Poll
}

/// Whether an event is a delivery by the source.
pub open spec fn is_delivery<S, E>(event: Event<S, E>) -> bool {
    event is Snapshot || event is Error || event is Complete
}

/// Whether every event of the run is a delivery: the source delivers and the
/// consumer is idle.
pub open spec fn only_deliveries<S, E>(events: Seq<Event<S, E>>) -> bool {
    forall|i: int| 0 <= i < events.len() ==> is_delivery(#[trigger] events[i])
}

/// A pending error implies completion in every state that a stream goes
/// through: it holds of a stream on which nothing has happened, and no event
/// undoes it.
pub proof fn lemma_error_implies_completion<S, E, U>(
    subscription: Option<U>,
    events: Seq<Event<S, E>>,
)
    ensures
        StreamView::<S, E, U>::initial(subscription).after_all(events).wf(),
{
    lemma_well_formed_is_kept(StreamView::<S, E, U>::initial(subscription), events);
}

/// No event, and no release of the registration, makes a well-formed state
/// ill-formed.
pub proof fn lemma_well_formed_is_kept<S, E, U>(
    state: StreamView<S, E, U>,
    events: Seq<Event<S, E>>,
)
    requires
        state.wf(),
    ensures
        state.after_all(events).wf(),
        state.after_close().wf(),
    decreases events.len(),
{
    if events.len() > 0 {
        lemma_well_formed_is_kept(state.after(events.first()), events.drop_first());
    }
}

/// Completion is permanent: no event brings a completed stream back.
pub proof fn lemma_completion_is_permanent<S, E, U>(
    state: StreamView<S, E, U>,
    events: Seq<Event<S, E>>,
)
    requires
        state.completed,
    ensures
        state.after_all(events).completed,
    decreases events.len(),
{
    if events.len() > 0 {
        lemma_completion_is_permanent(state.after(events.first()), events.drop_first());
    }
}

/// Latest wins: of two snapshots delivered to a running stream before a poll,
/// the poll reports the second, and the poll after it reports nothing, so the
/// first is never seen and the second is not seen twice. A snapshot delivered
/// after the consuming poll is reported by the next one.
pub proof fn lemma_latest_wins<S, E, U>(
    state: StreamView<S, E, U>,
    first: S,
    second: S,
    third: S,
    waker: Waker,
)
    requires
        !state.completed,
    ensures
        state.on_snapshot(first).on_snapshot(second).polled() == Step::Ready(Some(Ok::<S, E>(second))),
        state.on_snapshot(first).on_snapshot(second).after_poll(waker).polled()
            == Step::<Option<Result<S, E>>>::Pending,
        state.on_snapshot(first).on_snapshot(second).after_poll(waker).on_snapshot(third).polled()
            == Step::Ready(Some(Ok::<S, E>(third))),
        state.reports(
            seq![
                Event::Snapshot(first),
                Event::Snapshot(second),
                Event::Poll(waker),
                Event::Poll(waker),
            ],
        ) == seq![Step::Ready(Some(Ok::<S, E>(second))), Step::Pending],
{
    let events = seq![
        Event::<S, E>::Snapshot(first),
        Event::Snapshot(second),
        Event::Poll(waker),
        Event::Poll(waker),
    ];
    let s1 = state.on_snapshot(first);
    let s2 = s1.on_snapshot(second);
    let s3 = s2.after_poll(waker);
    let s4 = s3.after_poll(waker);
    let e1 = events.drop_first();
    let e2 = e1.drop_first();
    let e3 = e2.drop_first();
    let e4 = e3.drop_first();
    assert(e4.len() == 0);
    assert(s4.reports(e4) == Seq::<Polled<S, E>>::empty());
    assert(s3.reports(e3) == seq![s3.polled()] + s4.reports(e4));
    assert(s2.reports(e2) == seq![s2.polled()] + s3.reports(e3));
    assert(s1.reports(e1) == s2.reports(e2));
    assert(state.reports(events) == s1.reports(e1));
    assert(state.reports(events) =~= seq![Step::Ready(Some(Ok::<S, E>(second))), Step::Pending]);
}

/// Completion takes precedence: when a snapshot and the end of the stream are
/// both delivered before a poll, in either order, the poll reports the end.
/// After a bare completion that is exhaustion; after an error it is the
/// error, and exhaustion on the poll after it.
pub proof fn lemma_completion_precedence<S, E, U>(
    state: StreamView<S, E, U>,
    snapshot: S,
    err: E,
    waker: Waker,
)
    requires
        state.wf(),
        !state.completed,
    ensures
        state.on_snapshot(snapshot).on_complete().polled() == Step::<Option<Result<S, E>>>::Ready(None),
        state.on_complete().on_snapshot(snapshot).polled() == Step::<Option<Result<S, E>>>::Ready(None),
        state.on_snapshot(snapshot).on_err(err).polled() == Step::Ready(Some(Err::<S, E>(err))),
        state.on_err(err).on_snapshot(snapshot).polled() == Step::Ready(Some(Err::<S, E>(err))),
        state.on_snapshot(snapshot).on_err(err).after_poll(waker).polled()
            == Step::<Option<Result<S, E>>>::Ready(None),
{
}

/// Once a stream is completed no poll reports a snapshot again, whatever is
/// delivered afterwards.
pub proof fn lemma_no_snapshot_once_completed<S, E, U>(
    state: StreamView<S, E, U>,
    events: Seq<Event<S, E>>,
)
    requires
        state.completed,
    ensures
        forall|i: int|
            0 <= i < state.reports(events).len() ==> !is_snapshot(#[trigger] state.reports(events)[i]),
    decreases events.len(),
{
    if events.len() > 0 {
        let next = state.after(events.first());
        let rest = next.reports(events.drop_first());
        lemma_no_snapshot_once_completed(next, events.drop_first());
        assert forall|i: int| 0 <= i < state.reports(events).len() implies !is_snapshot(
            #[trigger] state.reports(events)[i],
        ) by {
            if events.first() is Poll {
                if i > 0 {
                    assert(state.reports(events)[i] == rest[i - 1]);
                }
            }
        }
    }
}

/// Whether the consumer closes the stream in the course of the run.
pub open spec fn has_close<S, E>(events: Seq<Event<S, E>>) -> bool {
    exists|i: int| 0 <= i < events.len() && #[trigger] events[i] is Close
}

/// The registration is cancelled exactly once. Whatever is delivered and
/// however often the stream is polled or closed, a run in which the consumer
/// closes the stream hands out the handle that the stream owned, once, and no
/// other; a run in which it does not hands out nothing and leaves the handle
/// with the stream.
pub proof fn lemma_single_deregistration<S, E, U>(
    state: StreamView<S, E, U>,
    handle: U,
    events: Seq<Event<S, E>>,
)
    requires
        state.subscription == Some(handle),
    ensures
        has_close(events) ==> state.released(events) == seq![handle],
        has_close(events) ==> state.after_all(events).subscription is None,
        !has_close(events) ==> state.released(events) == Seq::<U>::empty(),
        !has_close(events) ==> state.after_all(events).subscription == Some(handle),
    decreases events.len(),
{
    if events.len() > 0 {
        let next = state.after(events.first());
        let rest = events.drop_first();
        if events.first() is Close {
            assert(has_close(events)) by {
                assert(events[0] is Close);
            }
            lemma_nothing_left_to_release(next, rest);
            assert(state.released(events) =~= seq![handle]);
        } else {
            lemma_single_deregistration(next, handle, rest);
            if has_close(events) {
                let i = choose|i: int| 0 <= i < events.len() && #[trigger] events[i] is Close;
                assert(rest[i - 1] is Close);
                assert(has_close(rest));
            } else {
                assert forall|i: int| 0 <= i < rest.len() implies !(#[trigger] rest[i] is Close) by {
                    assert(rest[i] == events[i + 1]);
                }
            }
        }
    }
}

/// A stream that owns no registration hands out no handle, whatever happens
/// to it afterwards.
pub proof fn lemma_nothing_left_to_release<S, E, U>(
    state: StreamView<S, E, U>,
    events: Seq<Event<S, E>>,
)
    requires
        state.subscription is None,
    ensures
        state.released(events) == Seq::<U>::empty(),
        state.after_all(events).subscription is None,
    decreases events.len(),
{
    if events.len() > 0 {
        lemma_nothing_left_to_release(state.after(events.first()), events.drop_first());
    }
}

/// Exhaustion is final: a completed stream with no pending error reports
/// exhaustion at every poll, however many follow, and stays as it is.
pub proof fn lemma_exhaustion_is_final<S, E, U>(
    state: StreamView<S, E, U>,
    polls: Seq<Event<S, E>>,
)
    requires
        state.completed,
        state.err is None,
        only_polls(polls),
    ensures
        state.reports(polls).len() == polls.len(),
        forall|i: int|
            0 <= i < polls.len() ==> #[trigger] state.reports(polls)[i] == Step::<
                Option<Result<S, E>>,
            >::Ready(None),
        state.after_all(polls).completed,
        state.after_all(polls).err is None,
    decreases polls.len(),
{
    if polls.len() > 0 {
        let next = state.after(polls.first());
        let rest = polls.drop_first();
        assert(polls[0] is Poll);
        assert forall|i: int| 0 <= i < rest.len() implies #[trigger] rest[i] is Poll by {
            assert(rest[i] == polls[i + 1]);
        }
        lemma_exhaustion_is_final(next, rest);
        assert forall|i: int| 0 <= i < polls.len() implies #[trigger] state.reports(polls)[i]
            == Step::<Option<Result<S, E>>>::Ready(None) by {
            if i > 0 {
                assert(state.reports(polls)[i] == next.reports(rest)[i - 1]);
            }
        }
    }
}

/// An error is never swallowed and never repeated: whatever state it is
/// delivered in, the next poll reports it, and the polls after that one
/// report exhaustion for as long as nothing else is delivered.
pub proof fn lemma_error_is_reported_once<S, E, U>(
    state: StreamView<S, E, U>,
    err: E,
    waker: Waker,
    polls: Seq<Event<S, E>>,
)
    requires
        only_polls(polls),
    ensures
        state.on_err(err).polled() == Step::Ready(Some(Err::<S, E>(err))),
        state.on_err(err).after_poll(waker).reports(polls).len() == polls.len(),
        forall|i: int|
            0 <= i < polls.len() ==> #[trigger] state.on_err(err).after_poll(waker).reports(polls)[i]
                == Step::<Option<Result<S, E>>>::Ready(None),
{
    lemma_exhaustion_is_final(state.on_err(err).after_poll(waker), polls);
}

/// No wakeup is lost: the handle of the latest poll stays registered through
/// every delivery that follows, so each of them signals that poll and none
/// before it.
pub proof fn lemma_latest_waker_is_kept<S, E, U>(
    state: StreamView<S, E, U>,
    waker: Waker,
    deliveries: Seq<Event<S, E>>,
)
    requires
        only_deliveries(deliveries),
    ensures
        state.after_poll(waker).waker == Some(waker),
        state.after_poll(waker).after_all(deliveries).waker == Some(waker),
{
    lemma_deliveries_keep_waker(state.after_poll(waker), deliveries);
}

/// No delivery changes the registered handle.
pub proof fn lemma_deliveries_keep_waker<S, E, U>(
    state: StreamView<S, E, U>,
    deliveries: Seq<Event<S, E>>,
)
    requires
        only_deliveries(deliveries),
    ensures
        state.after_all(deliveries).waker == state.waker,
    decreases deliveries.len(),
{
    if deliveries.len() > 0 {
        let rest = deliveries.drop_first();
        assert(is_delivery(deliveries[0]));
        assert forall|i: int| 0 <= i < rest.len() implies is_delivery(#[trigger] rest[i]) by {
            assert(rest[i] == deliveries[i + 1]);
        }
        lemma_deliveries_keep_waker(state.after(deliveries.first()), rest);
    }
}

} // verus!
