use firebase_bridge::storage::{Polled, Step, UploadTaskAsyncIter};
use std::sync::{Arc, Mutex};
use std::task::{Wake, Waker};

struct Counter {
    wakes: Mutex<usize>,
}

impl Counter {
    fn count(&self) -> usize {
        *self.wakes.lock().unwrap()
    }
}

impl Wake for Counter {
    fn wake(self: Arc<Self>) {
        *self.wakes.lock().unwrap() += 1;
    }
}

fn counting_waker() -> (Arc<Counter>, Waker) {
    let counter = Arc::new(Counter { wakes: Mutex::new(0) });
    (counter.clone(), Waker::from(counter))
}

fn waker() -> Waker {
    counting_waker().1
}

type Stream = UploadTaskAsyncIter<u32, String, u32>;

fn item(percent: u32) -> Polled<u32, String> {
    Step::Ready(Some(Ok(percent)))
}

fn failure(text: &str) -> Polled<u32, String> {
    Step::Ready(Some(Err(text.to_string())))
}

fn exhausted() -> Polled<u32, String> {
    Step::Ready(None)
}

#[test]
fn fresh_stream_is_pending() {
    let mut stream = Stream::new();
    assert_eq!(stream.poll_next(waker()), Step::Pending);
    assert_eq!(stream.poll_next(waker()), Step::Pending);
}

#[test]
fn progress_then_completion() {
    let mut stream = Stream::new();
    stream.on_snapshot(10);
    assert_eq!(stream.poll_next(waker()), item(10));
    stream.on_snapshot(55);
    stream.on_snapshot(90);
    assert_eq!(stream.poll_next(waker()), item(90));
    stream.on_complete();
    assert_eq!(stream.poll_next(waker()), exhausted());
}

#[test]
fn error_then_exhaustion() {
    let mut stream = Stream::new();
    stream.on_err("quota".to_string());
    assert_eq!(stream.poll_next(waker()), failure("quota"));
    assert_eq!(stream.poll_next(waker()), exhausted());
}

#[test]
fn latest_snapshot_wins() {
    let mut stream = Stream::new();
    stream.on_snapshot(1);
    stream.on_snapshot(2);
    assert_eq!(stream.poll_next(waker()), item(2));
    assert_eq!(stream.poll_next(waker()), Step::Pending);
    stream.on_snapshot(3);
    assert_eq!(stream.poll_next(waker()), item(3));
    assert_eq!(stream.poll_next(waker()), Step::Pending);
}

#[test]
fn completion_precedes_pending_snapshot() {
    let mut stream = Stream::new();
    stream.on_snapshot(40);
    stream.on_complete();
    assert_eq!(stream.poll_next(waker()), exhausted());
    assert_eq!(stream.poll_next(waker()), exhausted());
}

#[test]
fn completion_precedes_snapshot_delivered_after_it() {
    let mut stream = Stream::new();
    stream.on_complete();
    stream.on_snapshot(40);
    assert_eq!(stream.poll_next(waker()), exhausted());
    stream.on_snapshot(41);
    assert_eq!(stream.poll_next(waker()), exhausted());
}

#[test]
fn error_precedes_pending_snapshot() {
    let mut stream = Stream::new();
    stream.on_snapshot(40);
    stream.on_err("aborted".to_string());
    assert_eq!(stream.poll_next(waker()), failure("aborted"));
    assert_eq!(stream.poll_next(waker()), exhausted());
    assert_eq!(stream.poll_next(waker()), exhausted());
}

#[test]
fn error_is_consumed_once() {
    let mut stream = Stream::new();
    stream.on_err("first".to_string());
    assert_eq!(stream.poll_next(waker()), failure("first"));
    for _ in 0..5 {
        assert_eq!(stream.poll_next(waker()), exhausted());
    }
}

#[test]
fn later_error_replaces_unconsumed_error() {
    let mut stream = Stream::new();
    stream.on_err("first".to_string());
    stream.on_err("second".to_string());
    assert_eq!(stream.poll_next(waker()), failure("second"));
    assert_eq!(stream.poll_next(waker()), exhausted());
}

#[test]
fn error_after_completion_is_still_reported() {
    let mut stream = Stream::new();
    stream.on_complete();
    assert_eq!(stream.poll_next(waker()), exhausted());
    stream.on_err("late".to_string());
    assert_eq!(stream.poll_next(waker()), failure("late"));
    assert_eq!(stream.poll_next(waker()), exhausted());
}

#[test]
fn exhaustion_is_idempotent() {
    let mut stream = Stream::new();
    stream.on_complete();
    for _ in 0..10 {
        assert_eq!(stream.poll_next(waker()), exhausted());
    }
}

#[test]
fn delivery_before_any_poll_signals_nobody() {
    let mut stream = Stream::new();
    assert!(!stream.on_snapshot(1));
    assert!(!stream.on_complete());
    let mut failed = Stream::new();
    assert!(!failed.on_err("x".to_string()));
}

#[test]
fn every_delivery_signals_the_waiting_poll() {
    let mut stream = Stream::new();
    let (counter, waker) = counting_waker();
    assert_eq!(stream.poll_next(waker), Step::Pending);
    assert!(stream.on_snapshot(1));
    assert_eq!(counter.count(), 1);
    assert!(stream.on_snapshot(2));
    assert_eq!(counter.count(), 2);
    assert!(stream.on_complete());
    assert_eq!(counter.count(), 3);
    assert!(stream.on_err("x".to_string()));
    assert_eq!(counter.count(), 4);
}

#[test]
fn only_the_latest_poll_is_signalled() {
    let mut stream = Stream::new();
    let (stale, first) = counting_waker();
    let (current, second) = counting_waker();
    assert_eq!(stream.poll_next(first), Step::Pending);
    assert_eq!(stream.poll_next(second), Step::Pending);
    assert!(stream.on_snapshot(7));
    assert_eq!(stale.count(), 0);
    assert_eq!(current.count(), 1);
}

#[test]
fn poll_registers_its_waker_even_when_it_yields() {
    let mut stream = Stream::new();
    stream.on_snapshot(1);
    let (counter, waker) = counting_waker();
    assert_eq!(stream.poll_next(waker), item(1));
    assert!(stream.on_snapshot(2));
    assert_eq!(counter.count(), 1);
}

#[test]
fn poll_of_completed_stream_registers_its_waker() {
    let mut stream = Stream::new();
    stream.on_complete();
    let (counter, waker) = counting_waker();
    assert_eq!(stream.poll_next(waker), exhausted());
    assert!(stream.on_err("late".to_string()));
    assert_eq!(counter.count(), 1);
}

#[test]
fn registration_is_released_exactly_once() {
    let mut stream = Stream::new();
    assert_eq!(stream.attach(17), None);
    assert_eq!(stream.close(), Some(17));
    assert_eq!(stream.close(), None);
    assert_eq!(stream.close(), None);
}

#[test]
fn registration_survives_deliveries_and_polls() {
    for deliveries in [0u32, 1, 2, 50] {
        let mut stream = Stream::new();
        stream.attach(99);
        for percent in 0..deliveries {
            stream.on_snapshot(percent);
            if percent % 3 == 0 {
                stream.poll_next(waker());
            }
        }
        stream.on_complete();
        stream.poll_next(waker());
        assert_eq!(stream.close(), Some(99));
        stream.on_snapshot(1);
        stream.poll_next(waker());
        assert_eq!(stream.close(), None);
    }
}

#[test]
fn registration_is_released_after_error_too() {
    let mut stream = Stream::new();
    stream.attach(5);
    stream.on_err("x".to_string());
    assert_eq!(stream.close(), Some(5));
    assert_eq!(stream.close(), None);
}

#[test]
fn abandoned_stream_still_releases() {
    let mut stream = Stream::new();
    stream.attach(5);
    stream.on_snapshot(30);
    assert_eq!(stream.close(), Some(5));
}

#[test]
fn close_without_registration_releases_nothing() {
    let mut stream = Stream::new();
    assert_eq!(stream.close(), None);
}

#[test]
fn attach_hands_back_the_displaced_handle() {
    let mut stream = Stream::new();
    assert_eq!(stream.attach(1), None);
    assert_eq!(stream.attach(2), Some(1));
    assert_eq!(stream.close(), Some(2));
}

#[test]
fn close_leaves_pending_items_in_place() {
    let mut stream = Stream::new();
    stream.attach(1);
    stream.on_snapshot(64);
    assert_eq!(stream.close(), Some(1));
    assert_eq!(stream.poll_next(waker()), item(64));
}

#[test]
fn deregistration_callback_runs_once() {
    let calls = Arc::new(Mutex::new(0usize));
    let mut stream: UploadTaskAsyncIter<u32, String, Arc<Mutex<usize>>> = UploadTaskAsyncIter::new();
    stream.attach(calls.clone());
    stream.on_snapshot(1);
    stream.on_snapshot(2);
    for _ in 0..3 {
        if let Some(handle) = stream.close() {
            *handle.lock().unwrap() += 1;
        }
    }
    assert_eq!(*calls.lock().unwrap(), 1);
}
