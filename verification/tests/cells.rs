use firebase_bridge::storage::{EventSubscription, SharedCell, WakerSlot};
use std::sync::{Arc, Mutex};
use std::task::{Wake, Waker};

struct Bell {
    rings: Mutex<usize>,
}

impl Bell {
    fn count(&self) -> usize {
        *self.rings.lock().unwrap()
    }
}

impl Wake for Bell {
    fn wake(self: Arc<Self>) {
        *self.rings.lock().unwrap() += 1;
    }
}

fn bell() -> (Arc<Bell>, Waker) {
    let bell = Arc::new(Bell { rings: Mutex::new(0) });
    (bell.clone(), Waker::from(bell))
}

#[test]
fn new_cell_is_empty() {
    let mut cell: SharedCell<u8> = SharedCell::new();
    assert!(!cell.is_pending());
    assert_eq!(cell.take(), None);
}

#[test]
fn cell_hands_out_what_was_put() {
    let mut cell = SharedCell::new();
    cell.put("a".to_string());
    assert!(cell.is_pending());
    assert_eq!(cell.take(), Some("a".to_string()));
    assert!(!cell.is_pending());
    assert_eq!(cell.take(), None);
}

#[test]
fn cell_keeps_only_the_latest() {
    let mut cell = SharedCell::new();
    cell.put(1);
    cell.put(2);
    cell.put(3);
    assert_eq!(cell.take(), Some(3));
    assert_eq!(cell.take(), None);
}

#[test]
fn empty_slot_signals_nobody() {
    let slot = WakerSlot::new();
    assert!(!slot.wake());
}

#[test]
fn slot_signals_the_registered_waker() {
    let mut slot = WakerSlot::new();
    let (bell, waker) = bell();
    slot.register(waker);
    assert!(slot.wake());
    assert!(slot.wake());
    assert_eq!(bell.count(), 2);
}

#[test]
fn slot_forgets_the_earlier_waker() {
    let mut slot = WakerSlot::new();
    let (old, first) = bell();
    let (new, second) = bell();
    slot.register(first);
    slot.register(second);
    assert!(slot.wake());
    assert_eq!(old.count(), 0);
    assert_eq!(new.count(), 1);
}

#[test]
fn detached_subscription_releases_nothing() {
    let mut subscription: EventSubscription<u8> = EventSubscription::detached();
    assert!(!subscription.is_active());
    assert_eq!(subscription.release(), None);
}

#[test]
fn subscription_releases_once() {
    let mut subscription = EventSubscription::new(7);
    assert!(subscription.is_active());
    assert_eq!(subscription.release(), Some(7));
    assert!(!subscription.is_active());
    assert_eq!(subscription.release(), None);
}

#[test]
fn subscription_attach_displaces() {
    let mut subscription = EventSubscription::detached();
    assert_eq!(subscription.attach(1), None);
    assert_eq!(subscription.attach(2), Some(1));
    assert_eq!(subscription.release(), Some(2));
    assert_eq!(subscription.release(), None);
}
