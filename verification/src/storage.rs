//! The blob store: the stream of progress of an upload.

pub mod cell;
pub mod stream;
pub mod subscription;
pub mod trace;
pub mod waker;

pub use cell::SharedCell;
pub use stream::{Polled, Step, UploadTaskAsyncIter};
pub use subscription::EventSubscription;
pub use waker::WakerSlot;
