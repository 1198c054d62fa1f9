//! Bridges between a store that reports through callbacks and promises, and
//! tasks that are polled.
//!
//! [`storage`] turns the callbacks of an upload into a stream that a task
//! polls. [`firestore`] types the failures of the document store and answers
//! the retry loop of its transactions. [`js`] is where both meet the values of
//! the JavaScript side.

pub mod error;
pub mod firestore;
pub mod js;
pub mod storage;
pub mod text;

pub use error::FirebaseError;
