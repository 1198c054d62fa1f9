//! The document store: its failures, its query operators, and the bridge to
//! its transactions.

pub mod error;
pub mod kind;
pub mod query;
pub mod retry;
pub mod transaction;

pub use error::{FirestoreError, TransactionError};
pub use kind::FirestoreErrorKind;
pub use query::QueryConstraintOp;
pub use retry::{classify, BridgeState, RejectionShape, RetryBridge};
pub use transaction::{collection, Transaction};
