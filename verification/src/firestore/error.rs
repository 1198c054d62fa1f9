//! Failures of the document store with their kinds, and failures of a
//! transaction.

use crate::error::{ErrorView, FirebaseError};
use crate::firestore::kind::{kind_of_code, FirestoreErrorKind, KindView};
use vstd::prelude::*;
use vstd::std_specs::convert::FromSpecImpl;

verus! {

/// A failure of the document store with its kind made out.
#[derive(Clone, Debug, PartialEq, Eq)]
pub struct FirestoreError {
    /// The kind that the code of `source` stands for.
    pub kind: FirestoreErrorKind,
    /// The failure as the store reported it.
    pub source: FirebaseError,
}

/// A failure of the document store over sequences of characters.
pub struct FirestoreErrorView {
    pub kind: KindView,
    pub source: ErrorView,
}

impl View for FirestoreError {
    type V = FirestoreErrorView;

    open spec fn view(&self) -> FirestoreErrorView {
        FirestoreErrorView { kind: self.kind@, source: self.source@ }
    }
}

/// A reported failure with its kind made out from its code.
pub open spec fn typed(source: ErrorView) -> FirestoreErrorView {
    FirestoreErrorView { kind: kind_of_code(source.code), source }
}

impl FirestoreError {
    /// The failure as the store reported it.
    pub fn source(&self) -> (source: &FirebaseError)
        ensures
            *source == self.source,
    {
        &self.source
    }

    /// The text shown for the failure: the message of its source.
    pub fn to_string(&self) -> (text: String)
        ensures
            text@ == self@.source.message,
    {
        self.source.message.clone()
    }
}

impl From<FirebaseError> for FirestoreError {
    /// Makes out the kind of a failure from its code. No code is refused: one
    /// that names no kind gives `Other`.
    fn from(source: FirebaseError) -> (error: FirestoreError)
        ensures
            error.source == source,
            error@ == typed(source@),
    {
        let kind = FirestoreErrorKind::from_owned(source.code.clone());
        FirestoreError { kind, source }
    }
}

impl FromSpecImpl<FirebaseError> for FirestoreError {
    open spec fn obeys_from_spec() -> bool {
        true
    }

    open spec fn from_spec(source: FirebaseError) -> FirestoreError {
        FirestoreError { kind: FirestoreErrorKind::of(source.code), source }
    }
}

/// How a transaction failed for good.
///
/// `V` is the value that the update function threw, which is handed on as it
/// is.
#[derive(Clone, Debug, PartialEq, Eq)]
pub enum TransactionError<V> {
    /// The store refused the transaction, or the update function failed with
    /// a failure of the store.
    Firestore(FirestoreError),
    /// The update function threw a value of its own.
    Custom(V),
}

/// The failure of a transaction over sequences of characters; a thrown value
/// stands for itself.
pub enum TransactionErrorView<V> {
    Firestore(FirestoreErrorView),
    Custom(V),
}

impl<V> View for TransactionError<V> {
    type V = TransactionErrorView<V>;

    open spec fn view(&self) -> TransactionErrorView<V> {
        match self {
            TransactionError::Firestore(error) => TransactionErrorView::Firestore(error@),
            TransactionError::Custom(thrown) => TransactionErrorView::Custom(*thrown),
        }
    }
}

impl<V> From<FirestoreError> for TransactionError<V> {
    fn from(error: FirestoreError) -> (failure: TransactionError<V>)
    {
        TransactionError::Firestore(error)
    }
}

impl<V> FromSpecImpl<FirestoreError> for TransactionError<V> {
    open spec fn obeys_from_spec() -> bool {
        true
    }

    open spec fn from_spec(error: FirestoreError) -> TransactionError<V> {
        TransactionError::Firestore(error)
    }
}

} // verus!
