//! Typing the outcomes of calls into the document store.
//!
//! The store is called outside this library. Each function here takes what
//! such a call came back with and hands on the same success, or the failure
//! with its kind made out.

use crate::error::FirebaseError;
use crate::firestore::error::{typed, FirestoreError};
use vstd::prelude::*;

verus! {

/// Whether `result` is what `outcome` is typed to: the same success, or the
/// failure that was reported with its kind made out from its code.
pub open spec fn is_typed<T>(
    outcome: Result<T, FirebaseError>,
    result: Result<T, FirestoreError>,
) -> bool {
    match outcome {
        Ok(value) => result == Ok::<T, FirestoreError>(value),
        Err(source) => result is Err && result->Err_0.source == source && result->Err_0@ == typed(
            source@,
        ),
    }
}

/// Types the outcome of resolving a collection path: the reference to the
/// collection, or the failure with its kind.
pub fn collection<C>(outcome: Result<C, FirebaseError>) -> (result: Result<C, FirestoreError>)
    ensures
        is_typed(outcome, result),
{
    match outcome {
        Ok(reference) => Ok(reference),
        Err(source) => Err(FirestoreError::from(source)),
    }
}

/// The handle of one attempt of a transaction.
///
/// Every attempt gets a handle of its own from the store. A write through the
/// handle gives the handle back, so that writes can be chained.
#[derive(Debug)]
pub struct Transaction<H> {
    handle: H,
}

impl<H> View for Transaction<H> {
    type V = H;

    closed spec fn view(&self) -> H {
        self.handle
    }
}

impl<H> Transaction<H> {
    /// The transaction that `handle` stands for.
    pub fn new(handle: H) -> (transaction: Self)
        ensures
            transaction@ == handle,
    {
        Transaction { handle }
    }

    /// The handle of the store.
    pub fn handle(&self) -> (handle: &H)
        ensures
            *handle == self@,
    {
        &self.handle
    }

    /// Gives the handle back.
    pub fn into_handle(self) -> (handle: H)
        ensures
            handle == self@,
    {
        self.handle
    }

    /// Whether `result` is what the outcome of a write is typed to: the
    /// transaction itself, or the failure that was reported with its kind
    /// made out from its code.
    pub open spec fn is_written(
        self,
        outcome: Result<(), FirebaseError>,
        result: Result<Self, FirestoreError>,
    ) -> bool {
        match outcome {
            Ok(_) => result == Ok::<Self, FirestoreError>(self),
            Err(source) => result is Err && result->Err_0.source == source && result->Err_0@
                == typed(source@),
        }
    }

    /// Types the outcome of reading a document in the transaction: the
    /// document, or the failure with its kind.
    pub fn get<D>(&self, outcome: Result<D, FirebaseError>) -> (result: Result<D, FirestoreError>)
        ensures
            is_typed(outcome, result),
    {
        match outcome {
            Ok(document) => Ok(document),
            Err(source) => Err(FirestoreError::from(source)),
        }
    }

    /// Types the outcome of writing a document in the transaction: the
    /// transaction, to chain the next write, or the failure with its kind.
    pub fn set(self, outcome: Result<(), FirebaseError>) -> (result: Result<Self, FirestoreError>)
        ensures
            self.is_written(outcome, result),
    {
        self.chain(outcome)
    }

    /// Types the outcome of updating a document in the transaction: the
    /// transaction, to chain the next write, or the failure with its kind.
    pub fn update(self, outcome: Result<(), FirebaseError>) -> (result: Result<
        Self,
        FirestoreError,
    >)
        ensures
            self.is_written(outcome, result),
    {
        self.chain(outcome)
    }

    /// Types the outcome of deleting a document in the transaction: the
    /// transaction, to chain the next write, or the failure with its kind.
    pub fn delete(self, outcome: Result<(), FirebaseError>) -> (result: Result<
        Self,
        FirestoreError,
    >)
        ensures
            self.is_written(outcome, result),
    {
        self.chain(outcome)
    }

    fn chain(self, outcome: Result<(), FirebaseError>) -> (result: Result<Self, FirestoreError>)
        ensures
            self.is_written(outcome, result),
    {
        match outcome {
            Ok(_) => Ok(self),
            Err(source) => Err(FirestoreError::from(source)),
        }
    }
}

} // verus!
