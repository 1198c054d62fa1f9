//! The kinds of failure that the document store reports, and the codes that
//! name them.

use crate::text::str_eq;
use vstd::prelude::*;

verus! {

/// The kind of a failure of the document store.
///
/// Each kind but the last stands for one code. A code that stands for none of
/// them is kept as it came, in `Other`, so that codes the store adds later
/// are not lost.
#[derive(Clone, Debug, PartialEq, Eq)]
#[non_exhaustive]
pub enum FirestoreErrorKind {
    /// `cancelled`: the operation was cancelled.
    Cancelled,
    /// `unknown`: an error of unknown cause.
    Unknown,
    /// `invalid-argument`: the caller gave an argument that is not valid.
    InvalidArgument,
    /// `deadline-exceeded`: the deadline passed before the operation could finish.
    DeadlineExceeded,
    /// `not-found`: a document that was asked for does not exist.
    NotFound,
    /// `already-exists`: a document that was to be created exists already.
    AlreadyExists,
    /// `permission-denied`: the caller may not run the operation.
    PermissionDenied,
    /// `resource-exhausted`: a quota or another resource is used up.
    ResourceExhausted,
    /// `failed-precondition`: the store is not in the state that the operation needs.
    FailedPrecondition,
    /// `aborted`: the operation was aborted, mostly over contention.
    Aborted,
    /// `out-of-range`: the operation went past the valid range.
    OutOfRange,
    /// `unimplemented`: the operation is not implemented or not enabled.
    Unimplemented,
    /// `internal`: an invariant of the store itself is broken.
    Internal,
    /// `unavailable`: the service cannot be reached at the moment.
    Unavailable,
    /// `data-loss`: data was lost or corrupted beyond recovery.
    DataLoss,
    /// `unauthenticated`: the request carries no valid credentials.
    Unauthenticated,
    /// Any other code, kept as it came.
    Other(String),
}

/// A kind with the text of an unrecognised code as a sequence of characters.
pub enum KindView {
    Cancelled,
    Unknown,
    InvalidArgument,
    DeadlineExceeded,
    NotFound,
    AlreadyExists,
    PermissionDenied,
    ResourceExhausted,
    FailedPrecondition,
    Aborted,
    OutOfRange,
    Unimplemented,
    Internal,
    Unavailable,
    DataLoss,
    Unauthenticated,
    Other(Seq<char>),
}

impl KindView {
    /// The code that the kind stands for; for `Other`, the code it keeps.
    pub open spec fn code(self) -> Seq<char> {
        match self {
            KindView::Cancelled => "cancelled"@,
            KindView::Unknown => "unknown"@,
            KindView::InvalidArgument => "invalid-argument"@,
            KindView::DeadlineExceeded => "deadline-exceeded"@,
            KindView::NotFound => "not-found"@,
            KindView::AlreadyExists => "already-exists"@,
            KindView::PermissionDenied => "permission-denied"@,
            KindView::ResourceExhausted => "resource-exhausted"@,
            KindView::FailedPrecondition => "failed-precondition"@,
            KindView::Aborted => "aborted"@,
            KindView::OutOfRange => "out-of-range"@,
            KindView::Unimplemented => "unimplemented"@,
            KindView::Internal => "internal"@,
            KindView::Unavailable => "unavailable"@,
            KindView::DataLoss => "data-loss"@,
            KindView::Unauthenticated => "unauthenticated"@,
            KindView::Other(code) => code,
        }
    }
}

impl View for FirestoreErrorKind {
    type V = KindView;

    open spec fn view(&self) -> KindView {
        match self {
            FirestoreErrorKind::Cancelled => KindView::Cancelled,
            FirestoreErrorKind::Unknown => KindView::Unknown,
            FirestoreErrorKind::InvalidArgument => KindView::InvalidArgument,
            FirestoreErrorKind::DeadlineExceeded => KindView::DeadlineExceeded,
            FirestoreErrorKind::NotFound => KindView::NotFound,
            FirestoreErrorKind::AlreadyExists => KindView::AlreadyExists,
            FirestoreErrorKind::PermissionDenied => KindView::PermissionDenied,
            FirestoreErrorKind::ResourceExhausted => KindView::ResourceExhausted,
            FirestoreErrorKind::FailedPrecondition => KindView::FailedPrecondition,
            FirestoreErrorKind::Aborted => KindView::Aborted,
            FirestoreErrorKind::OutOfRange => KindView::OutOfRange,
            FirestoreErrorKind::Unimplemented => KindView::Unimplemented,
            FirestoreErrorKind::Internal => KindView::Internal,
            FirestoreErrorKind::Unavailable => KindView::Unavailable,
            FirestoreErrorKind::DataLoss => KindView::DataLoss,
            FirestoreErrorKind::Unauthenticated => KindView::Unauthenticated,
            FirestoreErrorKind::Other(code) => KindView::Other(code@),
        }
    }
}

/// The kind that a code stands for.
pub open spec fn kind_of_code(code: Seq<char>) -> KindView {
    if code == "cancelled"@ {
        KindView::Cancelled
    } else if code == "unknown"@ {
        KindView::Unknown
    } else if code == "invalid-argument"@ {
        KindView::InvalidArgument
    } else if code == "deadline-exceeded"@ {
        KindView::DeadlineExceeded
    } else if code == "not-found"@ {
        KindView::NotFound
    } else if code == "already-exists"@ {
        KindView::AlreadyExists
    } else if code == "permission-denied"@ {
        KindView::PermissionDenied
    } else if code == "resource-exhausted"@ {
        KindView::ResourceExhausted
    } else if code == "failed-precondition"@ {
        KindView::FailedPrecondition
    } else if code == "aborted"@ {
        KindView::Aborted
    } else if code == "out-of-range"@ {
        KindView::OutOfRange
    } else if code == "unimplemented"@ {
        KindView::Unimplemented
    } else if code == "internal"@ {
        KindView::Internal
    } else if code == "unavailable"@ {
        KindView::Unavailable
    } else if code == "data-loss"@ {
        KindView::DataLoss
    } else if code == "unauthenticated"@ {
        KindView::Unauthenticated
    } else {
        KindView::Other(code)
    }
}

impl FirestoreErrorKind {
    /// The kind that the code held in `code` stands for; `Other` holds that
    /// very string.
    pub open spec fn of(code: String) -> FirestoreErrorKind {
        if code@ == "cancelled"@ {
            FirestoreErrorKind::Cancelled
        } else if code@ == "unknown"@ {
            FirestoreErrorKind::Unknown
        } else if code@ == "invalid-argument"@ {
            FirestoreErrorKind::InvalidArgument
        } else if code@ == "deadline-exceeded"@ {
            FirestoreErrorKind::DeadlineExceeded
        } else if code@ == "not-found"@ {
            FirestoreErrorKind::NotFound
        } else if code@ == "already-exists"@ {
            FirestoreErrorKind::AlreadyExists
        } else if code@ == "permission-denied"@ {
            FirestoreErrorKind::PermissionDenied
        } else if code@ == "resource-exhausted"@ {
            FirestoreErrorKind::ResourceExhausted
        } else if code@ == "failed-precondition"@ {
            FirestoreErrorKind::FailedPrecondition
        } else if code@ == "aborted"@ {
            FirestoreErrorKind::Aborted
        } else if code@ == "out-of-range"@ {
            FirestoreErrorKind::OutOfRange
        } else if code@ == "unimplemented"@ {
            FirestoreErrorKind::Unimplemented
        } else if code@ == "internal"@ {
            FirestoreErrorKind::Internal
        } else if code@ == "unavailable"@ {
            FirestoreErrorKind::Unavailable
        } else if code@ == "data-loss"@ {
            FirestoreErrorKind::DataLoss
        } else if code@ == "unauthenticated"@ {
            FirestoreErrorKind::Unauthenticated
        } else {
            FirestoreErrorKind::Other(code)
        }
    }

    /// The kind that `code` stands for. An unrecognised code moves into
    /// `Other` unchanged.
    pub fn from_owned(code: String) -> (kind: Self)
        ensures
            kind == Self::of(code),
            kind@ == kind_of_code(code@),
    {
        if str_eq(code.as_str(), "cancelled") {
            FirestoreErrorKind::Cancelled
        } else if str_eq(code.as_str(), "unknown") {
            FirestoreErrorKind::Unknown
        } else if str_eq(code.as_str(), "invalid-argument") {
            FirestoreErrorKind::InvalidArgument
        } else if str_eq(code.as_str(), "deadline-exceeded") {
            FirestoreErrorKind::DeadlineExceeded
        } else if str_eq(code.as_str(), "not-found") {
            FirestoreErrorKind::NotFound
        } else if str_eq(code.as_str(), "already-exists") {
            FirestoreErrorKind::AlreadyExists
        } else if str_eq(code.as_str(), "permission-denied") {
            FirestoreErrorKind::PermissionDenied
        } else if str_eq(code.as_str(), "resource-exhausted") {
            FirestoreErrorKind::ResourceExhausted
        } else if str_eq(code.as_str(), "failed-precondition") {
            FirestoreErrorKind::FailedPrecondition
        } else if str_eq(code.as_str(), "aborted") {
            FirestoreErrorKind::Aborted
        } else if str_eq(code.as_str(), "out-of-range") {
            FirestoreErrorKind::OutOfRange
        } else if str_eq(code.as_str(), "unimplemented") {
            FirestoreErrorKind::Unimplemented
        } else if str_eq(code.as_str(), "internal") {
            FirestoreErrorKind::Internal
        } else if str_eq(code.as_str(), "unavailable") {
            FirestoreErrorKind::Unavailable
        } else if str_eq(code.as_str(), "data-loss") {
            FirestoreErrorKind::DataLoss
        } else if str_eq(code.as_str(), "unauthenticated") {
            FirestoreErrorKind::Unauthenticated
        } else {
            FirestoreErrorKind::Other(code)
        }
    }

    /// The kind that `code` stands for.
    pub fn from_code(code: &str) -> (kind: Self)
        ensures
            kind@ == kind_of_code(code@),
    {
        Self::from_owned(code.to_owned())
    }
}

impl core::str::FromStr for FirestoreErrorKind {
    type Err = core::convert::Infallible;

    /// The kind that `code` stands for. No code is refused.
    fn from_str(code: &str) -> (parsed: Result<Self, core::convert::Infallible>)
        ensures
            parsed is Ok,
            parsed->Ok_0@ == kind_of_code(code@),
    {
        Ok(Self::from_code(code))
    }
}

/// Each of the sixteen codes stands for its own kind, and for no other.
pub proof fn lemma_known_codes()
    ensures
        kind_of_code("cancelled"@) == KindView::Cancelled,
        kind_of_code("unknown"@) == KindView::Unknown,
        kind_of_code("invalid-argument"@) == KindView::InvalidArgument,
        kind_of_code("deadline-exceeded"@) == KindView::DeadlineExceeded,
        kind_of_code("not-found"@) == KindView::NotFound,
        kind_of_code("already-exists"@) == KindView::AlreadyExists,
        kind_of_code("permission-denied"@) == KindView::PermissionDenied,
        kind_of_code("resource-exhausted"@) == KindView::ResourceExhausted,
        kind_of_code("failed-precondition"@) == KindView::FailedPrecondition,
        kind_of_code("aborted"@) == KindView::Aborted,
        kind_of_code("out-of-range"@) == KindView::OutOfRange,
        kind_of_code("unimplemented"@) == KindView::Unimplemented,
        kind_of_code("internal"@) == KindView::Internal,
        kind_of_code("unavailable"@) == KindView::Unavailable,
        kind_of_code("data-loss"@) == KindView::DataLoss,
        kind_of_code("unauthenticated"@) == KindView::Unauthenticated,
{
    reveal_strlit("cancelled");
    reveal_strlit("unknown");
    reveal_strlit("invalid-argument");
    reveal_strlit("deadline-exceeded");
    reveal_strlit("not-found");
    reveal_strlit("already-exists");
    reveal_strlit("permission-denied");
    reveal_strlit("resource-exhausted");
    reveal_strlit("failed-precondition");
    reveal_strlit("aborted");
    reveal_strlit("out-of-range");
    reveal_strlit("unimplemented");
    reveal_strlit("internal");
    reveal_strlit("unavailable");
    reveal_strlit("data-loss");
    reveal_strlit("unauthenticated");
    // Codes of different lengths differ; those of one length differ in their
    // first character.
    assert("cancelled"@.len() == 9);
    assert("unknown"@.len() == 7);
    assert("invalid-argument"@.len() == 16);
    assert("deadline-exceeded"@.len() == 17);
    assert("not-found"@.len() == 9);
    assert("already-exists"@.len() == 14);
    assert("permission-denied"@.len() == 17);
    assert("resource-exhausted"@.len() == 18);
    assert("failed-precondition"@.len() == 19);
    assert("aborted"@.len() == 7);
    assert("out-of-range"@.len() == 12);
    assert("unimplemented"@.len() == 13);
    assert("internal"@.len() == 8);
    assert("unavailable"@.len() == 11);
    assert("data-loss"@.len() == 9);
    assert("unauthenticated"@.len() == 15);
    assert("cancelled"@[0] == 'c');
    assert("not-found"@[0] == 'n');
    assert("data-loss"@[0] == 'd');
    assert("unknown"@[0] == 'u');
    assert("aborted"@[0] == 'a');
    assert("deadline-exceeded"@[0] == 'd');
    assert("permission-denied"@[0] == 'p');
}

/// No code is lost: the kind that a code stands for stands for that code.
pub proof fn lemma_code_is_kept(code: Seq<char>)
    ensures
        kind_of_code(code).code() == code,
{
}

/// A code is kept in `Other` exactly when it is none of the sixteen.
pub proof fn lemma_other_keeps_code(code: Seq<char>)
    ensures
        kind_of_code(code) is Other ==> kind_of_code(code) == KindView::Other(code),
        kind_of_code(code) is Other <==> !is_known_code(code),
{
}

/// Whether a code is one of the sixteen that have a kind of their own.
pub open spec fn is_known_code(code: Seq<char>) -> bool {
    code == "cancelled"@
    || code == "unknown"@
    || code == "invalid-argument"@
    || code == "deadline-exceeded"@
    || code == "not-found"@
    || code == "already-exists"@
    || code == "permission-denied"@
    || code == "resource-exhausted"@
    || code == "failed-precondition"@
    || code == "aborted"@
    || code == "out-of-range"@
    || code == "unimplemented"@
    || code == "internal"@
    || code == "unavailable"@
    || code == "data-loss"@
    || code == "unauthenticated"@
}

} // verus!
