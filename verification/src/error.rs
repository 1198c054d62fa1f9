//! The failure that the outside store reports.

use vstd::prelude::*;

verus! {

/// A failure as the store reports it: a code that names its kind, and a
/// message for a reader.
#[derive(Clone, Debug, PartialEq, Eq)]
pub struct FirebaseError {
    pub code: String,
    pub message: String,
}

/// A reported failure as two sequences of characters.
pub struct ErrorView {
    pub code: Seq<char>,
    pub message: Seq<char>,
}

impl View for FirebaseError {
    type V = ErrorView;

    open spec fn view(&self) -> ErrorView {
        ErrorView { code: self.code@, message: self.message@ }
    }
}

/// The text of a property that was read, and the empty text for one that was
/// not there.
pub open spec fn text_or_empty(property: Option<String>) -> Seq<char> {
    match property {
        Some(text) => text@,
        None => Seq::empty(),
    }
}

impl FirebaseError {
    /// A failure with the given code and message.
    pub fn new(code: String, message: String) -> (error: Self)
        ensures
            error.code == code,
            error.message == message,
    {
        FirebaseError { code, message }
    }

    /// The failure that a thrown value stands for, from what was read of its
    /// `code` and `message`. A property that was not there, or was no text,
    /// is read as the empty text.
    pub fn from_properties(code: Option<String>, message: Option<String>) -> (error: Self)
        ensures
            error@ == (ErrorView { code: text_or_empty(code), message: text_or_empty(message) }),
    {
        let code = match code {
            Some(code) => code,
            None => String::new(),
        };
        let message = match message {
            Some(message) => message,
            None => String::new(),
        };
        FirebaseError { code, message }
    }

    /// The code that names the kind of the failure.
    pub fn code(&self) -> (code: &str)
        ensures
            code@ == self@.code,
    {
        self.code.as_str()
    }

    /// The message of the failure.
    pub fn message(&self) -> (message: &str)
        ensures
            message@ == self@.message,
    {
        self.message.as_str()
    }
}

} // verus!
