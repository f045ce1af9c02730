//! The error type shared by every fallible operation of the library.

use vstd::prelude::*;

verus! {

/// The broad kind of a failure.
#[derive(PartialEq, Eq, Structural, Clone, Copy, Debug)]
pub enum ErrorCategory {
    /// Unspecified error.
    Generic,
    /// Failure reported by the underlying git object store.
    Git,
    /// Filesystem or path failure.
    Os,
    /// Repository error (reserved).
    Repo,
    /// Editor error (reserved).
    Editor,
    /// Serialization failure.
    IO,
    /// A configuration document is missing a required entry.
    Config,
}

/// The mathematical content of an [`Error`]: its message and its category.
pub ghost struct ErrorV {
    pub msg: Seq<char>,
    pub category: ErrorCategory,
}

/// An error: a human-readable description together with a category.
#[derive(Debug)]
pub struct Error {
    msg: String,
    category: ErrorCategory,
}

impl View for Error {
    type V = ErrorV;

    closed spec fn view(&self) -> ErrorV {
        ErrorV { msg: self.msg@, category: self.category }
    }
}

impl Error {
    /// Constructs an error from a string description and a category.
    pub fn from_string(s: &str, category: ErrorCategory) -> (r: Self)
        ensures
            r@.msg == s@,
            r@.category == category,
    {
        Error { msg: s.to_owned(), category }
    }

    /// The category this error was raised with.
    pub fn category(&self) -> (r: ErrorCategory)
        ensures
            r == self@.category,
    {
        self.category
    }

    /// The description this error was raised with.
    pub fn message(&self) -> (r: &String)
        ensures
            r@ == self@.msg,
    {
        &self.msg
    }
}

} // verus!
