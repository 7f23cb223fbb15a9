//! Error types for the Relix lexer and parser.
//!
//! All recoverable failures in the lexer and parser are reported as
//! [`RelixError`] values rather than panics, so callers can handle them
//! programmatically.

use vstd::prelude::*;

verus! {

/// The error type for Relix lexing and parsing operations.
#[derive(Debug, Clone, PartialEq, Eq)]
pub struct RelixError {
    /// A human-readable description of the error.
    message: String,
}

impl View for RelixError {
    type V = Seq<char>;

    /// The model of an error is its message.
    closed spec fn view(&self) -> Seq<char> {
        self.message@
    }
}

impl RelixError {
    /// Creates a new error with the given message.
    pub fn new(message: &str) -> (err: Self)
        ensures
            err@ == message@,
    {
        RelixError { message: message.to_owned() }
    }

    /// Creates a new error that takes ownership of the given message.
    pub fn from_message(message: String) -> (err: Self)
        ensures
            err@ == message@,
    {
        RelixError { message }
    }

    /// Returns the error message.
    pub fn message(&self) -> (text: &str)
        ensures
            text@ == self@,
    {
        self.message.as_str()
    }
}

impl From<String> for RelixError {
    /// Wraps an owned message.
    fn from(message: String) -> (err: Self)
        ensures
            err@ == message@,
    {
        RelixError { message }
    }
}

impl vstd::std_specs::convert::FromSpecImpl<String> for RelixError {
    open spec fn obeys_from_spec() -> bool {
        true
    }

    closed spec fn from_spec(v: String) -> Self {
        RelixError { message: v }
    }
}

impl<'a> From<&'a str> for RelixError {
    /// Copies a borrowed message.
    fn from(message: &'a str) -> (err: Self)
        ensures
            err@ == message@,
    {
        RelixError::new(message)
    }
}

/// Two equal messages need not be equal strings to the verifier, so no
/// spec function gives the result; the `ensures` of `from` states its model.
impl<'a> vstd::std_specs::convert::FromSpecImpl<&'a str> for RelixError {
    open spec fn obeys_from_spec() -> bool {
        false
    }

    open spec fn from_spec(v: &'a str) -> Self {
        arbitrary()
    }
}

} // verus!
