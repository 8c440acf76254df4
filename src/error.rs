//! An error value: a result code and, for unknown errors only, a message
//! with the underlying details. Known codes carry no message: the caller
//! maps the code to its own text.
use crate::types::{result_code, QuicResult};
use vstd::prelude::*;

verus! {

/// A result code with an optional detail message.
#[derive(Clone)]
pub struct QuicError {
    code: QuicResult,
    message: Option<String>,
}

impl View for QuicError {
    type V = (QuicResult, Option<Seq<char>>);

    closed spec fn view(&self) -> (QuicResult, Option<Seq<char>>) {
        (
            self.code,
            match self.message {
                Some(m) => Some(m@),
                None => None,
            },
        )
    }
}

impl QuicError {
    /// An error of a known kind: its code and no message.
    pub fn from_code(code: QuicResult) -> (r: QuicError)
        ensures
            r@ == (code, None::<Seq<char>>),
    {
        QuicError { code, message: None }
    }

    /// An unknown error with its detail message.
    pub fn unknown(message: String) -> (r: QuicError)
        ensures
            r@ == (QuicResult::UnknownError, Some(message@)),
    {
        QuicError { code: QuicResult::UnknownError, message: Some(message) }
    }

    /// The result code.
    pub fn code(&self) -> (r: QuicResult)
        ensures
            r == self@.0,
    {
        self.code
    }

    /// The numeric value of the result code.
    pub fn code_value(&self) -> (r: i32)
        ensures
            r == result_code(self@.0),
    {
        self.code.code()
    }

    /// The detail message, which only unknown errors carry.
    pub fn message(&self) -> (r: Option<&str>)
        ensures
            r is Some == self@.1 is Some,
            r matches Some(t) ==> t@ == self@.1.unwrap(),
    {
        match &self.message {
            Some(m) => Some(m.as_str()),
            None => None,
        }
    }

    /// Whether the code is success, that is, no real error.
    pub fn is_success(&self) -> (r: bool)
        ensures
            r == (self@.0 == QuicResult::Success),
    {
        self.code.is_success()
    }
}

} // verus!
