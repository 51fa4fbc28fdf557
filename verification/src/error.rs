//! The errors that terminal operations report.

use crate::sys::wasm::PlatformError;
use vstd::prelude::*;

verus! {

/// What went wrong.
#[derive(Debug)]
pub enum Kind {
    /// An input or output error of no more specific kind, with its message.
    IoError(String),
    /// An error of the platform layer.
    PlatformError(PlatformError),
}

/// An error of the shell's core.
#[derive(Debug)]
pub struct Error {
    /// What went wrong.
    pub kind: Kind,
}

impl Error {
    /// Whether this is an input or output error with message `text`.
    pub open spec fn is_io(self, text: Seq<char>) -> bool {
        self.kind matches Kind::IoError(message) && message@ == text
    }

    /// The input or output error with message `message`.
    pub fn io(message: String) -> (error: Error)
        ensures
            error.is_io(message@),
    {
        Error { kind: Kind::IoError(message) }
    }
}

/// Whether `result` is what `expected` describes: the same value, or an input or output error
/// with that message.
pub open spec fn reports<T>(result: Result<T, Error>, expected: Result<T, Seq<char>>) -> bool {
    match expected {
        Ok(value) => result == Ok::<T, Error>(value),
        Err(text) => result matches Err(error) && error.is_io(text),
    }
}

} // verus!
