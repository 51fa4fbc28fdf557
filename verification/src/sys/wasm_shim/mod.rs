//! The platform layer for a host that is watched until it has answered.

pub mod laws;
pub mod terminal;

use vstd::prelude::*;

verus! {

/// An error of the platform layer.
#[derive(Debug)]
pub enum PlatformError {
    /// An error that is described by its message alone.
    Message(String),
}

impl PlatformError {
    /// The text that describes this error to a user.
    pub fn message(&self) -> (text: String)
        ensures
            *self matches PlatformError::Message(message) && text == message,
    {
        match self {
            PlatformError::Message(message) => message.clone(),
        }
    }
}

} // verus!
