//! The platform layer for a host that calls back when it has answered.

pub mod laws;
pub mod terminal;

use crate::error::Kind;
use vstd::prelude::*;

verus! {

/// An error of the platform layer.
#[derive(Debug)]
pub enum PlatformError {
    /// An error that is described by its message alone.
    Message(String),
}

impl PlatformError {
    /// The text that describes this error to a user.
    pub fn message(&self) -> (text: String)
        ensures
            *self matches PlatformError::Message(message) && text == message,
    {
        match self {
            PlatformError::Message(message) => message.clone(),
        }
    }
}

impl From<PlatformError> for Kind {
    fn from(err: PlatformError) -> (kind: Kind) {
        Kind::PlatformError(err)
    }
}

impl vstd::std_specs::convert::FromSpecImpl<PlatformError> for Kind {
    open spec fn obeys_from_spec() -> bool {
        true
    }

    open spec fn from_spec(err: PlatformError) -> Kind {
        Kind::PlatformError(err)
    }
}

/// A platform error stays the error that it is when it becomes an error of the core.
pub proof fn platform_errors_are_kept(err: PlatformError)
    ensures
        <Kind as vstd::std_specs::convert::FromSpec<PlatformError>>::obeys_from_spec(),
        <Kind as vstd::std_specs::convert::FromSpec<PlatformError>>::from_spec(err)
            == Kind::PlatformError(err),
{
}

} // verus!
