//! The failures that can occur between start-up and serving.

use crate::container::{NotRegistered, TypeKey};
use vstd::prelude::*;
use vstd::std_specs::convert::FromSpecImpl;

verus! {

/// A failure of the application's start-up.
#[derive(Clone, Copy, PartialEq, Eq, Structural, Debug)]
pub enum Error {
    /// A service was asked for whose type has no entry in the registry.
    NotRegistered { requested_type: TypeKey },
    /// The server could not take the port it was told to listen on.
    BindFailure { port: u16 },
}

impl Error {
    /// Whether the process has to end on this failure. A missing registration
    /// is left to the caller; a port that cannot be bound ends the process.
    pub fn is_fatal(&self) -> (fatal: bool)
        ensures
            fatal == (*self is BindFailure),
    {
        match self {
            Error::NotRegistered { .. } => false,
            Error::BindFailure { .. } => true,
        }
    }
}

impl From<NotRegistered> for Error {
    fn from(e: NotRegistered) -> (r: Error) {
        Error::NotRegistered { requested_type: e.requested_type }
    }
}

impl FromSpecImpl<NotRegistered> for Error {
    open spec fn obeys_from_spec() -> bool {
        true
    }

    open spec fn from_spec(e: NotRegistered) -> Error {
        Error::NotRegistered { requested_type: e.requested_type }
    }
}

} // verus!
