//! What the cluster can report, and the errors the context hands to its caller.

use vstd::prelude::*;

verus! {

/// The status code with which the cluster reports that an object is absent.
pub const NOT_FOUND: u16 = 404;

/// The status code with which the cluster reports that an identity is taken.
pub const CONFLICT: u16 = 409;

/// A failed call to the cluster, as the transport handed it back.
#[derive(Clone, Debug, PartialEq, Eq)]
pub enum Failure {
    /// The API server answered with an error status.
    Api { code: u16, reason: String, message: String },
    /// The call failed for any other cause (connection, protocol, decoding).
    Other { message: String },
}

impl Failure {
    /// The server's status code, where the server answered at all.
    pub open spec fn status_code(&self) -> Option<u16> {
        match self {
            Failure::Api { code, .. } => Some(*code),
            Failure::Other { .. } => None,
        }
    }

    /// Whether the server reported that the target is absent.
    pub open spec fn is_not_found(&self) -> bool {
        self.status_code() == Some(NOT_FOUND)
    }

    /// Whether the server reported that the identity already exists.
    pub open spec fn is_conflict(&self) -> bool {
        self.status_code() == Some(CONFLICT)
    }

    /// Whether this failure is an answer of the server with the status `code`.
    pub fn has_code(&self, code: u16) -> (r: bool)
        ensures
            r == (self.status_code() == Some(code)),
    {
        match self {
            Failure::Api { code: c, .. } => *c == code,
            Failure::Other { .. } => false,
        }
    }
}

/// The errors of the context.
#[derive(Clone, Debug, PartialEq, Eq)]
pub enum Error {
    /// The target object is absent.
    NotFound,
    /// Any other failure of the cluster, with its cause.
    Upstream(Failure),
    /// An object body could not be encoded or decoded.
    Serialization(String),
}

} // verus!
