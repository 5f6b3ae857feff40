//! The closed taxonomy of failures used by every component of the library.

use vstd::prelude::*;

use crate::response::ResponseError;

verus! {

/// Everything that can go wrong while negotiating an operation with the
/// broker.  Each failure is surfaced to the caller of the originating
/// operation; nothing is retried or suppressed.
#[derive(Debug, Clone, Copy, PartialEq, Eq, Structural)]
pub enum Error {
    /// The broker reported an expected, well-formed failure outcome: the user
    /// cancelled, or the broker declined for an unspecified reason.
    Portal(ResponseError),
    /// The underlying bus connection or method call failed.
    Transport,
    /// A reply or notification did not match the expected wire shape: wrong
    /// tuple arity, wrong field types, or an unparsable address.
    MalformedMessage,
    /// The notification stream ended before any matching notification
    /// arrived.
    NoResponse,
}

impl Error {
    /// A short description of the failure, for reporting at the edge of the
    /// program.
    pub fn describe(&self) -> (s: &'static str)
        ensures
            self is Portal ==> (self->0 is Cancelled ==> s@ == "portal error: cancelled"@)
                && (self->0 is Other ==> s@ == "portal error: other"@),
            self is Transport ==> s@ == "transport error"@,
            self is MalformedMessage ==> s@ == "malformed message"@,
            self is NoResponse ==> s@ == "portal error: no response"@,
    {
        match self {
            Error::Portal(ResponseError::Cancelled) => "portal error: cancelled",
            Error::Portal(ResponseError::Other) => "portal error: other",
            Error::Transport => "transport error",
            Error::MalformedMessage => "malformed message",
            Error::NoResponse => "portal error: no response",
        }
    }
}

} // verus!
