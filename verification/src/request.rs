//! Correlation of one pending request with the single notification that
//! resolves it.  A pending request is named by a bus address; its outcome
//! arrives later as one `Response` notification on that address.  The
//! subscription is scoped to that one address and torn down once resolved.

use vstd::prelude::*;
use vstd::string::StringExecFns;

use crate::address::is_object_path;
use crate::error::Error;
use crate::response::{decode_response, spec_decode_response, PayloadRecord, Response, ResponseError};
use crate::wire::Vardict;

verus! {

/// The bus interface on which a pending request emits its outcome.
pub fn request_interface() -> (s: &'static str)
    ensures
        s@ == "org.freedesktop.portal.Request"@,
{
    "org.freedesktop.portal.Request"
}

/// The name of the notification that carries a request's outcome.
pub fn response_member() -> (s: &'static str)
    ensures
        s@ == "Response"@,
{
    "Response"
}

/// An address naming a pending operation at the broker.  Created from the
/// reply to a start-operation call; the correlation step subscribes to the
/// outcome notification on this address and consumes exactly one.
#[derive(Debug)]
pub struct RequestHandle {
    path: String,
}

impl RequestHandle {
    /// The bus address of the pending request.
    pub closed spec fn spec_path(&self) -> Seq<char> {
        self.path@
    }

    /// A handle is well-formed when its address is a valid object address.
    pub open spec fn wf(&self) -> bool {
        is_object_path(self.spec_path())
    }

    /// The handle naming `path`.
    pub closed spec fn spec_new(path: String) -> RequestHandle {
        RequestHandle { path }
    }

    /// The handle naming `path` has exactly that address.
    pub proof fn lemma_spec_new(path: String)
        ensures
            RequestHandle::spec_new(path).spec_path() == path@,
    {
    }

    /// Adopt a bus address as a request handle; refused unless the address is
    /// a well-formed object address.
    pub fn new(path: String) -> (r: Option<RequestHandle>)
        ensures
            is_object_path(path@) ==> r == Some(RequestHandle::spec_new(path)),
            !is_object_path(path@) ==> r is None,
            r matches Some(h) ==> h.wf() && h.spec_path() == path@,
    {
        if crate::address::check_object_path(path.as_str()) {
            Some(RequestHandle { path })
        } else {
            None
        }
    }

    /// The address of the pending request.
    pub fn path(&self) -> (p: &str)
        ensures
            p@ == self.spec_path(),
    {
        self.path.as_str()
    }

    /// Whether a notification observed on the bus belongs to this request's
    /// subscription: its address must be this handle's address and its name
    /// must be the outcome notification's name.  Correlation is by address,
    /// never by ordering or timing.
    pub fn matches_signal(&self, path: &String, member: &String) -> (r: bool)
        ensures
            r == (path@ == self.spec_path() && member@ == "Response"@),
    {
        let response: String = String::from_str("Response");
        self.path == *path && *member == response
    }
}

/// What one correlated wait resolves to, given the one event its subscription
/// observed: `None` when the notification stream closed without a matching
/// notification, or `Some` of the wire tuple the first matching notification
/// carried.
pub open spec fn spec_correlate<T: PayloadRecord>(event: Option<(u32, Vardict)>) -> Result<
    T,
    Error,
> {
    match event {
        None => Err(Error::NoResponse),
        Some((tag, d)) => match spec_decode_response::<T>(tag, d@) {
            Ok(Response::Success(t)) => Ok(t),
            Ok(Response::Cancelled) => Err(Error::Portal(ResponseError::Cancelled)),
            Ok(Response::Other) => Err(Error::Portal(ResponseError::Other)),
            Err(e) => Err(e),
        },
    }
}

/// Resolve a correlated wait from the one event its subscription observed.
/// A closed stream is `NoResponse`; a matching notification is decoded and a
/// broker-reported failure outcome is surfaced as a protocol error.  Nothing
/// is retried: one event decides the wait.
pub fn correlate<T: PayloadRecord>(event: Option<(u32, Vardict)>) -> (r: Result<T, Error>)
    ensures
        r == spec_correlate::<T>(event),
{
    match event {
        None => Err(Error::NoResponse),
        Some((tag, d)) => match decode_response::<T>(tag, &d) {
            Ok(Response::Success(t)) => Ok(t),
            Ok(Response::Cancelled) => Err(Error::Portal(ResponseError::Cancelled)),
            Ok(Response::Other) => Err(Error::Portal(ResponseError::Other)),
            Err(e) => Err(e),
        },
    }
}

/// Law: a subscription whose notification stream closes before any matching
/// notification arrives resolves to `NoResponse` — the wait ends, it does
/// not hang.
pub proof fn lemma_closed_stream_no_response<T: PayloadRecord>(event: Option<(u32, Vardict)>)
    requires
        event is None,
    ensures
        spec_correlate::<T>(event) == Err::<T, Error>(Error::NoResponse),
{
}

} // verus!
