//! The handle naming a remote session.  A session is a longer-lived stateful
//! resource at the broker; the client side holds only its address, obtained
//! from the successful outcome of a start-operation request.  The
//! authoritative session state lives in the remote broker.

use vstd::prelude::*;

use crate::address::is_object_path;

verus! {

/// The bus interface of a session object.
pub fn session_interface() -> (s: &'static str)
    ensures
        s@ == "org.freedesktop.portal.Session"@,
{
    "org.freedesktop.portal.Session"
}

/// An address naming a remote session.  Constructed only from a successful
/// response whose payload yields a well-formed session address.
#[derive(Debug)]
pub struct SessionHandle {
    path: String,
}

impl SessionHandle {
    /// The bus address of the session.
    pub closed spec fn spec_path(&self) -> Seq<char> {
        self.path@
    }

    /// A handle is well-formed when its address is a valid object address.
    pub open spec fn wf(&self) -> bool {
        is_object_path(self.spec_path())
    }

    /// The handle naming `path`.
    pub closed spec fn spec_new(path: String) -> SessionHandle {
        SessionHandle { path }
    }

    /// The handle naming `path` has exactly that address.
    pub proof fn lemma_spec_new(path: String)
        ensures
            SessionHandle::spec_new(path).spec_path() == path@,
    {
    }

    /// Adopt a session address from a successful response; refused unless it
    /// parses as a well-formed object address.
    pub fn new(path: String) -> (r: Option<SessionHandle>)
        ensures
            is_object_path(path@) ==> r == Some(SessionHandle::spec_new(path)),
            !is_object_path(path@) ==> r is None,
            r matches Some(h) ==> h.wf() && h.spec_path() == path@,
    {
        if crate::address::check_object_path(path.as_str()) {
            Some(SessionHandle { path })
        } else {
            None
        }
    }

    /// The address of the session.
    pub fn path(&self) -> (p: &str)
        ensures
            p@ == self.spec_path(),
    {
        self.path.as_str()
    }
}

} // verus!
