//! The end-to-end flow for starting a screen-cast operation: issue the
//! start-operation call, adopt the pending-request address from its reply,
//! await the correlated outcome notification, and turn a successful outcome
//! into a session handle.  The flow is a state machine; the caller performs
//! the bus work each transition asks for and feeds the observed event back.

use vstd::prelude::*;
use vstd::string::StringExecFns;

use crate::address::is_object_path;
use crate::error::Error;
use crate::request::RequestHandle;
use crate::response::{decode_response, spec_decode_response, PayloadRecord, Response, ResponseError};
use crate::session::SessionHandle;
use crate::wire::{lookup, spec_lookup, Vardict, WireValue};

verus! {

/// The well-known bus name of the broker service.
pub fn portal_destination() -> (s: &'static str)
    ensures
        s@ == "org.freedesktop.portal.Desktop"@,
{
    "org.freedesktop.portal.Desktop"
}

/// The fixed object address of the top-level broker interface.
pub fn portal_object_path() -> (s: &'static str)
    ensures
        s@ == "/org/freedesktop/portal/desktop"@,
{
    "/org/freedesktop/portal/desktop"
}

/// The bus interface that starts screen-cast operations.
pub fn screencast_interface() -> (s: &'static str)
    ensures
        s@ == "org.freedesktop.portal.ScreenCast"@,
{
    "org.freedesktop.portal.ScreenCast"
}

/// The method that begins a screen-cast session.
pub fn create_session_method() -> (s: &'static str)
    ensures
        s@ == "CreateSession"@,
{
    "CreateSession"
}

/// The results of a successful create-session request.
#[derive(Debug, PartialEq)]
pub struct CreateSession {
    /// The address of the newly created session.
    pub session_handle: String,
}

impl PayloadRecord for CreateSession {
    open spec fn spec_decode(d: Seq<(String, WireValue)>) -> Option<CreateSession> {
        match spec_lookup(d, "session_handle"@) {
            Some(WireValue::Str(s)) => Some(CreateSession { session_handle: s }),
            _ => None,
        }
    }

    fn decode(d: &Vec<(String, WireValue)>) -> (r: Option<Self>) {
        let key: String = String::from_str("session_handle");
        match lookup(d, &key) {
            Some(WireValue::Str(s)) => Some(CreateSession { session_handle: s.clone() }),
            _ => None,
        }
    }
}

/// Where one create-session flow stands.  The four right-hand states of the
/// protocol — session ready, cancelled, other failure, transport failure —
/// are `SessionReady` and `Failed`; both are terminal.
#[derive(Debug)]
pub enum FlowState {
    /// Nothing has happened yet.
    Started,
    /// The start-operation call was issued; its reply is awaited.
    AwaitingRequestHandle,
    /// The pending request is known; its outcome notification is awaited on
    /// the held request address.
    AwaitingResponse(RequestHandle),
    /// The flow ended with a session.
    SessionReady(SessionHandle),
    /// The flow ended in failure.
    Failed(Error),
}

/// What the flow's driver observed on the bus.
#[derive(Debug)]
pub enum FlowEvent {
    /// The caller asks the flow to begin.
    Begin,
    /// The start-operation reply arrived; `Some` of the pending-request
    /// address its body carried, or `None` when the body had no such shape.
    Reply(Option<String>),
    /// The outcome notification arrived with its `(status, payload)` tuple.
    Notification(u32, Vardict),
    /// The notification stream closed without a matching notification.
    StreamClosed,
    /// The bus connection or call failed.
    TransportFailed,
}

/// What the flow asks its driver to do next.
#[derive(Debug, PartialEq, Eq, Structural)]
pub enum FlowAction {
    /// Issue the start-operation method call and report its reply.
    CallCreateSession,
    /// Subscribe to the outcome notification on the held request address and
    /// report the first matching notification, or that the stream closed.
    AwaitResponse,
    /// The flow is over; nothing more will be asked.
    Stop,
}

/// The one-step transition of the create-session flow: from a state and an
/// observed event to the next state and the work the driver must do.  Events
/// that cannot follow from the state leave it unchanged.
pub open spec fn spec_flow_step(s: FlowState, e: FlowEvent) -> (FlowState, FlowAction) {
    match s {
        FlowState::Started => match e {
            FlowEvent::Begin => (FlowState::AwaitingRequestHandle, FlowAction::CallCreateSession),
            _ => (s, FlowAction::Stop),
        },
        FlowState::AwaitingRequestHandle => match e {
            FlowEvent::Reply(body) => match body {
                Some(p) => if is_object_path(p@) {
                    (
                        FlowState::AwaitingResponse(RequestHandle::spec_new(p)),
                        FlowAction::AwaitResponse,
                    )
                } else {
                    (FlowState::Failed(Error::MalformedMessage), FlowAction::Stop)
                },
                None => (FlowState::Failed(Error::MalformedMessage), FlowAction::Stop),
            },
            FlowEvent::TransportFailed => (FlowState::Failed(Error::Transport), FlowAction::Stop),
            _ => (s, FlowAction::Stop),
        },
        FlowState::AwaitingResponse(_) => match e {
            FlowEvent::Notification(tag, d) => match spec_decode_response::<CreateSession>(
                tag,
                d@,
            ) {
                Ok(Response::Success(cs)) => if is_object_path(cs.session_handle@) {
                    (
                        FlowState::SessionReady(SessionHandle::spec_new(cs.session_handle)),
                        FlowAction::Stop,
                    )
                } else {
                    (FlowState::Failed(Error::MalformedMessage), FlowAction::Stop)
                },
                Ok(Response::Cancelled) => (
                    FlowState::Failed(Error::Portal(ResponseError::Cancelled)),
                    FlowAction::Stop,
                ),
                Ok(Response::Other) => (
                    FlowState::Failed(Error::Portal(ResponseError::Other)),
                    FlowAction::Stop,
                ),
                Err(err) => (FlowState::Failed(err), FlowAction::Stop),
            },
            FlowEvent::StreamClosed => (FlowState::Failed(Error::NoResponse), FlowAction::Stop),
            FlowEvent::TransportFailed => (FlowState::Failed(Error::Transport), FlowAction::Stop),
            _ => (s, FlowAction::Stop),
        },
        FlowState::SessionReady(_) => (s, FlowAction::Stop),
        FlowState::Failed(_) => (s, FlowAction::Stop),
    }
}

/// Advance the create-session flow by one observed event.
pub fn flow_step(s: FlowState, e: FlowEvent) -> (r: (FlowState, FlowAction))
    ensures
        r == spec_flow_step(s, e),
{
    match s {
        FlowState::Started => match e {
            FlowEvent::Begin => (FlowState::AwaitingRequestHandle, FlowAction::CallCreateSession),
            _ => (FlowState::Started, FlowAction::Stop),
        },
        FlowState::AwaitingRequestHandle => match e {
            FlowEvent::Reply(body) => match body {
                Some(p) => match RequestHandle::new(p) {
                    Some(h) => (FlowState::AwaitingResponse(h), FlowAction::AwaitResponse),
                    None => (FlowState::Failed(Error::MalformedMessage), FlowAction::Stop),
                },
                None => (FlowState::Failed(Error::MalformedMessage), FlowAction::Stop),
            },
            FlowEvent::TransportFailed => (FlowState::Failed(Error::Transport), FlowAction::Stop),
            _ => (FlowState::AwaitingRequestHandle, FlowAction::Stop),
        },
        FlowState::AwaitingResponse(h) => match e {
            FlowEvent::Notification(tag, d) => match decode_response::<CreateSession>(tag, &d) {
                Ok(Response::Success(cs)) => match SessionHandle::new(cs.session_handle) {
                    Some(sh) => (FlowState::SessionReady(sh), FlowAction::Stop),
                    None => (FlowState::Failed(Error::MalformedMessage), FlowAction::Stop),
                },
                Ok(Response::Cancelled) => (
                    FlowState::Failed(Error::Portal(ResponseError::Cancelled)),
                    FlowAction::Stop,
                ),
                Ok(Response::Other) => (
                    FlowState::Failed(Error::Portal(ResponseError::Other)),
                    FlowAction::Stop,
                ),
                Err(err) => (FlowState::Failed(err), FlowAction::Stop),
            },
            FlowEvent::StreamClosed => (FlowState::Failed(Error::NoResponse), FlowAction::Stop),
            FlowEvent::TransportFailed => (FlowState::Failed(Error::Transport), FlowAction::Stop),
            _ => (FlowState::AwaitingResponse(h), FlowAction::Stop),
        },
        FlowState::SessionReady(h) => (FlowState::SessionReady(h), FlowAction::Stop),
        FlowState::Failed(err) => (FlowState::Failed(err), FlowAction::Stop),
    }
}

/// Law: terminal states are absorbing — once the flow has a session or has
/// failed, no event moves it anywhere else.  There is no retry transition.
pub proof fn lemma_terminal_states_absorbing(s: FlowState, e: FlowEvent)
    requires
        s is SessionReady || s is Failed,
    ensures
        spec_flow_step(s, e).0 == s,
{
}

/// Which states hold a handle, and whether the handle is well-formed.
pub open spec fn flow_state_wf(s: FlowState) -> bool {
    match s {
        FlowState::AwaitingResponse(h) => h.wf(),
        FlowState::SessionReady(h) => h.wf(),
        _ => true,
    }
}

/// Law: every state the flow can step into holds only well-formed addresses —
/// a request handle or session handle never carries a malformed address.
pub proof fn lemma_flow_step_preserves_wf(s: FlowState, e: FlowEvent)
    requires
        flow_state_wf(s),
    ensures
        flow_state_wf(spec_flow_step(s, e).0),
{
    match s {
        FlowState::AwaitingRequestHandle => match e {
            FlowEvent::Reply(body) => match body {
                Some(p) => {
                    RequestHandle::lemma_spec_new(p);
                },
                None => {},
            },
            _ => {},
        },
        FlowState::AwaitingResponse(_) => match e {
            FlowEvent::Notification(tag, d) => match spec_decode_response::<CreateSession>(
                tag,
                d@,
            ) {
                Ok(Response::Success(cs)) => {
                    SessionHandle::lemma_spec_new(cs.session_handle);
                },
                _ => {},
            },
            _ => {},
        },
        _ => {},
    }
}

} // verus!
