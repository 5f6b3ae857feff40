//! Decoder, correlation, address and flow behaviour on concrete values.

use portal_session::error::Error;
use portal_session::request::{correlate, request_interface, response_member, RequestHandle};
use portal_session::response::{decode_response, Response, ResponseError, ResponseType};
use portal_session::screencast::{
    create_session_method, flow_step, portal_destination, portal_object_path,
    screencast_interface, CreateSession, FlowAction, FlowEvent, FlowState,
};
use portal_session::session::{session_interface, SessionHandle};
use portal_session::wire::{lookup, WireValue, Vardict};

fn entry(key: &str, value: WireValue) -> (String, WireValue) {
    (key.to_string(), value)
}

#[test]
fn success_tag_decodes_payload() {
    let d = vec![entry(
        "session_handle",
        WireValue::Str("/org/freedesktop/portal/session/1".to_string()),
    )];
    let r = decode_response::<CreateSession>(0, &d);
    assert_eq!(
        r,
        Ok(Response::Success(CreateSession {
            session_handle: "/org/freedesktop/portal/session/1".to_string(),
        }))
    );
}

#[test]
fn cancelled_tag_ignores_empty_payload() {
    let d: Vardict = vec![];
    let r = decode_response::<CreateSession>(1, &d);
    assert_eq!(r, Ok(Response::Cancelled));
}

#[test]
fn other_tag_ignores_extraneous_payload() {
    let d = vec![entry("unused", WireValue::Num(1))];
    let r = decode_response::<CreateSession>(2, &d);
    assert_eq!(r, Ok(Response::Other));
}

#[test]
fn unknown_tag_is_malformed() {
    let d: Vardict = vec![];
    let r = decode_response::<CreateSession>(3, &d);
    assert_eq!(r, Err(Error::MalformedMessage));
}

#[test]
fn largest_tag_is_malformed() {
    let d = vec![entry("session_handle", WireValue::Str("/s/1".to_string()))];
    let r = decode_response::<CreateSession>(u32::MAX, &d);
    assert_eq!(r, Err(Error::MalformedMessage));
}

#[test]
fn success_tag_without_payload_field_is_malformed() {
    let d: Vardict = vec![];
    let r = decode_response::<CreateSession>(0, &d);
    assert_eq!(r, Err(Error::MalformedMessage));
}

#[test]
fn success_tag_with_wrongly_typed_field_is_malformed() {
    let d = vec![entry("session_handle", WireValue::Num(7))];
    let r = decode_response::<CreateSession>(0, &d);
    assert_eq!(r, Err(Error::MalformedMessage));
}

#[test]
fn decoding_twice_yields_equal_envelopes() {
    let d = vec![entry("session_handle", WireValue::Str("/s/1".to_string()))];
    let first = decode_response::<CreateSession>(0, &d);
    let second = decode_response::<CreateSession>(0, &d);
    assert_eq!(first, second);
    let third = decode_response::<CreateSession>(2, &d);
    let fourth = decode_response::<CreateSession>(2, &d);
    assert_eq!(third, fourth);
}

#[test]
fn lookup_finds_first_binding_of_equal_keys() {
    let d = vec![
        entry("session_handle", WireValue::Str("/s/first".to_string())),
        entry("session_handle", WireValue::Str("/s/second".to_string())),
    ];
    let key = "session_handle".to_string();
    match lookup(&d, &key) {
        Some(WireValue::Str(s)) => assert_eq!(s, "/s/first"),
        other => panic!("unexpected lookup result: {:?}", other),
    }
    let r = decode_response::<CreateSession>(0, &d);
    assert_eq!(
        r,
        Ok(Response::Success(CreateSession { session_handle: "/s/first".to_string() }))
    );
}

#[test]
fn lookup_misses_absent_key() {
    let d = vec![entry("other_field", WireValue::Bool(true))];
    let key = "session_handle".to_string();
    assert!(lookup(&d, &key).is_none());
}

#[test]
fn tag_mapping_round_trips() {
    assert_eq!(ResponseType::from_tag(0), Some(ResponseType::Success));
    assert_eq!(ResponseType::from_tag(1), Some(ResponseType::Cancelled));
    assert_eq!(ResponseType::from_tag(2), Some(ResponseType::Other));
    assert_eq!(ResponseType::from_tag(3), None);
    for t in [ResponseType::Success, ResponseType::Cancelled, ResponseType::Other] {
        assert_eq!(ResponseType::from_tag(t.tag()), Some(t));
    }
}

#[test]
fn correlate_closed_stream_is_no_response() {
    let r = correlate::<CreateSession>(None);
    assert_eq!(r, Err(Error::NoResponse));
}

#[test]
fn correlate_surfaces_broker_outcomes() {
    let cancelled = correlate::<CreateSession>(Some((1, vec![])));
    assert_eq!(cancelled, Err(Error::Portal(ResponseError::Cancelled)));
    let other = correlate::<CreateSession>(Some((2, vec![])));
    assert_eq!(other, Err(Error::Portal(ResponseError::Other)));
    let malformed = correlate::<CreateSession>(Some((9, vec![])));
    assert_eq!(malformed, Err(Error::MalformedMessage));
}

#[test]
fn correlate_returns_decoded_record() {
    let d = vec![entry("session_handle", WireValue::Str("/s/1".to_string()))];
    let r = correlate::<CreateSession>(Some((0, d)));
    assert_eq!(r, Ok(CreateSession { session_handle: "/s/1".to_string() }));
}

#[test]
fn request_handle_accepts_valid_address() {
    let h = RequestHandle::new("/org/freedesktop/portal/desktop/request/1".to_string());
    assert_eq!(h.unwrap().path(), "/org/freedesktop/portal/desktop/request/1");
}

#[test]
fn request_handle_rejects_malformed_address() {
    assert!(RequestHandle::new("".to_string()).is_none());
    assert!(RequestHandle::new("request/1".to_string()).is_none());
    assert!(RequestHandle::new("/request//1".to_string()).is_none());
    assert!(RequestHandle::new("/request/".to_string()).is_none());
    assert!(RequestHandle::new("/re-quest".to_string()).is_none());
}

#[test]
fn session_handle_accepts_valid_address() {
    let h = SessionHandle::new("/org/freedesktop/portal/session/1".to_string());
    assert_eq!(h.unwrap().path(), "/org/freedesktop/portal/session/1");
    let root = SessionHandle::new("/".to_string());
    assert_eq!(root.unwrap().path(), "/");
}

#[test]
fn session_handle_rejects_malformed_address() {
    assert!(SessionHandle::new("/s\u{e9}ance".to_string()).is_none());
    assert!(SessionHandle::new("/s/".to_string()).is_none());
}

#[test]
fn signal_matching_is_by_address_and_name() {
    let h = RequestHandle::new("/r/1".to_string()).unwrap();
    assert!(h.matches_signal(&"/r/1".to_string(), &"Response".to_string()));
    assert!(!h.matches_signal(&"/r/2".to_string(), &"Response".to_string()));
    assert!(!h.matches_signal(&"/r/1".to_string(), &"Closed".to_string()));
}

#[test]
fn wire_protocol_names_are_exact() {
    assert_eq!(portal_destination(), "org.freedesktop.portal.Desktop");
    assert_eq!(portal_object_path(), "/org/freedesktop/portal/desktop");
    assert_eq!(screencast_interface(), "org.freedesktop.portal.ScreenCast");
    assert_eq!(create_session_method(), "CreateSession");
    assert_eq!(request_interface(), "org.freedesktop.portal.Request");
    assert_eq!(response_member(), "Response");
    assert_eq!(session_interface(), "org.freedesktop.portal.Session");
}

#[test]
fn response_body_signature_is_exact() {
    assert_eq!(portal_session::response::response_signature(), "(ua{sv})");
}

#[test]
fn response_error_descriptions() {
    assert_eq!(ResponseError::Cancelled.describe(), "Cancelled");
    assert_eq!(ResponseError::Other.describe(), "Other");
}

#[test]
fn error_descriptions() {
    assert_eq!(Error::Portal(ResponseError::Cancelled).describe(), "portal error: cancelled");
    assert_eq!(Error::Portal(ResponseError::Other).describe(), "portal error: other");
    assert_eq!(Error::Transport.describe(), "transport error");
    assert_eq!(Error::MalformedMessage.describe(), "malformed message");
    assert_eq!(Error::NoResponse.describe(), "portal error: no response");
}

#[test]
fn full_flow_yields_session_handle() {
    let (s, a) = flow_step(FlowState::Started, FlowEvent::Begin);
    assert_eq!(a, FlowAction::CallCreateSession);
    assert!(matches!(s, FlowState::AwaitingRequestHandle));

    let (s, a) = flow_step(s, FlowEvent::Reply(Some("/r/1".to_string())));
    assert_eq!(a, FlowAction::AwaitResponse);
    match &s {
        FlowState::AwaitingResponse(h) => assert_eq!(h.path(), "/r/1"),
        other => panic!("unexpected state: {:?}", other),
    }

    let d = vec![entry("session_handle", WireValue::Str("/s/1".to_string()))];
    let (s, a) = flow_step(s, FlowEvent::Notification(0, d));
    assert_eq!(a, FlowAction::Stop);
    match s {
        FlowState::SessionReady(h) => assert_eq!(h.path(), "/s/1"),
        other => panic!("unexpected state: {:?}", other),
    }
}

#[test]
fn flow_fails_on_malformed_reply() {
    let (s, _) = flow_step(FlowState::AwaitingRequestHandle, FlowEvent::Reply(None));
    match s {
        FlowState::Failed(e) => assert_eq!(e, Error::MalformedMessage),
        other => panic!("unexpected state: {:?}", other),
    }
    let (s, _) = flow_step(
        FlowState::AwaitingRequestHandle,
        FlowEvent::Reply(Some("not a path".to_string())),
    );
    match s {
        FlowState::Failed(e) => assert_eq!(e, Error::MalformedMessage),
        other => panic!("unexpected state: {:?}", other),
    }
}

#[test]
fn flow_fails_on_cancelled_outcome() {
    let h = RequestHandle::new("/r/1".to_string()).unwrap();
    let (s, a) = flow_step(FlowState::AwaitingResponse(h), FlowEvent::Notification(1, vec![]));
    assert_eq!(a, FlowAction::Stop);
    match s {
        FlowState::Failed(e) => assert_eq!(e, Error::Portal(ResponseError::Cancelled)),
        other => panic!("unexpected state: {:?}", other),
    }
}

#[test]
fn flow_fails_on_closed_stream() {
    let h = RequestHandle::new("/r/1".to_string()).unwrap();
    let (s, _) = flow_step(FlowState::AwaitingResponse(h), FlowEvent::StreamClosed);
    match s {
        FlowState::Failed(e) => assert_eq!(e, Error::NoResponse),
        other => panic!("unexpected state: {:?}", other),
    }
}

#[test]
fn flow_fails_on_transport_failure() {
    let (s, _) = flow_step(FlowState::AwaitingRequestHandle, FlowEvent::TransportFailed);
    match s {
        FlowState::Failed(e) => assert_eq!(e, Error::Transport),
        other => panic!("unexpected state: {:?}", other),
    }
}

#[test]
fn flow_fails_on_malformed_session_address() {
    let h = RequestHandle::new("/r/1".to_string()).unwrap();
    let d = vec![entry("session_handle", WireValue::Str("no leading slash".to_string()))];
    let (s, _) = flow_step(FlowState::AwaitingResponse(h), FlowEvent::Notification(0, d));
    match s {
        FlowState::Failed(e) => assert_eq!(e, Error::MalformedMessage),
        other => panic!("unexpected state: {:?}", other),
    }
}

#[test]
fn flow_terminal_states_absorb_events() {
    let (s, a) = flow_step(FlowState::Failed(Error::NoResponse), FlowEvent::Begin);
    assert_eq!(a, FlowAction::Stop);
    match s {
        FlowState::Failed(e) => assert_eq!(e, Error::NoResponse),
        other => panic!("unexpected state: {:?}", other),
    }
    let ready = FlowState::SessionReady(SessionHandle::new("/s/1".to_string()).unwrap());
    let (s, a) = flow_step(ready, FlowEvent::StreamClosed);
    assert_eq!(a, FlowAction::Stop);
    match s {
        FlowState::SessionReady(h) => assert_eq!(h.path(), "/s/1"),
        other => panic!("unexpected state: {:?}", other),
    }
}
