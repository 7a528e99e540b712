use mcp_core_rs::protocol::message::{JsonRpcMessage, JsonRpcRequest};
use sse_bridge::bridge::{
    deliver, deliver_error, open_session, outbound_frame, service_kind, DeliverOutcome,
    InboundSender, OpenError, ServiceKind,
};
use sse_bridge::error::Error;
use sse_bridge::events::OutboundStream;
use sse_bridge::ids::SessionId;
use sse_bridge::lifecycle::{CleanupGuard, SessionEvent, SessionState, step};
use sse_bridge::registry::Registry;

fn request_body(method: &str) -> Vec<u8> {
    format!("{{\"jsonrpc\":\"2.0\",\"id\":1,\"method\":\"{}\"}}", method).into_bytes()
}

#[test]
fn service_kind_selects_known_engines() {
    assert_eq!(service_kind(&b"chart".to_vec()), Some(ServiceKind::Chart));
    assert_eq!(service_kind(&b"counter".to_vec()), Some(ServiceKind::Counter));
    assert_eq!(service_kind(&b"unknown".to_vec()), None);
    assert_eq!(service_kind(&b"".to_vec()), None);
    assert_eq!(service_kind(&b"Chart".to_vec()), None);
}

#[test]
fn open_session_rejects_unknown_service() {
    let mut reg: Registry<InboundSender> = Registry::new();
    let id = SessionId { bits: 1 };
    let (tx, _rx) = tokio::sync::mpsc::unbounded_channel::<JsonRpcMessage>();
    let r = open_session(&mut reg, &b"nosuch".to_vec(), &id, tx);
    assert!(matches!(r, Err(OpenError::UnknownService)));
    assert_eq!(reg.len(), 0);
}

#[test]
fn open_session_registers_and_hands_back_the_handshake() {
    let mut reg: Registry<InboundSender> = Registry::new();
    let id = SessionId { bits: 0x42 };
    let (tx, _rx) = tokio::sync::mpsc::unbounded_channel::<JsonRpcMessage>();
    let start = open_session(&mut reg, &b"chart".to_vec(), &id, tx).expect("must open");
    assert_eq!(start.kind, ServiceKind::Chart);
    let expected = format!("event: endpoint\ndata: ?sessionId={:032x}\n\n", 0x42u128);
    assert_eq!(start.handshake, expected.into_bytes());
    assert_eq!(reg.len(), 1);
}

#[test]
fn open_session_refuses_identifier_collisions() {
    let mut reg: Registry<InboundSender> = Registry::new();
    let id = SessionId { bits: 9 };
    let (tx1, _rx1) = tokio::sync::mpsc::unbounded_channel::<JsonRpcMessage>();
    let (tx2, _rx2) = tokio::sync::mpsc::unbounded_channel::<JsonRpcMessage>();
    assert!(open_session(&mut reg, &b"counter".to_vec(), &id, tx1).is_ok());
    let r = open_session(&mut reg, &b"counter".to_vec(), &id, tx2);
    assert!(matches!(r, Err(OpenError::IdCollision)));
    assert_eq!(reg.len(), 1);
}

#[test]
fn deliver_reports_unknown_sessions_and_leaves_registry_alone() {
    let mut reg: Registry<InboundSender> = Registry::new();
    let id = SessionId { bits: 3 };
    let (tx, _rx) = tokio::sync::mpsc::unbounded_channel::<JsonRpcMessage>();
    assert!(reg.register(id.bits, tx));
    let other = SessionId { bits: 4 };
    let r = deliver(&reg, &other.text(), &request_body("ping"));
    assert_eq!(r, DeliverOutcome::SessionNotFound);
    // a text that is no identifier at all is also "not found"
    let r = deliver(&reg, &b"not-an-id".to_vec(), &request_body("ping"));
    assert_eq!(r, DeliverOutcome::SessionNotFound);
    assert_eq!(reg.len(), 1);
}

#[test]
fn deliver_reports_invalid_utf8_independent_of_the_session() {
    let mut reg: Registry<InboundSender> = Registry::new();
    let id = SessionId { bits: 5 };
    let (tx, _rx) = tokio::sync::mpsc::unbounded_channel::<JsonRpcMessage>();
    assert!(reg.register(id.bits, tx));
    let body = vec![0xff, 0xfe, 0x00];
    assert_eq!(deliver(&reg, &id.text(), &body), DeliverOutcome::InvalidUtf8);
    let unknown = SessionId { bits: 6 };
    assert_eq!(deliver(&reg, &unknown.text(), &body), DeliverOutcome::InvalidUtf8);
}

#[test]
fn deliver_reports_bodies_that_are_no_protocol_message() {
    let mut reg: Registry<InboundSender> = Registry::new();
    let id = SessionId { bits: 7 };
    let (tx, _rx) = tokio::sync::mpsc::unbounded_channel::<JsonRpcMessage>();
    assert!(reg.register(id.bits, tx));
    assert_eq!(
        deliver(&reg, &id.text(), &b"plain text".to_vec()),
        DeliverOutcome::InvalidMessage
    );
    // valid JSON that is still no protocol message
    assert_eq!(
        deliver(&reg, &id.text(), &b"{\"no\":\"version\"}".to_vec()),
        DeliverOutcome::InvalidMessage
    );
    // an empty body is valid UTF-8 but no message
    assert_eq!(deliver(&reg, &id.text(), &Vec::new()), DeliverOutcome::InvalidMessage);
}

#[test]
fn deliver_forwards_messages_in_order() {
    let mut reg: Registry<InboundSender> = Registry::new();
    let id = SessionId { bits: 8 };
    let (tx, mut rx) = tokio::sync::mpsc::unbounded_channel::<JsonRpcMessage>();
    assert!(reg.register(id.bits, tx));
    assert_eq!(deliver(&reg, &id.text(), &request_body("first")), DeliverOutcome::Accepted);
    assert_eq!(deliver(&reg, &id.text(), &request_body("second")), DeliverOutcome::Accepted);
    match rx.try_recv().expect("first message") {
        JsonRpcMessage::Request(r) => assert_eq!(r.method, "first"),
        other => panic!("unexpected message: {:?}", other),
    }
    match rx.try_recv().expect("second message") {
        JsonRpcMessage::Request(r) => assert_eq!(r.method, "second"),
        other => panic!("unexpected message: {:?}", other),
    }
    assert!(rx.try_recv().is_err());
}

#[test]
fn concurrent_sessions_stay_separate() {
    let mut reg: Registry<InboundSender> = Registry::new();
    let a = SessionId { bits: 10 };
    let b = SessionId { bits: 11 };
    let (tx_a, mut rx_a) = tokio::sync::mpsc::unbounded_channel::<JsonRpcMessage>();
    let (tx_b, mut rx_b) = tokio::sync::mpsc::unbounded_channel::<JsonRpcMessage>();
    assert!(open_session(&mut reg, &b"chart".to_vec(), &a, tx_a).is_ok());
    assert!(open_session(&mut reg, &b"chart".to_vec(), &b, tx_b).is_ok());
    assert_ne!(a.text(), b.text());
    assert_eq!(deliver(&reg, &a.text(), &request_body("for-a")), DeliverOutcome::Accepted);
    match rx_a.try_recv().expect("session a receives") {
        JsonRpcMessage::Request(r) => assert_eq!(r.method, "for-a"),
        other => panic!("unexpected message: {:?}", other),
    }
    assert!(rx_b.try_recv().is_err());
}

#[test]
fn deliver_reports_a_closed_channel() {
    let mut reg: Registry<InboundSender> = Registry::new();
    let id = SessionId { bits: 12 };
    let (tx, rx) = tokio::sync::mpsc::unbounded_channel::<JsonRpcMessage>();
    assert!(reg.register(id.bits, tx));
    drop(rx);
    assert_eq!(deliver(&reg, &id.text(), &request_body("ping")), DeliverOutcome::ChannelClosed);
}

#[test]
fn cleanup_runs_exactly_once() {
    let mut reg: Registry<InboundSender> = Registry::new();
    let id = SessionId { bits: 13 };
    let (tx, _rx) = tokio::sync::mpsc::unbounded_channel::<JsonRpcMessage>();
    assert!(reg.register(id.bits, tx));
    let mut guard = CleanupGuard::new();
    assert!(guard.fire(&mut reg, id.bits));
    assert_eq!(reg.len(), 0);
    // both sides of the termination race may ask: the second ask is a no-op
    assert!(!guard.fire(&mut reg, id.bits));
    assert_eq!(reg.len(), 0);
}

#[test]
fn removing_twice_equals_removing_once() {
    let mut reg: Registry<InboundSender> = Registry::new();
    let id = SessionId { bits: 14 };
    let other = SessionId { bits: 15 };
    let (tx1, _rx1) = tokio::sync::mpsc::unbounded_channel::<JsonRpcMessage>();
    let (tx2, _rx2) = tokio::sync::mpsc::unbounded_channel::<JsonRpcMessage>();
    assert!(reg.register(id.bits, tx1));
    assert!(reg.register(other.bits, tx2));
    reg.remove(id.bits);
    reg.remove(id.bits);
    assert_eq!(reg.len(), 1);
    assert_eq!(deliver(&reg, &other.text(), &request_body("ping")), DeliverOutcome::Accepted);
}

#[test]
fn delivery_after_cleanup_finds_no_session() {
    let mut reg: Registry<InboundSender> = Registry::new();
    let id = SessionId { bits: 16 };
    let (tx, _rx) = tokio::sync::mpsc::unbounded_channel::<JsonRpcMessage>();
    assert!(reg.register(id.bits, tx));
    let mut guard = CleanupGuard::new();
    assert!(guard.fire(&mut reg, id.bits));
    assert_eq!(deliver(&reg, &id.text(), &request_body("ping")), DeliverOutcome::SessionNotFound);
}

#[test]
fn outbound_frames_carry_the_serialized_message() {
    let id = SessionId { bits: 17 };
    let mut stream = OutboundStream::new(id);
    let _ = stream.handshake();
    let msg = JsonRpcMessage::Request(JsonRpcRequest::new(Some(1), "ping", None));
    let frame = outbound_frame(&stream, &msg).expect("serializes");
    let text = serde_json::to_string(&msg).expect("serializes");
    let expected = format!("event: message\ndata: {}\n\n", text);
    assert_eq!(frame, expected.into_bytes());
}

#[test]
fn query_texts_feed_the_bridge() {
    let sse = sse_bridge::bridge::SseQuery { service: "chart".to_string() };
    assert_eq!(service_kind(&sse.service_text()), Some(ServiceKind::Chart));
    let mut reg: Registry<InboundSender> = Registry::new();
    let id = SessionId { bits: 18 };
    let (tx, mut rx) = tokio::sync::mpsc::unbounded_channel::<JsonRpcMessage>();
    assert!(reg.register(id.bits, tx));
    let post = sse_bridge::bridge::PostQuery {
        session_id: String::from_utf8(id.text()).expect("hex text is UTF-8"),
    };
    assert_eq!(
        deliver(&reg, &post.session_id_text(), &request_body("ping")),
        DeliverOutcome::Accepted
    );
    assert!(rx.try_recv().is_ok());
}

#[test]
fn delivery_outcomes_map_to_distinct_errors() {
    assert!(deliver_error(DeliverOutcome::Accepted).is_none());
    assert!(matches!(deliver_error(DeliverOutcome::InvalidUtf8), Some(Error::Utf8(_))));
    assert!(matches!(deliver_error(DeliverOutcome::InvalidMessage), Some(Error::Json(_))));
    assert!(matches!(deliver_error(DeliverOutcome::SessionNotFound), Some(Error::System(_))));
    assert!(matches!(deliver_error(DeliverOutcome::ChannelClosed), Some(Error::Io(_))));
}

#[test]
fn lifecycle_races_resolve_once_and_drive_cleanup() {
    let s = step(SessionState::Starting, SessionEvent::EngineStarted);
    assert_eq!(s, SessionState::Running);
    // the engine wins the race
    let done = step(s, SessionEvent::EngineReturned(true));
    assert_eq!(done, SessionState::Completed);
    // the late loser is ignored
    assert_eq!(step(done, SessionEvent::ShutdownObserved), SessionState::Completed);
    assert_eq!(
        step(step(done, SessionEvent::CleanupStarted), SessionEvent::CleanupFinished),
        SessionState::Terminated
    );
    // the disconnect wins the race
    let cancelled = step(s, SessionEvent::ShutdownObserved);
    assert_eq!(cancelled, SessionState::Cancelled);
    assert_eq!(step(cancelled, SessionEvent::EngineReturned(false)), SessionState::Cancelled);
    assert_eq!(step(cancelled, SessionEvent::CleanupStarted), SessionState::CleaningUp);
}
