//! The bridge's two request edges: opening a new session with its outbound
//! stream, and delivering one inbound message to a live session.

use vstd::prelude::*;
use vstd::string::StrSliceExecFns;
use vstd::utf8::{encode_utf8, valid_utf8};
use crate::error::Error;
use crate::events::{handshake_event, handshake_frame, message_frame, OutboundStream};
use crate::ids::{id_text, lemma_id_text_injective, parse_id, SessionId};
use crate::registry::Registry;

verus! {

/// The query parameters of a request that opens a stream.
#[derive(Debug)]
pub struct SseQuery {
    pub service: String,
}

impl SseQuery {
    /// The service name as the byte text the bridge's contracts speak of.
    pub fn service_text(&self) -> (r: Vec<u8>)
        ensures
            r@ == encode_utf8(self.service@),
    {
        self.service.as_str().as_bytes_vec()
    }
}

/// The query parameters of an inbound delivery request.
#[derive(Debug)]
pub struct PostQuery {
    pub session_id: String,
}

impl PostQuery {
    /// The session identifier as the byte text the bridge's contracts speak
    /// of.
    pub fn session_id_text(&self) -> (r: Vec<u8>)
        ensures
            r@ == encode_utf8(self.session_id@),
    {
        self.session_id.as_str().as_bytes_vec()
    }
}

/// The protocol message exchanged across the bridge, opaque to it beyond
/// serialization at the transport boundary.
#[verifier::external_type_specification]
#[verifier::external_body]
pub struct ExJsonRpcMessage(mcp_core_rs::protocol::message::JsonRpcMessage);

/// The sending half of a session's inbound channel.
#[verifier::external_type_specification]
#[verifier::external_body]
#[verifier::reject_recursive_types(T)]
pub struct ExUnboundedSender<T>(tokio::sync::mpsc::UnboundedSender<T>);

/// The sending half of one session's inbound channel, as the registry
/// stores it.
pub type InboundSender = tokio::sync::mpsc::UnboundedSender<
    mcp_core_rs::protocol::message::JsonRpcMessage,
>;

/// Whether the bytes deserialize as a protocol message; a function of the
/// bytes alone.
pub uninterp spec fn message_parses(b: Seq<u8>) -> bool;

/// The protocol message the bytes deserialize to, when they do; a function
/// of the bytes alone.
pub uninterp spec fn parsed_of(b: Seq<u8>) -> mcp_core_rs::protocol::message::JsonRpcMessage;

/// Whether a protocol message serializes; a function of the message alone.
pub uninterp spec fn message_serializes(m: mcp_core_rs::protocol::message::JsonRpcMessage) -> bool;

/// The text a protocol message serializes to, when it does; a function of
/// the message alone.
pub uninterp spec fn message_text(m: mcp_core_rs::protocol::message::JsonRpcMessage) -> Seq<u8>;

/// Relies on core::str::from_utf8, which succeeds exactly on byte sequences
/// that are valid UTF-8.
#[verifier::external_body]
fn utf8_ok(body: &Vec<u8>) -> (r: bool)
    ensures
        r == valid_utf8(body@),
{
    core::str::from_utf8(body.as_slice()).is_ok()
}

/// Relies on serde_json::from_slice: whether bytes deserialize as a protocol
/// message, and to which message, are functions of the bytes alone.
#[verifier::external_body]
fn parse_message(body: &Vec<u8>) -> (r: Option<mcp_core_rs::protocol::message::JsonRpcMessage>)
    ensures
        r is Some <==> message_parses(body@),
        r matches Some(m) ==> m == parsed_of(body@),
{
    serde_json::from_slice::<mcp_core_rs::protocol::message::JsonRpcMessage>(
        body.as_slice(),
    ).ok()
}

/// Relies on tokio's UnboundedSender::send, which fails exactly when the
/// receiving half has gone away; whether that has happened depends on the
/// live channel, so nothing is promised of the outcome.
#[verifier::external_body]
fn send_message(
    sender: &InboundSender,
    msg: mcp_core_rs::protocol::message::JsonRpcMessage,
) -> bool {
    sender.send(msg).is_ok()
}

/// Relies on serde_json::to_vec: whether a protocol message serializes, and
/// to which text, are functions of the message alone.
#[verifier::external_body]
fn serialize_message(msg: &mcp_core_rs::protocol::message::JsonRpcMessage) -> (r: Option<Vec<u8>>)
    ensures
        r is Some <==> message_serializes(*msg),
        r matches Some(v) ==> v@ == message_text(*msg),
{
    serde_json::to_vec(msg).ok()
}

/// The engine variants a service name can select.
#[derive(Clone, Copy, PartialEq, Eq, Structural, Debug)]
pub enum ServiceKind {
    Chart,
    Counter,
}

/// The bytes of `"chart"`.
pub open spec fn chart_name() -> Seq<u8> {
    seq![99u8, 104u8, 97u8, 114u8, 116u8]
}

/// The bytes of `"counter"`.
pub open spec fn counter_name() -> Seq<u8> {
    seq![99u8, 111u8, 117u8, 110u8, 116u8, 101u8, 114u8]
}

/// Which engine a service name selects, if any.
pub open spec fn service_kind_of(name: Seq<u8>) -> Option<ServiceKind> {
    if name == chart_name() {
        Some(ServiceKind::Chart)
    } else if name == counter_name() {
        Some(ServiceKind::Counter)
    } else {
        None
    }
}

fn bytes_eq(a: &Vec<u8>, b: &Vec<u8>) -> (r: bool)
    ensures
        r == (a@ == b@),
{
    if a.len() != b.len() {
        return false;
    }
    let n = a.len();
    let mut i: usize = 0;
    while i < n
        invariant
            n == a.len() == b.len(),
            i <= n,
            forall|j: int| 0 <= j < i ==> a@[j] == b@[j],
        decreases n - i,
    {
        if a[i] != b[i] {
            return false;
        }
        i += 1;
    }
    proof {
        assert(a@ =~= b@);
    }
    true
}

fn chart_name_bytes() -> (r: Vec<u8>)
    ensures
        r@ == chart_name(),
{
    let mut v: Vec<u8> = Vec::new();
    v.push(99);
    v.push(104);
    v.push(97);
    v.push(114);
    v.push(116);
    proof {
        assert(v@ =~= chart_name());
    }
    v
}

fn counter_name_bytes() -> (r: Vec<u8>)
    ensures
        r@ == counter_name(),
{
    let mut v: Vec<u8> = Vec::new();
    v.push(99);
    v.push(111);
    v.push(117);
    v.push(110);
    v.push(116);
    v.push(101);
    v.push(114);
    proof {
        assert(v@ =~= counter_name());
    }
    v
}

/// Selects the engine variant for a service name; unknown names select
/// nothing, and no session is created for them.
pub fn service_kind(name: &Vec<u8>) -> (r: Option<ServiceKind>)
    ensures
        r == service_kind_of(name@),
{
    let chart = chart_name_bytes();
    if bytes_eq(name, &chart) {
        return Some(ServiceKind::Chart);
    }
    let counter = counter_name_bytes();
    if bytes_eq(name, &counter) {
        return Some(ServiceKind::Counter);
    }
    None
}

/// Why a session could not be opened.
#[derive(Clone, Copy, PartialEq, Eq, Structural, Debug)]
pub enum OpenError {
    /// The service name selects no engine; the registry was not touched.
    UnknownService,
    /// The identifier was already registered; nothing was overwritten.
    IdCollision,
}

/// What a successfully opened session starts with.
pub struct SessionStart {
    /// The engine variant to run for this session.
    pub kind: ServiceKind,
    /// The handshake frame, the stream's first event.
    pub handshake: Vec<u8>,
}

/// Opens a session: validates the service name, registers the identifier,
/// and hands back the handshake frame together with the engine variant to
/// start. On any failure the registry is left exactly as it was.
pub fn open_session<S>(
    reg: &mut Registry<S>,
    service: &Vec<u8>,
    id: &SessionId,
    sender: S,
) -> (r: Result<SessionStart, OpenError>)
    requires
        old(reg).wf(),
    ensures
        final(reg).wf(),
        service_kind_of(service@) is None ==> (r matches Err(e) && e == OpenError::UnknownService
            && *final(reg) == *old(reg)),
        service_kind_of(service@) is Some && old(reg)@.contains_key(id.bits) ==> (r matches Err(e)
            && e == OpenError::IdCollision && *final(reg) == *old(reg)),
        service_kind_of(service@) is Some && !old(reg)@.contains_key(id.bits) ==> (r matches Ok(s)
            && service_kind_of(service@) == Some(s.kind) && s.handshake@ == handshake_frame(
            id.bits,
        ) && final(reg)@ == old(reg)@.insert(id.bits, sender)),
{
    let kind = match service_kind(service) {
        Some(k) => k,
        None => {
            return Err(OpenError::UnknownService);
        },
    };
    let fresh = reg.register(id.bits, sender);
    if !fresh {
        return Err(OpenError::IdCollision);
    }
    Ok(SessionStart { kind, handshake: handshake_event(id) })
}

/// Serializes one outbound protocol message and frames it as the stream's
/// next event, only once the handshake has gone out. The frame carries
/// exactly the message's serialization; a failure to serialize yields
/// nothing, and the stream ends with an error at that element (fail-fast)
/// rather than skipping it.
pub fn outbound_frame(
    stream: &OutboundStream,
    msg: &mcp_core_rs::protocol::message::JsonRpcMessage,
) -> (r: Option<Vec<u8>>)
    requires
        stream.handshake_sent(),
    ensures
        message_serializes(*msg) ==> (r matches Some(e) && e@ == message_frame(
            message_text(*msg),
        )),
        !message_serializes(*msg) ==> r is None,
{
    match serialize_message(msg) {
        Some(text) => Some(stream.message(&text)),
        None => None,
    }
}

/// Whether a session identifier text names a live session of the registry.
pub open spec fn names_live_session<S>(m: Map<u128, S>, t: Seq<u8>) -> bool {
    exists|n: u128| t == #[trigger] id_text(n) && m.contains_key(n)
}

/// A freshly opened session is reachable: once its entry is registered, its
/// identifier text names a live session, so a well-formed delivery to it is
/// not "session not found".
pub proof fn lemma_open_session_reachable<S>(m: Map<u128, S>, id: u128, sender: S)
    ensures
        names_live_session(m.insert(id, sender), id_text(id)),
{
    assert(m.insert(id, sender).contains_key(id));
}

/// After cleanup, the removed session's identifier text names no live
/// session any more, so a later well-formed delivery to it reports
/// "session not found".
pub proof fn lemma_cleanup_unreachable<S>(m: Map<u128, S>, id: u128)
    ensures
        !names_live_session(m.remove(id), id_text(id)),
{
    if names_live_session(m.remove(id), id_text(id)) {
        let n = choose|n: u128|
            id_text(id) == #[trigger] id_text(n) && m.remove(id).contains_key(n);
        if n != id {
            lemma_id_text_injective(n, id);
        }
    }
}

/// The result of one inbound delivery request; every failure is reported,
/// and each kind of failure is distinguishable from the others.
#[derive(Clone, Copy, PartialEq, Eq, Structural, Debug)]
pub enum DeliverOutcome {
    /// The message was forwarded into the session's inbound channel.
    Accepted,
    /// The body is not UTF-8 text.
    InvalidUtf8,
    /// The body is text but does not deserialize as a protocol message.
    InvalidMessage,
    /// No live session has this identifier.
    SessionNotFound,
    /// The session's task had already gone away while its registry entry was
    /// still present: the send failed and the failure is reported.
    ChannelClosed,
}

/// Delivers one inbound request body to the session the identifier text
/// names. The body is validated first, so a malformed body is reported as
/// such whether or not the identifier names a live session; the registry is
/// never modified.
pub fn deliver(reg: &Registry<InboundSender>, session: &Vec<u8>, body: &Vec<u8>) -> (r:
    DeliverOutcome)
    requires
        reg.wf(),
    ensures
        !valid_utf8(body@) ==> r == DeliverOutcome::InvalidUtf8,
        valid_utf8(body@) && !message_parses(body@) ==> r == DeliverOutcome::InvalidMessage,
        valid_utf8(body@) && message_parses(body@) && !names_live_session(reg@, session@) ==> r
            == DeliverOutcome::SessionNotFound,
        valid_utf8(body@) && message_parses(body@) && names_live_session(reg@, session@) ==> (r
            == DeliverOutcome::Accepted || r == DeliverOutcome::ChannelClosed),
{
    if !utf8_ok(body) {
        return DeliverOutcome::InvalidUtf8;
    }
    let msg = match parse_message(body) {
        Some(m) => m,
        None => {
            return DeliverOutcome::InvalidMessage;
        },
    };
    let id = match parse_id(session) {
        Some(id) => id,
        None => {
            proof {
                if names_live_session(reg@, session@) {
                    let n = choose|n: u128| session@ == #[trigger] id_text(n)
                        && reg@.contains_key(n);
                    assert(session@ != id_text(n));
                }
            }
            return DeliverOutcome::SessionNotFound;
        },
    };
    match reg.lookup(id.bits) {
        Some(sender) => {
            proof {
                assert(session@ == id_text(id.bits) && reg@.contains_key(id.bits));
            }
            if send_message(sender, msg) {
                DeliverOutcome::Accepted
            } else {
                DeliverOutcome::ChannelClosed
            }
        },
        None => {
            proof {
                if names_live_session(reg@, session@) {
                    let n = choose|n: u128| session@ == #[trigger] id_text(n)
                        && reg@.contains_key(n);
                    if n != id.bits {
                        lemma_id_text_injective(n, id.bits);
                    }
                }
            }
            DeliverOutcome::SessionNotFound
        },
    }
}

/// The error reported to the caller for one delivery outcome: none when the
/// message was accepted, and a distinct variant for each failure.
pub fn deliver_error(o: DeliverOutcome) -> (r: Option<Error>)
    ensures
        o == DeliverOutcome::Accepted <==> r is None,
        o == DeliverOutcome::InvalidUtf8 ==> (r matches Some(e) && e is Utf8),
        o == DeliverOutcome::InvalidMessage ==> (r matches Some(e) && e is Json),
        o == DeliverOutcome::SessionNotFound ==> (r matches Some(e) && e is System),
        o == DeliverOutcome::ChannelClosed ==> (r matches Some(e) && e is Io),
{
    match o {
        DeliverOutcome::Accepted => None,
        DeliverOutcome::InvalidUtf8 => Some(Error::Utf8("invalid UTF-8 body".to_owned())),
        DeliverOutcome::InvalidMessage => Some(
            Error::Json("body is not a protocol message".to_owned()),
        ),
        DeliverOutcome::SessionNotFound => Some(Error::System("session not found".to_owned())),
        DeliverOutcome::ChannelClosed => Some(Error::Io("failed to send message".to_owned())),
    }
}

} // verus!
