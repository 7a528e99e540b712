//! The outbound event stream: the wire framing of server-sent events, and
//! the builder that guarantees the handshake event is the first frame on
//! every stream.

use vstd::prelude::*;
use crate::ids::{id_text, lemma_id_text_injective, lemma_id_text_wf, SessionId};

verus! {

/// The bytes of `"event: "`.
pub open spec fn frame_head() -> Seq<u8> {
    seq![101u8, 118u8, 101u8, 110u8, 116u8, 58u8, 32u8]
}

/// The bytes of `"\ndata: "`.
pub open spec fn frame_mid() -> Seq<u8> {
    seq![10u8, 100u8, 97u8, 116u8, 97u8, 58u8, 32u8]
}

/// The bytes of `"\n\n"`, which close a frame.
pub open spec fn frame_tail() -> Seq<u8> {
    seq![10u8, 10u8]
}

/// One wire frame: `event: <name>\ndata: <data>\n\n`.
pub open spec fn frame(name: Seq<u8>, data: Seq<u8>) -> Seq<u8> {
    frame_head() + name + frame_mid() + data + frame_tail()
}

/// The bytes of `"endpoint"`, the handshake event's name.
pub open spec fn endpoint_name() -> Seq<u8> {
    seq![101u8, 110u8, 100u8, 112u8, 111u8, 105u8, 110u8, 116u8]
}

/// The bytes of `"message"`, the name of every protocol message event.
pub open spec fn message_name() -> Seq<u8> {
    seq![109u8, 101u8, 115u8, 115u8, 97u8, 103u8, 101u8]
}

/// The bytes of `"?sessionId="`, the relative path prefix the client must
/// post inbound messages to.
pub open spec fn query_prefix() -> Seq<u8> {
    seq![63u8, 115u8, 101u8, 115u8, 115u8, 105u8, 111u8, 110u8, 73u8, 100u8, 61u8]
}

/// The handshake payload: the relative path `?sessionId=<id>` for this
/// session's inbound messages.
pub open spec fn handshake_data(bits: u128) -> Seq<u8> {
    query_prefix() + id_text(bits)
}

/// The handshake frame, the first event on every stream.
pub open spec fn handshake_frame(bits: u128) -> Seq<u8> {
    frame(endpoint_name(), handshake_data(bits))
}

/// A protocol message's frame: the serialized message under event `message`.
pub open spec fn message_frame(text: Seq<u8>) -> Seq<u8> {
    frame(message_name(), text)
}

fn push_frame_head(v: &mut Vec<u8>)
    ensures
        final(v)@ == old(v)@ + frame_head(),
{
    v.push(101);
    v.push(118);
    v.push(101);
    v.push(110);
    v.push(116);
    v.push(58);
    v.push(32);
    proof {
        assert(v@ =~= old(v)@ + frame_head());
    }
}

fn push_frame_mid(v: &mut Vec<u8>)
    ensures
        final(v)@ == old(v)@ + frame_mid(),
{
    v.push(10);
    v.push(100);
    v.push(97);
    v.push(116);
    v.push(97);
    v.push(58);
    v.push(32);
    proof {
        assert(v@ =~= old(v)@ + frame_mid());
    }
}

fn push_frame_tail(v: &mut Vec<u8>)
    ensures
        final(v)@ == old(v)@ + frame_tail(),
{
    v.push(10);
    v.push(10);
    proof {
        assert(v@ =~= old(v)@ + frame_tail());
    }
}

/// Builds one wire frame carrying event `name` with payload `data`.
pub fn frame_event(name: &Vec<u8>, data: &Vec<u8>) -> (r: Vec<u8>)
    ensures
        r@ == frame(name@, data@),
{
    let mut v: Vec<u8> = Vec::new();
    push_frame_head(&mut v);
    v.extend_from_slice(name.as_slice());
    push_frame_mid(&mut v);
    v.extend_from_slice(data.as_slice());
    push_frame_tail(&mut v);
    proof {
        assert(v@ =~= frame(name@, data@));
    }
    v
}

/// The name `"endpoint"` as a byte vector.
pub fn endpoint_name_bytes() -> (r: Vec<u8>)
    ensures
        r@ == endpoint_name(),
{
    let mut v: Vec<u8> = Vec::new();
    v.push(101);
    v.push(110);
    v.push(100);
    v.push(112);
    v.push(111);
    v.push(105);
    v.push(110);
    v.push(116);
    proof {
        assert(v@ =~= endpoint_name());
    }
    v
}

/// The name `"message"` as a byte vector.
pub fn message_name_bytes() -> (r: Vec<u8>)
    ensures
        r@ == message_name(),
{
    let mut v: Vec<u8> = Vec::new();
    v.push(109);
    v.push(101);
    v.push(115);
    v.push(115);
    v.push(97);
    v.push(103);
    v.push(101);
    proof {
        assert(v@ =~= message_name());
    }
    v
}

/// The handshake payload `?sessionId=<id>` for one session.
pub fn handshake_data_bytes(id: &SessionId) -> (r: Vec<u8>)
    ensures
        r@ == handshake_data(id.bits),
{
    let mut v: Vec<u8> = Vec::new();
    v.push(63);
    v.push(115);
    v.push(101);
    v.push(115);
    v.push(115);
    v.push(105);
    v.push(111);
    v.push(110);
    v.push(73);
    v.push(100);
    v.push(61);
    proof {
        assert(v@ =~= query_prefix());
    }
    let text = id.text();
    v.extend_from_slice(text.as_slice());
    v
}

/// The handshake frame for one session.
pub fn handshake_event(id: &SessionId) -> (r: Vec<u8>)
    ensures
        r@ == handshake_frame(id.bits),
{
    let name = endpoint_name_bytes();
    let data = handshake_data_bytes(id);
    frame_event(&name, &data)
}

/// One `message` frame carrying a serialized protocol message.
pub fn message_event(text: &Vec<u8>) -> (r: Vec<u8>)
    ensures
        r@ == message_frame(text@),
{
    let name = message_name_bytes();
    frame_event(&name, text)
}

/// Distinct sessions never announce the same endpoint: the handshake frames
/// of different identifiers differ.
pub proof fn lemma_handshake_frame_injective(a: u128, b: u128)
    requires
        a != b,
    ensures
        handshake_frame(a) != handshake_frame(b),
{
    lemma_id_text_wf(a);
    lemma_id_text_wf(b);
    lemma_id_text_injective(a, b);
    if handshake_frame(a) == handshake_frame(b) {
        assert(handshake_frame(a).subrange(33, 65) =~= id_text(a));
        assert(handshake_frame(b).subrange(33, 65) =~= id_text(b));
    }
}

/// Builds the outbound stream of one session: the handshake event strictly
/// first, then one `message` frame per outbound protocol message. A
/// serialization failure ends the whole stream with an error rather than
/// skipping the failed element.
pub struct OutboundStream {
    id: SessionId,
    handshake_sent: bool,
}

impl OutboundStream {
    /// Which session the stream belongs to.
    pub closed spec fn session(&self) -> u128 {
        self.id.bits
    }

    /// Whether the handshake frame has been handed out.
    pub closed spec fn handshake_sent(&self) -> bool {
        self.handshake_sent
    }

    /// A stream builder that has emitted nothing yet.
    pub fn new(id: SessionId) -> (r: Self)
        ensures
            r.session() == id.bits,
            !r.handshake_sent(),
    {
        OutboundStream { id, handshake_sent: false }
    }

    /// The first event on the stream: the handshake, which no message frame
    /// can precede.
    pub fn handshake(&mut self) -> (e: Vec<u8>)
        requires
            !old(self).handshake_sent(),
        ensures
            final(self).handshake_sent(),
            final(self).session() == old(self).session(),
            e@ == handshake_frame(old(self).session()),
    {
        self.handshake_sent = true;
        handshake_event(&self.id)
    }

    /// One protocol message's frame, available only once the handshake has
    /// gone out first.
    pub fn message(&self, text: &Vec<u8>) -> (e: Vec<u8>)
        requires
            self.handshake_sent(),
        ensures
            e@ == message_frame(text@),
    {
        message_event(text)
    }
}

} // verus!
