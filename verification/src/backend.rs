//! Backend message framing: the byte envelope application messages use
//! on top of the overlay's custom-message carriage.

use crate::handlers::Effect;
use crate::message::Message;
use crate::relay::MessageRelay;
use crate::vnode::clone_bytes;
use vstd::prelude::*;

verus! {

/// The kinds of application messages the backend understands.
#[derive(Clone, Copy, Debug, PartialEq, Eq, Structural)]
pub enum MessageType {
    /// Plain text bytes.
    SimpleText,
    /// An HTTP request to proxy.
    HttpRequest,
    /// The response to a proxied request.
    HttpResponse,
    /// Any tag this node does not interpret.
    Unknown(u16),
}

impl MessageType {
    /// The stable wire tag of this kind.
    pub open spec fn tag_spec(self) -> u16 {
        match self {
            MessageType::SimpleText => 1u16,
            MessageType::HttpRequest => 2u16,
            MessageType::HttpResponse => 3u16,
            MessageType::Unknown(x) => x,
        }
    }

    /// The stable wire tag of this kind.
    pub fn tag(&self) -> (r: u16)
        ensures
            r == self.tag_spec(),
    {
        match self {
            MessageType::SimpleText => 1u16,
            MessageType::HttpRequest => 2u16,
            MessageType::HttpResponse => 3u16,
            MessageType::Unknown(x) => *x,
        }
    }

    /// The kind a wire tag denotes.
    pub fn of_tag(t: u16) -> (r: MessageType)
        ensures
            r.tag_spec() == t,
            t == 1 ==> r is SimpleText,
            t == 2 ==> r is HttpRequest,
            t == 3 ==> r is HttpResponse,
            t != 1 && t != 2 && t != 3 ==> r == MessageType::Unknown(t),
    {
        if t == 1 {
            MessageType::SimpleText
        } else if t == 2 {
            MessageType::HttpRequest
        } else if t == 3 {
            MessageType::HttpResponse
        } else {
            MessageType::Unknown(t)
        }
    }
}

/// An application message: a kind tag, thirty bytes of extra headroom,
/// and the payload bytes.
#[derive(Clone, Debug)]
pub struct BackendMessage {
    /// The kind tag.
    pub message_type: u16,
    /// Fixed-width extra bytes for application use.
    pub extra: Vec<u8>,
    /// The payload.
    pub data: Vec<u8>,
}

/// Wire form of a backend message: tag (2 bytes, big-endian), thirty
/// extra bytes, then the payload.
pub open spec fn backend_bytes(m: BackendMessage) -> Seq<u8> {
    crate::bytes::be_bytes(m.message_type as int, 2) + m.extra@ + m.data@
}

impl BackendMessage {
    /// The extra field always holds exactly thirty bytes.
    pub open spec fn wf(self) -> bool {
        self.extra@.len() == 30
    }

    /// Pair a kind with payload bytes; the extra field starts zeroed.
    pub fn new(message_type: u16, extra: Vec<u8>, data: Vec<u8>) -> (r: Result<
        BackendMessage,
        crate::error::Error,
    >)
        ensures
            r is Ok <==> extra@.len() == 30,
            r matches Ok(m) ==> m == (BackendMessage { message_type, extra, data }) && m.wf(),
    {
        if extra.len() != 30 {
            return Result::Err(crate::error::Error::InvalidData);
        }
        Result::Ok(BackendMessage { message_type, extra, data })
    }

    /// Serialize to the wire form.
    pub fn to_bytes(&self) -> (r: Vec<u8>)
        ensures
            r@ == backend_bytes(*self),
    {
        proof {
            crate::bytes::lemma_be_bytes_len(self.message_type as int, 2);
        }
        let mut out: Vec<u8> = Vec::new();
        let hi: u8 = (self.message_type / 256) as u8;
        let lo: u8 = (self.message_type % 256) as u8;
        out.push(hi);
        out.push(lo);
        proof {
            crate::bytes::lemma_be_bytes_index(self.message_type as int, 2, 0);
            crate::bytes::lemma_be_bytes_index(self.message_type as int, 2, 1);
            crate::bytes::lemma_pow256_16();
            assert(out@ =~= crate::bytes::be_bytes(self.message_type as int, 2));
        }
        let mut e = clone_bytes(&self.extra);
        out.append(&mut e);
        let mut d = clone_bytes(&self.data);
        out.append(&mut d);
        proof {
            assert(out@ =~= backend_bytes(*self));
        }
        out
    }

    /// Parse the wire form; refuses byte strings shorter than the tag and
    /// the extra field.
    pub fn from_bytes(s: &[u8]) -> (r: Result<BackendMessage, crate::error::Error>)
        ensures
            r is Ok <==> s@.len() >= 32,
            r matches Ok(m) ==> {
                &&& m.wf()
                &&& m.message_type as int == crate::bytes::bytes_val(s@.take(2))
                &&& m.extra@ == s@.subrange(2, 32)
                &&& m.data@ == s@.skip(32)
            },
    {
        if s.len() < 32 {
            return Result::Err(crate::error::Error::InvalidData);
        }
        let head = vstd::slice::slice_subrange(s, 0, 2);
        proof {
            assert(head@ =~= s@.take(2));
            crate::bytes::lemma_bytes_val_bound(s@.take(2));
            crate::bytes::lemma_pow256_16();
            assert(crate::bytes::pow256(2) == 0x10000int);
        }
        let tag = crate::bytes::u16_from_be_bytes(head);
        let extra = vstd::slice::slice_to_vec(vstd::slice::slice_subrange(s, 2, 32));
        let data = vstd::slice::slice_to_vec(vstd::slice::slice_subrange(s, 32, s.len()));
        proof {
            assert(s@.subrange(32, s@.len() as int) =~= s@.skip(32));
        }
        Result::Ok(BackendMessage { message_type: tag, extra, data })
    }
}

/// Frame application bytes as a plain (unchunked) custom message: a zero
/// mark and three reserved bytes before the payload.
pub fn pack_text_message(data: &[u8]) -> (r: Vec<u8>)
    ensures
        r@ == seq![0u8, 0u8, 0u8, 0u8] + data@,
{
    let mut out: Vec<u8> = Vec::new();
    out.push(0u8);
    out.push(0u8);
    out.push(0u8);
    out.push(0u8);
    let mut d = vstd::slice::slice_to_vec(data);
    out.append(&mut d);
    proof {
        assert(out@ =~= seq![0u8, 0u8, 0u8, 0u8] + data@);
    }
    out
}

/// Build the reply carrying one chunk of a large response: a one mark and
/// three reserved bytes before the chunk, sent as a custom message along
/// the reversed path.
pub fn send_chunk_report_message(relay: MessageRelay, data: &[u8]) -> (r: Effect)
    ensures
        ({
            &&& r matches Effect::SendReport { relay: rel, message }
            &&& rel == relay
            &&& message matches Message::CustomMessage(b)
            &&& b.0@ == seq![1u8, 0u8, 0u8, 0u8] + data@
        }),
{
    let mut framed: Vec<u8> = Vec::new();
    framed.push(1u8);
    framed.push(0u8);
    framed.push(0u8);
    framed.push(0u8);
    let mut d = vstd::slice::slice_to_vec(data);
    framed.append(&mut d);
    proof {
        assert(framed@ =~= seq![1u8, 0u8, 0u8, 0u8] + data@);
    }
    Effect::SendReport {
        relay,
        message: Message::CustomMessage(crate::message::CustomMessage(framed)),
    }
}

} // verus!
