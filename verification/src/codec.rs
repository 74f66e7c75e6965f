//! The compact length-prefixed binary wire format of payloads.
//!
//! Field order on the wire: transaction id (16 bytes) | origin
//! verification (signature, public key, each length-prefixed) | hop
//! verification | relay header (method tag, path as a counted list of
//! 20-byte ids, cursor, optional next hop, destination) | message body
//! (variant tag, then its fields). All counts and lengths are 32-bit
//! big-endian; identifiers are 20-byte big-endian.
//!
//! The encoding is specified over ghost views; decoding is a total
//! function of the bytes, and inverts encoding for every encodable value.

use crate::bytes::be_bytes;
use crate::bytes::bytes_val;
use crate::did::did_bytes;
use crate::did::did_of_bytes;
use crate::did::Did;
use crate::message::FindSuccessorThen;
use crate::message::MessageView;
use crate::message::PayloadView;
use crate::message::RelayView;
use crate::message::VerificationView;
use crate::message::VirtualNodeView;
use crate::relay::RelayMethod;
use vstd::prelude::*;

verus! {

/// One past the largest count or length the wire format can carry.
pub open spec fn len_limit() -> int {
    0x100000000
}

// ---------------------------------------------------------------- encoders

pub open spec fn enc_u32(x: int) -> Seq<u8> {
    be_bytes(x, 4)
}

pub open spec fn enc_bytes(b: Seq<u8>) -> Seq<u8> {
    enc_u32(b.len() as int) + b
}

pub open spec fn enc_opt_did(o: Option<Did>) -> Seq<u8> {
    match o {
        Option::None => seq![0u8],
        Option::Some(d) => seq![1u8] + did_bytes(d),
    }
}

pub open spec fn method_tag(m: RelayMethod) -> u8 {
    match m {
        RelayMethod::SEND => 0u8,
        RelayMethod::REPORT => 1u8,
    }
}

pub open spec fn handler_tag(h: FindSuccessorThen) -> u8 {
    match h {
        FindSuccessorThen::SyncSuccessor => 0u8,
        FindSuccessorThen::FixFingerTable => 1u8,
    }
}

pub open spec fn bool_tag(b: bool) -> u8 {
    if b {
        1u8
    } else {
        0u8
    }
}

/// The path entries from index `i` on, each as 20 bytes.
pub open spec fn enc_dids(p: Seq<Did>, i: int) -> Seq<u8>
    decreases p.len() - i,
{
    if 0 <= i < p.len() {
        did_bytes(p[i]) + enc_dids(p, i + 1)
    } else {
        Seq::empty()
    }
}

pub open spec fn enc_relay(r: RelayView) -> Seq<u8> {
    seq![method_tag(r.method)] + enc_u32(r.path.len() as int) + enc_dids(r.path, 0) + enc_u32(
        r.path_end_cursor as int,
    ) + enc_opt_did(r.next_hop) + did_bytes(r.destination)
}

pub open spec fn enc_verification(v: VerificationView) -> Seq<u8> {
    enc_bytes(v.signature) + enc_bytes(v.pubkey)
}

pub open spec fn enc_vnode(v: VirtualNodeView) -> Seq<u8> {
    did_bytes(v.did) + enc_bytes(v.data)
}

/// The stored values from index `i` on.
pub open spec fn enc_vnodes(s: Seq<VirtualNodeView>, i: int) -> Seq<u8>
    decreases s.len() - i,
{
    if 0 <= i < s.len() {
        enc_vnode(s[i]) + enc_vnodes(s, i + 1)
    } else {
        Seq::empty()
    }
}

/// A message body: variant tag, then its fields.
pub open spec fn enc_msg(m: MessageView) -> Seq<u8>
    decreases m, 0int, 0int,
{
    match m {
        MessageView::JoinDHT { id } => seq![0u8] + did_bytes(id),
        MessageView::LeaveDHT { id } => seq![1u8] + did_bytes(id),
        MessageView::ConnectNodeSend { sender_id, target_id, transport_uuid, handshake_info } =>
            seq![2u8] + did_bytes(sender_id) + did_bytes(target_id) + enc_bytes(transport_uuid)
            + enc_bytes(handshake_info),
        MessageView::ConnectNodeReport { answer_id, transport_uuid, handshake_info } => seq![3u8]
            + did_bytes(answer_id) + enc_bytes(transport_uuid) + enc_bytes(handshake_info),
        MessageView::AlreadyConnected { answer_id } => seq![4u8] + did_bytes(answer_id),
        MessageView::FindSuccessorSend { id, handler, strict } => seq![5u8] + did_bytes(id)
            + seq![handler_tag(handler)] + seq![bool_tag(strict)],
        MessageView::FindSuccessorReport { id, handler } => seq![6u8] + did_bytes(id)
            + seq![handler_tag(handler)],
        MessageView::NotifyPredecessorSend { id } => seq![7u8] + did_bytes(id),
        MessageView::NotifyPredecessorReport { id } => seq![8u8] + did_bytes(id),
        MessageView::SearchVNode { id } => seq![9u8] + did_bytes(id),
        MessageView::FoundVNode { data } => seq![10u8] + enc_u32(data.len() as int) + enc_vnodes(
            data,
            0,
        ),
        MessageView::StoreVNode { data } => seq![11u8] + enc_u32(data.len() as int) + enc_vnodes(
            data,
            0,
        ),
        MessageView::SyncVNodeWithSuccessor { data } => seq![12u8] + enc_u32(data.len() as int)
            + enc_vnodes(data, 0),
        MessageView::CustomMessage { data } => seq![13u8] + enc_bytes(data),
        MessageView::MultiCall { messages } => seq![14u8] + enc_u32(messages.len() as int)
            + enc_msgs(messages, 0),
    }
}

/// The bundled messages from index `i` on.
pub open spec fn enc_msgs(s: Seq<MessageView>, i: int) -> Seq<u8>
    decreases s, 1int, s.len() - i,
{
    if 0 <= i < s.len() {
        enc_msg(s[i]) + enc_msgs(s, i + 1)
    } else {
        Seq::empty()
    }
}

pub open spec fn enc_payload(p: PayloadView) -> Seq<u8> {
    be_bytes(p.tx_id as int, 16) + enc_verification(p.origin_verification) + enc_verification(
        p.verification,
    ) + enc_relay(p.relay) + enc_msg(p.data)
}

// ------------------------------------------------------------- encodability

/// Whether every count and length of the message fits the wire's 32-bit
/// prefixes.
pub open spec fn encodable_msg(m: MessageView) -> bool
    decreases m, 0int, 0int,
{
    match m {
        MessageView::JoinDHT { .. } => true,
        MessageView::LeaveDHT { .. } => true,
        MessageView::ConnectNodeSend { transport_uuid, handshake_info, .. } => transport_uuid.len()
            < len_limit() && handshake_info.len() < len_limit(),
        MessageView::ConnectNodeReport { transport_uuid, handshake_info, .. } =>
            transport_uuid.len() < len_limit() && handshake_info.len() < len_limit(),
        MessageView::AlreadyConnected { .. } => true,
        MessageView::FindSuccessorSend { .. } => true,
        MessageView::FindSuccessorReport { .. } => true,
        MessageView::NotifyPredecessorSend { .. } => true,
        MessageView::NotifyPredecessorReport { .. } => true,
        MessageView::SearchVNode { .. } => true,
        MessageView::FoundVNode { data } => data.len() < len_limit() && encodable_vnodes(data, 0),
        MessageView::StoreVNode { data } => data.len() < len_limit() && encodable_vnodes(data, 0),
        MessageView::SyncVNodeWithSuccessor { data } => data.len() < len_limit()
            && encodable_vnodes(data, 0),
        MessageView::CustomMessage { data } => data.len() < len_limit(),
        MessageView::MultiCall { messages } => messages.len() < len_limit() && encodable_msgs(
            messages,
            0,
        ),
    }
}

pub open spec fn encodable_vnodes(s: Seq<VirtualNodeView>, i: int) -> bool
    decreases s.len() - i,
{
    if 0 <= i < s.len() {
        s[i].data.len() < len_limit() && encodable_vnodes(s, i + 1)
    } else {
        true
    }
}

pub open spec fn encodable_msgs(s: Seq<MessageView>, i: int) -> bool
    decreases s, 1int, s.len() - i,
{
    if 0 <= i < s.len() {
        encodable_msg(s[i]) && encodable_msgs(s, i + 1)
    } else {
        true
    }
}

pub open spec fn encodable_relay(r: RelayView) -> bool {
    r.path.len() < len_limit() && (r.path_end_cursor as int) < len_limit()
}

pub open spec fn encodable_verification(v: VerificationView) -> bool {
    v.signature.len() < len_limit() && v.pubkey.len() < len_limit()
}

pub open spec fn encodable_payload(p: PayloadView) -> bool {
    &&& encodable_verification(p.origin_verification)
    &&& encodable_verification(p.verification)
    &&& encodable_relay(p.relay)
    &&& encodable_msg(p.data)
}

// ---------------------------------------------------------------- decoders

pub open spec fn dec_u32(s: Seq<u8>) -> Option<(int, Seq<u8>)> {
    if s.len() >= 4 {
        Option::Some((bytes_val(s.take(4)), s.skip(4)))
    } else {
        Option::None
    }
}

pub open spec fn dec_did(s: Seq<u8>) -> Option<(Did, Seq<u8>)> {
    if s.len() >= 20 {
        Option::Some((did_of_bytes(s.take(20)), s.skip(20)))
    } else {
        Option::None
    }
}

pub open spec fn dec_bytes(s: Seq<u8>) -> Option<(Seq<u8>, Seq<u8>)> {
    match dec_u32(s) {
        Option::None => Option::None,
        Option::Some((n, s1)) => if s1.len() >= n {
            Option::Some((s1.take(n), s1.skip(n)))
        } else {
            Option::None
        },
    }
}

pub open spec fn dec_opt_did(s: Seq<u8>) -> Option<(Option<Did>, Seq<u8>)> {
    if s.len() >= 1 {
        if s[0] == 0u8 {
            Option::Some((Option::None, s.skip(1)))
        } else if s[0] == 1u8 {
            match dec_did(s.skip(1)) {
                Option::None => Option::None,
                Option::Some((d, s1)) => Option::Some((Option::Some(d), s1)),
            }
        } else {
            Option::None
        }
    } else {
        Option::None
    }
}

pub open spec fn dec_method(s: Seq<u8>) -> Option<(RelayMethod, Seq<u8>)> {
    if s.len() >= 1 {
        if s[0] == 0u8 {
            Option::Some((RelayMethod::SEND, s.skip(1)))
        } else if s[0] == 1u8 {
            Option::Some((RelayMethod::REPORT, s.skip(1)))
        } else {
            Option::None
        }
    } else {
        Option::None
    }
}

pub open spec fn dec_handler(s: Seq<u8>) -> Option<(FindSuccessorThen, Seq<u8>)> {
    if s.len() >= 1 {
        if s[0] == 0u8 {
            Option::Some((FindSuccessorThen::SyncSuccessor, s.skip(1)))
        } else if s[0] == 1u8 {
            Option::Some((FindSuccessorThen::FixFingerTable, s.skip(1)))
        } else {
            Option::None
        }
    } else {
        Option::None
    }
}

pub open spec fn dec_bool(s: Seq<u8>) -> Option<(bool, Seq<u8>)> {
    if s.len() >= 1 {
        if s[0] == 0u8 {
            Option::Some((false, s.skip(1)))
        } else if s[0] == 1u8 {
            Option::Some((true, s.skip(1)))
        } else {
            Option::None
        }
    } else {
        Option::None
    }
}

pub open spec fn dec_dids(s: Seq<u8>, n: int) -> Option<(Seq<Did>, Seq<u8>)>
    decreases n,
{
    if n <= 0 {
        Option::Some((Seq::empty(), s))
    } else {
        match dec_did(s) {
            Option::None => Option::None,
            Option::Some((d, s1)) => match dec_dids(s1, n - 1) {
                Option::None => Option::None,
                Option::Some((p, s2)) => Option::Some((seq![d] + p, s2)),
            },
        }
    }
}

pub open spec fn dec_relay(s: Seq<u8>) -> Option<(RelayView, Seq<u8>)> {
    match dec_method(s) {
        Option::None => Option::None,
        Option::Some((method, s1)) => match dec_u32(s1) {
            Option::None => Option::None,
            Option::Some((n, s2)) => match dec_dids(s2, n) {
                Option::None => Option::None,
                Option::Some((path, s3)) => match dec_u32(s3) {
                    Option::None => Option::None,
                    Option::Some((cursor, s4)) => match dec_opt_did(s4) {
                        Option::None => Option::None,
                        Option::Some((next_hop, s5)) => match dec_did(s5) {
                            Option::None => Option::None,
                            Option::Some((destination, s6)) => Option::Some(
                                (
                                    RelayView {
                                        method,
                                        path,
                                        path_end_cursor: cursor as usize,
                                        next_hop,
                                        destination,
                                    },
                                    s6,
                                ),
                            ),
                        },
                    },
                },
            },
        },
    }
}

pub open spec fn dec_verification(s: Seq<u8>) -> Option<(VerificationView, Seq<u8>)> {
    match dec_bytes(s) {
        Option::None => Option::None,
        Option::Some((signature, s1)) => match dec_bytes(s1) {
            Option::None => Option::None,
            Option::Some((pubkey, s2)) => Option::Some(
                (VerificationView { signature, pubkey }, s2),
            ),
        },
    }
}

pub open spec fn dec_vnode(s: Seq<u8>) -> Option<(VirtualNodeView, Seq<u8>)> {
    match dec_did(s) {
        Option::None => Option::None,
        Option::Some((did, s1)) => match dec_bytes(s1) {
            Option::None => Option::None,
            Option::Some((data, s2)) => Option::Some((VirtualNodeView { did, data }, s2)),
        },
    }
}

pub open spec fn dec_vnodes(s: Seq<u8>, n: int) -> Option<(Seq<VirtualNodeView>, Seq<u8>)>
    decreases n,
{
    if n <= 0 {
        Option::Some((Seq::empty(), s))
    } else {
        match dec_vnode(s) {
            Option::None => Option::None,
            Option::Some((v, s1)) => match dec_vnodes(s1, n - 1) {
                Option::None => Option::None,
                Option::Some((vs, s2)) => Option::Some((seq![v] + vs, s2)),
            },
        }
    }
}

pub open spec fn dec_msg(s: Seq<u8>) -> Option<(MessageView, Seq<u8>)>
    decreases s.len(), 0int, 0int,
{
    if s.len() < 1 {
        Option::None
    } else {
        let tag = s[0];
        let r = s.skip(1);
        if tag == 0u8 {
            match dec_did(r) {
                Option::None => Option::None,
                Option::Some((id, s1)) => Option::Some((MessageView::JoinDHT { id }, s1)),
            }
        } else if tag == 1u8 {
            match dec_did(r) {
                Option::None => Option::None,
                Option::Some((id, s1)) => Option::Some((MessageView::LeaveDHT { id }, s1)),
            }
        } else if tag == 2u8 {
            match dec_did(r) {
                Option::None => Option::None,
                Option::Some((sender_id, s1)) => match dec_did(s1) {
                    Option::None => Option::None,
                    Option::Some((target_id, s2)) => match dec_bytes(s2) {
                        Option::None => Option::None,
                        Option::Some((transport_uuid, s3)) => match dec_bytes(s3) {
                            Option::None => Option::None,
                            Option::Some((handshake_info, s4)) => Option::Some(
                                (
                                    MessageView::ConnectNodeSend {
                                        sender_id,
                                        target_id,
                                        transport_uuid,
                                        handshake_info,
                                    },
                                    s4,
                                ),
                            ),
                        },
                    },
                },
            }
        } else if tag == 3u8 {
            match dec_did(r) {
                Option::None => Option::None,
                Option::Some((answer_id, s1)) => match dec_bytes(s1) {
                    Option::None => Option::None,
                    Option::Some((transport_uuid, s2)) => match dec_bytes(s2) {
                        Option::None => Option::None,
                        Option::Some((handshake_info, s3)) => Option::Some(
                            (
                                MessageView::ConnectNodeReport {
                                    answer_id,
                                    transport_uuid,
                                    handshake_info,
                                },
                                s3,
                            ),
                        ),
                    },
                },
            }
        } else if tag == 4u8 {
            match dec_did(r) {
                Option::None => Option::None,
                Option::Some((answer_id, s1)) => Option::Some(
                    (MessageView::AlreadyConnected { answer_id }, s1),
                ),
            }
        } else if tag == 5u8 {
            match dec_did(r) {
                Option::None => Option::None,
                Option::Some((id, s1)) => match dec_handler(s1) {
                    Option::None => Option::None,
                    Option::Some((handler, s2)) => match dec_bool(s2) {
                        Option::None => Option::None,
                        Option::Some((strict, s3)) => Option::Some(
                            (MessageView::FindSuccessorSend { id, handler, strict }, s3),
                        ),
                    },
                },
            }
        } else if tag == 6u8 {
            match dec_did(r) {
                Option::None => Option::None,
                Option::Some((id, s1)) => match dec_handler(s1) {
                    Option::None => Option::None,
                    Option::Some((handler, s2)) => Option::Some(
                        (MessageView::FindSuccessorReport { id, handler }, s2),
                    ),
                },
            }
        } else if tag == 7u8 {
            match dec_did(r) {
                Option::None => Option::None,
                Option::Some((id, s1)) => Option::Some(
                    (MessageView::NotifyPredecessorSend { id }, s1),
                ),
            }
        } else if tag == 8u8 {
            match dec_did(r) {
                Option::None => Option::None,
                Option::Some((id, s1)) => Option::Some(
                    (MessageView::NotifyPredecessorReport { id }, s1),
                ),
            }
        } else if tag == 9u8 {
            match dec_did(r) {
                Option::None => Option::None,
                Option::Some((id, s1)) => Option::Some((MessageView::SearchVNode { id }, s1)),
            }
        } else if tag == 10u8 {
            match dec_u32(r) {
                Option::None => Option::None,
                Option::Some((n, s1)) => match dec_vnodes(s1, n) {
                    Option::None => Option::None,
                    Option::Some((data, s2)) => Option::Some(
                        (MessageView::FoundVNode { data }, s2),
                    ),
                },
            }
        } else if tag == 11u8 {
            match dec_u32(r) {
                Option::None => Option::None,
                Option::Some((n, s1)) => match dec_vnodes(s1, n) {
                    Option::None => Option::None,
                    Option::Some((data, s2)) => Option::Some(
                        (MessageView::StoreVNode { data }, s2),
                    ),
                },
            }
        } else if tag == 12u8 {
            match dec_u32(r) {
                Option::None => Option::None,
                Option::Some((n, s1)) => match dec_vnodes(s1, n) {
                    Option::None => Option::None,
                    Option::Some((data, s2)) => Option::Some(
                        (MessageView::SyncVNodeWithSuccessor { data }, s2),
                    ),
                },
            }
        } else if tag == 13u8 {
            match dec_bytes(r) {
                Option::None => Option::None,
                Option::Some((data, s1)) => Option::Some((MessageView::CustomMessage { data }, s1)),
            }
        } else if tag == 14u8 {
            match dec_u32(r) {
                Option::None => Option::None,
                Option::Some((n, s1)) => match dec_msgs(s1, n) {
                    Option::None => Option::None,
                    Option::Some((messages, s2)) => Option::Some(
                        (MessageView::MultiCall { messages }, s2),
                    ),
                },
            }
        } else {
            Option::None
        }
    }
}

pub open spec fn dec_msgs(s: Seq<u8>, n: int) -> Option<(Seq<MessageView>, Seq<u8>)>
    decreases s.len(), 1int, n,
{
    if n <= 0 {
        Option::Some((Seq::empty(), s))
    } else {
        match dec_msg(s) {
            Option::None => Option::None,
            Option::Some((m, s1)) => if s1.len() < s.len() && n >= 1 {
                match dec_msgs(s1, n - 1) {
                    Option::None => Option::None,
                    Option::Some((ms, s2)) => Option::Some((seq![m] + ms, s2)),
                }
            } else {
                Option::None
            },
        }
    }
}

pub open spec fn dec_payload(s: Seq<u8>) -> Option<(PayloadView, Seq<u8>)> {
    if s.len() >= 16 {
        let tx = bytes_val(s.take(16));
        let s0 = s.skip(16);
        match dec_verification(s0) {
            Option::None => Option::None,
            Option::Some((origin_verification, s1)) => match dec_verification(s1) {
                Option::None => Option::None,
                Option::Some((verification, s2)) => match dec_relay(s2) {
                    Option::None => Option::None,
                    Option::Some((relay, s3)) => match dec_msg(s3) {
                        Option::None => Option::None,
                        Option::Some((data, s4)) => Option::Some(
                            (
                                PayloadView {
                                    tx_id: tx as u128,
                                    data,
                                    origin_verification,
                                    verification,
                                    relay,
                                },
                                s4,
                            ),
                        ),
                    },
                },
            },
        }
    } else {
        Option::None
    }
}

/// The payload a byte string denotes, when it is exactly one well-formed
/// payload.
pub open spec fn decode_payload(s: Seq<u8>) -> Option<PayloadView> {
    match dec_payload(s) {
        Option::None => Option::None,
        Option::Some((p, rest)) => if rest.len() == 0 {
            Option::Some(p)
        } else {
            Option::None
        },
    }
}

} // verus!
