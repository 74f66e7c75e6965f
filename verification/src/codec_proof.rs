//! Decoding inverts encoding: the round-trip facts of the wire format.

use crate::bytes::be_bytes;
use crate::bytes::bytes_val;
use crate::codec::bool_tag;
use crate::codec::dec_bool;
use crate::codec::dec_bytes;
use crate::codec::dec_did;
use crate::codec::dec_dids;
use crate::codec::dec_handler;
use crate::codec::dec_method;
use crate::codec::dec_msg;
use crate::codec::dec_msgs;
use crate::codec::dec_opt_did;
use crate::codec::dec_relay;
use crate::codec::dec_u32;
use crate::codec::dec_verification;
use crate::codec::dec_vnode;
use crate::codec::dec_vnodes;
use crate::codec::decode_payload;
use crate::codec::enc_bytes;
use crate::codec::enc_dids;
use crate::codec::enc_msg;
use crate::codec::enc_msgs;
use crate::codec::enc_opt_did;
use crate::codec::enc_payload;
use crate::codec::enc_relay;
use crate::codec::enc_u32;
use crate::codec::enc_verification;
use crate::codec::enc_vnode;
use crate::codec::enc_vnodes;
use crate::codec::encodable_msg;
use crate::codec::encodable_msgs;
use crate::codec::encodable_payload;
use crate::codec::encodable_relay;
use crate::codec::encodable_verification;
use crate::codec::encodable_vnodes;
use crate::codec::handler_tag;
use crate::codec::len_limit;
use crate::codec::method_tag;
use crate::did::did_bytes;
use crate::did::Did;
use crate::message::MessageView;
use crate::message::PayloadView;
use crate::message::RelayView;
use crate::message::VerificationView;
use crate::message::VirtualNodeView;
use vstd::prelude::*;

verus! {

/// A 32-bit count decodes back, leaving the remainder untouched.
pub proof fn lemma_dec_u32(x: int, rest: Seq<u8>)
    requires
        0 <= x < len_limit(),
    ensures
        dec_u32(enc_u32(x) + rest) == Option::Some((x, rest)),
{
    crate::bytes::lemma_be_bytes_len(x, 4);
    crate::bytes::lemma_pow256_16();
    crate::bytes::lemma_bytes_round_trip(x, 4);
    let s = enc_u32(x) + rest;
    assert(s.take(4) =~= be_bytes(x, 4));
    assert(s.skip(4) =~= rest);
}

/// An identifier decodes back.
pub proof fn lemma_dec_did(d: Did, rest: Seq<u8>)
    ensures
        dec_did(did_bytes(d) + rest) == Option::Some((d, rest)),
{
    crate::did::lemma_did_bytes_round_trip(d);
    let s = did_bytes(d) + rest;
    assert(s.take(20) =~= did_bytes(d));
    assert(s.skip(20) =~= rest);
}

/// A length-prefixed byte string decodes back.
pub proof fn lemma_dec_bytes(b: Seq<u8>, rest: Seq<u8>)
    requires
        b.len() < len_limit(),
    ensures
        dec_bytes(enc_bytes(b) + rest) == Option::Some((b, rest)),
{
    let s = enc_bytes(b) + rest;
    assert(s =~= enc_u32(b.len() as int) + (b + rest));
    lemma_dec_u32(b.len() as int, b + rest);
    assert((b + rest).take(b.len() as int) =~= b);
    assert((b + rest).skip(b.len() as int) =~= rest);
}

/// An optional identifier decodes back.
pub proof fn lemma_dec_opt_did(o: Option<Did>, rest: Seq<u8>)
    ensures
        dec_opt_did(enc_opt_did(o) + rest) == Option::Some((o, rest)),
{
    let s = enc_opt_did(o) + rest;
    match o {
        Option::None => {
            assert(s[0] == 0u8);
            assert(s.skip(1) =~= rest);
        },
        Option::Some(d) => {
            assert(s[0] == 1u8);
            assert(s.skip(1) =~= did_bytes(d) + rest);
            lemma_dec_did(d, rest);
        },
    }
}

/// A relay-method tag decodes back.
pub proof fn lemma_dec_method(m: crate::relay::RelayMethod, rest: Seq<u8>)
    ensures
        dec_method(seq![method_tag(m)] + rest) == Option::Some((m, rest)),
{
    let s = seq![method_tag(m)] + rest;
    assert(s.skip(1) =~= rest);
}

/// A handler tag decodes back.
pub proof fn lemma_dec_handler(h: crate::message::FindSuccessorThen, rest: Seq<u8>)
    ensures
        dec_handler(seq![handler_tag(h)] + rest) == Option::Some((h, rest)),
{
    let s = seq![handler_tag(h)] + rest;
    assert(s.skip(1) =~= rest);
}

/// A boolean tag decodes back.
pub proof fn lemma_dec_bool(b: bool, rest: Seq<u8>)
    ensures
        dec_bool(seq![bool_tag(b)] + rest) == Option::Some((b, rest)),
{
    let s = seq![bool_tag(b)] + rest;
    assert(s.skip(1) =~= rest);
}

/// A counted identifier list decodes back.
pub proof fn lemma_dec_dids(p: Seq<Did>, i: int, rest: Seq<u8>)
    requires
        0 <= i <= p.len(),
    ensures
        dec_dids(enc_dids(p, i) + rest, p.len() - i) == Option::Some((p.skip(i), rest)),
    decreases p.len() - i,
{
    if i == p.len() {
        assert(enc_dids(p, i) + rest =~= rest);
        assert(p.skip(i) =~= Seq::<Did>::empty());
    } else {
        let tail = enc_dids(p, i + 1) + rest;
        assert(enc_dids(p, i) + rest =~= did_bytes(p[i]) + tail);
        lemma_dec_did(p[i], tail);
        lemma_dec_dids(p, i + 1, rest);
        assert(seq![p[i]] + p.skip(i + 1) =~= p.skip(i));
    }
}

/// A relay header decodes back.
#[verifier::rlimit(80)]
#[verifier::spinoff_prover]
pub proof fn lemma_dec_relay(r: RelayView, rest: Seq<u8>)
    requires
        encodable_relay(r),
    ensures
        dec_relay(enc_relay(r) + rest) == Option::Some((r, rest)),
{
    let after_method = enc_u32(r.path.len() as int) + enc_dids(r.path, 0) + enc_u32(
        r.path_end_cursor as int,
    ) + enc_opt_did(r.next_hop) + did_bytes(r.destination) + rest;
    assert(enc_relay(r) + rest =~= seq![method_tag(r.method)] + after_method);
    lemma_dec_method(r.method, after_method);
    let after_len = enc_dids(r.path, 0) + enc_u32(r.path_end_cursor as int) + enc_opt_did(
        r.next_hop,
    ) + did_bytes(r.destination) + rest;
    assert(after_method =~= enc_u32(r.path.len() as int) + after_len);
    lemma_dec_u32(r.path.len() as int, after_len);
    let after_path = enc_u32(r.path_end_cursor as int) + enc_opt_did(r.next_hop) + did_bytes(
        r.destination,
    ) + rest;
    assert(after_len =~= enc_dids(r.path, 0) + after_path);
    lemma_dec_dids(r.path, 0, after_path);
    assert(r.path.skip(0) =~= r.path);
    let after_cursor = enc_opt_did(r.next_hop) + did_bytes(r.destination) + rest;
    assert(after_path =~= enc_u32(r.path_end_cursor as int) + after_cursor);
    lemma_dec_u32(r.path_end_cursor as int, after_cursor);
    let after_next = did_bytes(r.destination) + rest;
    assert(after_cursor =~= enc_opt_did(r.next_hop) + after_next);
    lemma_dec_opt_did(r.next_hop, after_next);
    lemma_dec_did(r.destination, rest);
}

/// A verification decodes back.
pub proof fn lemma_dec_verification(v: VerificationView, rest: Seq<u8>)
    requires
        encodable_verification(v),
    ensures
        dec_verification(enc_verification(v) + rest) == Option::Some((v, rest)),
{
    let after_sig = enc_bytes(v.pubkey) + rest;
    assert(enc_verification(v) + rest =~= enc_bytes(v.signature) + after_sig);
    lemma_dec_bytes(v.signature, after_sig);
    lemma_dec_bytes(v.pubkey, rest);
}

/// A stored value decodes back.
pub proof fn lemma_dec_vnode(v: VirtualNodeView, rest: Seq<u8>)
    requires
        v.data.len() < len_limit(),
    ensures
        dec_vnode(enc_vnode(v) + rest) == Option::Some((v, rest)),
{
    let after_did = enc_bytes(v.data) + rest;
    assert(enc_vnode(v) + rest =~= did_bytes(v.did) + after_did);
    lemma_dec_did(v.did, after_did);
    lemma_dec_bytes(v.data, rest);
}

/// A counted list of stored values decodes back.
pub proof fn lemma_dec_vnodes(s: Seq<VirtualNodeView>, i: int, rest: Seq<u8>)
    requires
        0 <= i <= s.len(),
        encodable_vnodes(s, i),
    ensures
        dec_vnodes(enc_vnodes(s, i) + rest, s.len() - i) == Option::Some((s.skip(i), rest)),
    decreases s.len() - i,
{
    if i == s.len() {
        assert(enc_vnodes(s, i) + rest =~= rest);
        assert(s.skip(i) =~= Seq::<VirtualNodeView>::empty());
    } else {
        let tail = enc_vnodes(s, i + 1) + rest;
        assert(enc_vnodes(s, i) + rest =~= enc_vnode(s[i]) + tail);
        lemma_dec_vnode(s[i], tail);
        lemma_dec_vnodes(s, i + 1, rest);
        assert(seq![s[i]] + s.skip(i + 1) =~= s.skip(i));
    }
}

/// A message body decodes back, and its encoding is never empty.
#[verifier::rlimit(80)]
#[verifier::spinoff_prover]
pub proof fn lemma_dec_msg(m: MessageView, rest: Seq<u8>)
    requires
        encodable_msg(m),
    ensures
        enc_msg(m).len() >= 1,
        dec_msg(enc_msg(m) + rest) == Option::Some((m, rest)),
    decreases m, 0int, 0int,
{
    let s = enc_msg(m) + rest;
    match m {
        MessageView::JoinDHT { id } => {
            assert(s.skip(1) =~= did_bytes(id) + rest);
            lemma_dec_did(id, rest);
        },
        MessageView::LeaveDHT { id } => {
            assert(s.skip(1) =~= did_bytes(id) + rest);
            lemma_dec_did(id, rest);
        },
        MessageView::ConnectNodeSend { sender_id, target_id, transport_uuid, handshake_info } => {
            let t3 = enc_bytes(handshake_info) + rest;
            let t2 = enc_bytes(transport_uuid) + t3;
            let t1 = did_bytes(target_id) + t2;
            assert(s.skip(1) =~= did_bytes(sender_id) + t1);
            lemma_dec_did(sender_id, t1);
            assert(t1 =~= did_bytes(target_id) + t2);
            lemma_dec_did(target_id, t2);
            lemma_dec_bytes(transport_uuid, t3);
            lemma_dec_bytes(handshake_info, rest);
        },
        MessageView::ConnectNodeReport { answer_id, transport_uuid, handshake_info } => {
            let t2 = enc_bytes(handshake_info) + rest;
            let t1 = enc_bytes(transport_uuid) + t2;
            assert(s.skip(1) =~= did_bytes(answer_id) + t1);
            lemma_dec_did(answer_id, t1);
            lemma_dec_bytes(transport_uuid, t2);
            lemma_dec_bytes(handshake_info, rest);
        },
        MessageView::AlreadyConnected { answer_id } => {
            assert(s.skip(1) =~= did_bytes(answer_id) + rest);
            lemma_dec_did(answer_id, rest);
        },
        MessageView::FindSuccessorSend { id, handler, strict } => {
            let t2 = seq![bool_tag(strict)] + rest;
            let t1 = seq![handler_tag(handler)] + t2;
            assert(s.skip(1) =~= did_bytes(id) + t1);
            lemma_dec_did(id, t1);
            lemma_dec_handler(handler, t2);
            lemma_dec_bool(strict, rest);
        },
        MessageView::FindSuccessorReport { id, handler } => {
            let t1 = seq![handler_tag(handler)] + rest;
            assert(s.skip(1) =~= did_bytes(id) + t1);
            lemma_dec_did(id, t1);
            lemma_dec_handler(handler, rest);
        },
        MessageView::NotifyPredecessorSend { id } => {
            assert(s.skip(1) =~= did_bytes(id) + rest);
            lemma_dec_did(id, rest);
        },
        MessageView::NotifyPredecessorReport { id } => {
            assert(s.skip(1) =~= did_bytes(id) + rest);
            lemma_dec_did(id, rest);
        },
        MessageView::SearchVNode { id } => {
            assert(s.skip(1) =~= did_bytes(id) + rest);
            lemma_dec_did(id, rest);
        },
        MessageView::FoundVNode { data } => {
            let t1 = enc_vnodes(data, 0) + rest;
            assert(s.skip(1) =~= enc_u32(data.len() as int) + t1);
            lemma_dec_u32(data.len() as int, t1);
            lemma_dec_vnodes(data, 0, rest);
            assert(data.skip(0) =~= data);
        },
        MessageView::StoreVNode { data } => {
            let t1 = enc_vnodes(data, 0) + rest;
            assert(s.skip(1) =~= enc_u32(data.len() as int) + t1);
            lemma_dec_u32(data.len() as int, t1);
            lemma_dec_vnodes(data, 0, rest);
            assert(data.skip(0) =~= data);
        },
        MessageView::SyncVNodeWithSuccessor { data } => {
            let t1 = enc_vnodes(data, 0) + rest;
            assert(s.skip(1) =~= enc_u32(data.len() as int) + t1);
            lemma_dec_u32(data.len() as int, t1);
            lemma_dec_vnodes(data, 0, rest);
            assert(data.skip(0) =~= data);
        },
        MessageView::CustomMessage { data } => {
            assert(s.skip(1) =~= enc_bytes(data) + rest);
            lemma_dec_bytes(data, rest);
        },
        MessageView::MultiCall { messages } => {
            let t1 = enc_msgs(messages, 0) + rest;
            assert(s.skip(1) =~= enc_u32(messages.len() as int) + t1);
            lemma_dec_u32(messages.len() as int, t1);
            lemma_dec_msgs(messages, 0, rest);
            assert(messages.skip(0) =~= messages);
        },
    }
}

/// A counted message list decodes back.
pub proof fn lemma_dec_msgs(s: Seq<MessageView>, i: int, rest: Seq<u8>)
    requires
        0 <= i <= s.len(),
        encodable_msgs(s, i),
    ensures
        dec_msgs(enc_msgs(s, i) + rest, s.len() - i) == Option::Some((s.skip(i), rest)),
    decreases s, 1int, s.len() - i,
{
    if i == s.len() {
        assert(enc_msgs(s, i) + rest =~= rest);
        assert(s.skip(i) =~= Seq::<MessageView>::empty());
    } else {
        let tail = enc_msgs(s, i + 1) + rest;
        assert(enc_msgs(s, i) + rest =~= enc_msg(s[i]) + tail);
        lemma_dec_msg(s[i], tail);
        assert(tail.len() < (enc_msg(s[i]) + tail).len());
        lemma_dec_msgs(s, i + 1, rest);
        assert(seq![s[i]] + s.skip(i + 1) =~= s.skip(i));
    }
}

/// Decoding inverts encoding: every encodable payload is read back whole
/// and unchanged from its wire form.
pub proof fn lemma_payload_round_trip(p: PayloadView)
    requires
        encodable_payload(p),
    ensures
        decode_payload(enc_payload(p)) == Option::Some(p),
{
    let s = enc_payload(p);
    crate::bytes::lemma_be_bytes_len(p.tx_id as int, 16);
    crate::bytes::lemma_pow256_16();
    crate::bytes::lemma_bytes_round_trip(p.tx_id as int, 16);
    assert(s.take(16) =~= be_bytes(p.tx_id as int, 16));
    let t1 = enc_verification(p.verification) + enc_relay(p.relay) + enc_msg(p.data);
    let t0 = enc_verification(p.origin_verification) + t1;
    assert(s.skip(16) =~= t0);
    lemma_dec_verification(p.origin_verification, t1);
    let t2 = enc_relay(p.relay) + enc_msg(p.data);
    assert(t1 =~= enc_verification(p.verification) + t2);
    lemma_dec_verification(p.verification, t2);
    assert(t2 =~= enc_relay(p.relay) + (enc_msg(p.data) + Seq::<u8>::empty()));
    assert(enc_msg(p.data) + Seq::<u8>::empty() =~= enc_msg(p.data));
    lemma_dec_relay(p.relay, enc_msg(p.data));
    lemma_dec_msg(p.data, Seq::<u8>::empty());
    assert(enc_msg(p.data) =~= enc_msg(p.data) + Seq::<u8>::empty());
}

} // verus!
