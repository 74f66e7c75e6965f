//! Executable encoding and decoding of payloads, verified against the
//! wire-format specification.

use crate::bytes::be_bytes;
use crate::codec::bool_tag;
use crate::codec::dec_bool;
use crate::codec::dec_bytes;
use crate::codec::dec_did;
use crate::codec::dec_dids;
use crate::codec::dec_handler;
use crate::codec::dec_method;
use crate::codec::dec_msg;
use crate::codec::dec_msgs;
use crate::codec::dec_opt_did;
use crate::codec::dec_relay;
use crate::codec::dec_u32;
use crate::codec::dec_verification;
use crate::codec::dec_vnode;
use crate::codec::dec_vnodes;
use crate::codec::decode_payload;
use crate::codec::enc_bytes;
use crate::codec::enc_dids;
use crate::codec::enc_msg;
use crate::codec::enc_msgs;
use crate::codec::enc_opt_did;
use crate::codec::enc_payload;
use crate::codec::enc_relay;
use crate::codec::enc_u32;
use crate::codec::enc_verification;
use crate::codec::enc_vnode;
use crate::codec::enc_vnodes;
use crate::codec::encodable_msg;
use crate::codec::encodable_msgs;
use crate::codec::encodable_payload;
use crate::codec::encodable_relay;
use crate::codec::encodable_verification;
use crate::codec::encodable_vnodes;
use crate::codec::handler_tag;
use crate::codec::len_limit;
use crate::codec::method_tag;
use crate::did::did_bytes;
use crate::did::Did;
use crate::error::Error;
use crate::message::lemma_messages_view_index;
use crate::message::lemma_messages_view_len;
use crate::message::message_view;
use crate::message::FindSuccessorThen;
use crate::message::Message;
use crate::message::MessagePayload;
use crate::message::MessageVerification;
use crate::message::MessageView;
use crate::relay::MessageRelay;
use crate::relay::RelayMethod;
use crate::vnode::clone_bytes;
use crate::vnode::VirtualNode;
use vstd::prelude::*;

verus! {

broadcast use vstd::std_specs::vec::axiom_vec_index_decreases;

// --------------------------------------------------------------- encoding

fn put_u32(out: &mut Vec<u8>, x: u32)
    ensures
        final(out)@ == old(out)@ + enc_u32(x as int),
{
    let mut b = crate::bytes::u32_to_be_bytes(x);
    out.append(&mut b);
}

fn put_u128(out: &mut Vec<u8>, x: u128)
    ensures
        final(out)@ == old(out)@ + be_bytes(x as int, 16),
{
    let mut b = crate::bytes::u128_to_be_bytes(x);
    out.append(&mut b);
}

fn put_did(out: &mut Vec<u8>, d: &Did)
    ensures
        final(out)@ == old(out)@ + did_bytes(*d),
{
    let mut b = d.to_bytes();
    out.append(&mut b);
}

fn put_tag(out: &mut Vec<u8>, t: u8)
    ensures
        final(out)@ == old(out)@ + seq![t],
{
    out.push(t);
    proof {
        assert(final(out)@ =~= old(out)@ + seq![t]);
    }
}

fn put_bytes(out: &mut Vec<u8>, b: &Vec<u8>) -> (r: Result<(), Error>)
    ensures
        r is Ok <==> (b@.len() as int) < len_limit(),
        r is Ok ==> final(out)@ == old(out)@ + enc_bytes(b@),
        r is Err ==> *final(out) == *old(out),
{
    if (b.len() as u64) >= 0x100000000u64 {
        return Result::Err(Error::InvalidData);
    }
    put_u32(out, b.len() as u32);
    let mut c = clone_bytes(b);
    out.append(&mut c);
    proof {
        assert(final(out)@ =~= old(out)@ + enc_bytes(b@));
    }
    Result::Ok(())
}

fn put_opt_did(out: &mut Vec<u8>, o: &Option<Did>)
    ensures
        final(out)@ == old(out)@ + enc_opt_did(*o),
{
    match o {
        Option::None => {
            put_tag(out, 0u8);
        },
        Option::Some(d) => {
            put_tag(out, 1u8);
            put_did(out, d);
            proof {
                assert(old(out)@ + seq![1u8] + did_bytes(*d) =~= old(out)@ + (seq![1u8]
                    + did_bytes(*d)));
            }
        },
    }
}

fn method_byte(m: &RelayMethod) -> (r: u8)
    ensures
        r == method_tag(*m),
{
    match m {
        RelayMethod::SEND => 0u8,
        RelayMethod::REPORT => 1u8,
    }
}

fn handler_byte(h: &FindSuccessorThen) -> (r: u8)
    ensures
        r == handler_tag(*h),
{
    match h {
        FindSuccessorThen::SyncSuccessor => 0u8,
        FindSuccessorThen::FixFingerTable => 1u8,
    }
}

fn bool_byte(b: bool) -> (r: u8)
    ensures
        r == bool_tag(b),
{
    if b {
        1u8
    } else {
        0u8
    }
}

/// Append the wire form of a bundle of stored values: count, then each
/// value.
fn put_vnodes(out: &mut Vec<u8>, tag: u8, data: &Vec<VirtualNode>) -> (r: Result<(), Error>)
    ensures
        r is Ok <==> (data@.len() as int) < len_limit() && encodable_vnodes(data.deep_view(), 0),
        r is Ok ==> final(out)@ == old(out)@ + seq![tag] + enc_u32(data@.len() as int)
            + enc_vnodes(data.deep_view(), 0),
{
    let ghost sv = data.deep_view();
    if (data.len() as u64) >= 0x100000000u64 {
        proof {
            assert(!((data@.len() as int) < len_limit()));
        }
        return Result::Err(Error::InvalidData);
    }
    put_tag(out, tag);
    put_u32(out, data.len() as u32);
    let ghost target = old(out)@ + seq![tag] + enc_u32(data@.len() as int) + enc_vnodes(sv, 0);
    proof {
        assert(out@ + enc_vnodes(sv, 0) =~= target);
    }
    let mut i: usize = 0;
    while i < data.len()
        invariant
            i <= data@.len(),
            sv == data.deep_view(),
            sv.len() == data@.len(),
            out@ + enc_vnodes(sv, i as int) == target,
            encodable_vnodes(sv, 0) <==> encodable_vnodes(sv, i as int),
        decreases data@.len() - i,
    {
        let v = &data[i];
        proof {
            assert(sv[i as int] == data[i as int].deep_view());
        }
        if (v.data.len() as u64) >= 0x100000000u64 {
            proof {
                assert(!encodable_vnodes(sv, i as int));
            }
            return Result::Err(Error::InvalidData);
        }
        let ghost before = out@;
        put_did(out, &v.did);
        let res = put_bytes(out, &v.data);
        proof {
            assert(res is Ok);
            assert(out@ =~= before + enc_vnode(sv[i as int]));
            assert(out@ + enc_vnodes(sv, i + 1) =~= before + enc_vnodes(sv, i as int));
        }
        i = i + 1;
    }
    proof {
        assert(enc_vnodes(sv, sv.len() as int) =~= Seq::<u8>::empty());
        assert(out@ =~= target);
    }
    Result::Ok(())
}

/// Append the wire form of a message body.
pub fn encode_message(m: &Message, out: &mut Vec<u8>) -> (r: Result<(), Error>)
    ensures
        r is Ok <==> encodable_msg(m.deep_view()),
        r is Ok ==> final(out)@ == old(out)@ + enc_msg(m.deep_view()),
    decreases *m, 0int,
{
    match m {
        Message::JoinDHT(b) => {
            put_tag(out, 0u8);
            put_did(out, &b.id);
            proof {
                assert(out@ =~= old(out)@ + enc_msg(m.deep_view()));
            }
            Result::Ok(())
        },
        Message::LeaveDHT(b) => {
            put_tag(out, 1u8);
            put_did(out, &b.id);
            proof {
                assert(out@ =~= old(out)@ + enc_msg(m.deep_view()));
            }
            Result::Ok(())
        },
        Message::ConnectNodeSend(b) => {
            if (b.transport_uuid.len() as u64) >= 0x100000000u64 || (b.handshake_info.len() as u64)
                >= 0x100000000u64 {
                return Result::Err(Error::InvalidData);
            }
            put_tag(out, 2u8);
            put_did(out, &b.sender_id);
            put_did(out, &b.target_id);
            let r1 = put_bytes(out, &b.transport_uuid);
            let r2 = put_bytes(out, &b.handshake_info);
            proof {
                assert(r1 is Ok && r2 is Ok);
                assert(out@ =~= old(out)@ + enc_msg(m.deep_view()));
            }
            Result::Ok(())
        },
        Message::ConnectNodeReport(b) => {
            if (b.transport_uuid.len() as u64) >= 0x100000000u64 || (b.handshake_info.len() as u64)
                >= 0x100000000u64 {
                return Result::Err(Error::InvalidData);
            }
            put_tag(out, 3u8);
            put_did(out, &b.answer_id);
            let r1 = put_bytes(out, &b.transport_uuid);
            let r2 = put_bytes(out, &b.handshake_info);
            proof {
                assert(r1 is Ok && r2 is Ok);
                assert(out@ =~= old(out)@ + enc_msg(m.deep_view()));
            }
            Result::Ok(())
        },
        Message::AlreadyConnected(b) => {
            put_tag(out, 4u8);
            put_did(out, &b.answer_id);
            proof {
                assert(out@ =~= old(out)@ + enc_msg(m.deep_view()));
            }
            Result::Ok(())
        },
        Message::FindSuccessorSend(b) => {
            put_tag(out, 5u8);
            put_did(out, &b.id);
            let h = handler_byte(&b.handler);
            put_tag(out, h);
            let s = bool_byte(b.strict);
            put_tag(out, s);
            proof {
                assert(out@ =~= old(out)@ + enc_msg(m.deep_view()));
            }
            Result::Ok(())
        },
        Message::FindSuccessorReport(b) => {
            put_tag(out, 6u8);
            put_did(out, &b.id);
            let h = handler_byte(&b.handler);
            put_tag(out, h);
            proof {
                assert(out@ =~= old(out)@ + enc_msg(m.deep_view()));
            }
            Result::Ok(())
        },
        Message::NotifyPredecessorSend(b) => {
            put_tag(out, 7u8);
            put_did(out, &b.id);
            proof {
                assert(out@ =~= old(out)@ + enc_msg(m.deep_view()));
            }
            Result::Ok(())
        },
        Message::NotifyPredecessorReport(b) => {
            put_tag(out, 8u8);
            put_did(out, &b.id);
            proof {
                assert(out@ =~= old(out)@ + enc_msg(m.deep_view()));
            }
            Result::Ok(())
        },
        Message::SearchVNode(b) => {
            put_tag(out, 9u8);
            put_did(out, &b.id);
            proof {
                assert(out@ =~= old(out)@ + enc_msg(m.deep_view()));
            }
            Result::Ok(())
        },
        Message::FoundVNode(b) => {
            let r = put_vnodes(out, 10u8, &b.data);
            proof {
                if r is Ok {
                    assert(out@ =~= old(out)@ + enc_msg(m.deep_view()));
                }
            }
            r
        },
        Message::StoreVNode(b) => {
            let r = put_vnodes(out, 11u8, &b.data);
            proof {
                if r is Ok {
                    assert(out@ =~= old(out)@ + enc_msg(m.deep_view()));
                }
            }
            r
        },
        Message::SyncVNodeWithSuccessor(b) => {
            let r = put_vnodes(out, 12u8, &b.data);
            proof {
                if r is Ok {
                    assert(out@ =~= old(out)@ + enc_msg(m.deep_view()));
                }
            }
            r
        },
        Message::CustomMessage(b) => {
            if (b.0.len() as u64) >= 0x100000000u64 {
                return Result::Err(Error::InvalidData);
            }
            put_tag(out, 13u8);
            let r1 = put_bytes(out, &b.0);
            proof {
                assert(r1 is Ok);
                assert(out@ =~= old(out)@ + enc_msg(m.deep_view()));
            }
            Result::Ok(())
        },
        Message::MultiCall(b) => {
            proof {
                lemma_messages_view_len(b.messages, b.messages@.len() as int);
            }
            if (b.messages.len() as u64) >= 0x100000000u64 {
                return Result::Err(Error::InvalidData);
            }
            put_tag(out, 14u8);
            put_u32(out, b.messages.len() as u32);
            let res = encode_messages(&b.messages, out);
            proof {
                if res is Ok {
                    assert(out@ =~= old(out)@ + enc_msg(m.deep_view()));
                }
            }
            res
        },
    }
}

/// Append the wire forms of bundled messages, in order.
fn encode_messages(v: &Vec<Message>, out: &mut Vec<u8>) -> (r: Result<(), Error>)
    ensures
        r is Ok <==> encodable_msgs(
            crate::message::messages_view(*v, v@.len() as int),
            0,
        ),
        r is Ok ==> final(out)@ == old(out)@ + enc_msgs(
            crate::message::messages_view(*v, v@.len() as int),
            0,
        ),
    decreases *v, 1int,
{
    let ghost sv = crate::message::messages_view(*v, v@.len() as int);
    proof {
        lemma_messages_view_len(*v, v@.len() as int);
    }
    let ghost target = old(out)@ + enc_msgs(sv, 0);
    proof {
        assert(out@ + enc_msgs(sv, 0) =~= target);
    }
    let mut i: usize = 0;
    while i < v.len()
        invariant
            i <= v@.len(),
            sv == crate::message::messages_view(*v, v@.len() as int),
            sv.len() == v@.len(),
            out@ + enc_msgs(sv, i as int) == target,
            encodable_msgs(sv, 0) <==> encodable_msgs(sv, i as int),
        decreases v@.len() - i,
    {
        proof {
            lemma_messages_view_index(*v, v@.len() as int, i as int);
        }
        let ghost before = out@;
        let res = encode_message(&v[i], out);
        match res {
            Result::Err(e) => {
                proof {
                    assert(!encodable_msg(sv[i as int]));
                    assert(!encodable_msgs(sv, i as int));
                }
                return Result::Err(e);
            },
            Result::Ok(_) => {
                proof {
                    assert(out@ =~= before + enc_msg(sv[i as int]));
                    assert(out@ + enc_msgs(sv, i + 1) =~= before + enc_msgs(sv, i as int));
                }
            },
        }
        i = i + 1;
    }
    proof {
        assert(enc_msgs(sv, sv.len() as int) =~= Seq::<u8>::empty());
        assert(out@ =~= target);
    }
    Result::Ok(())
}

/// Append the wire form of a relay header.
pub fn encode_relay(r: &MessageRelay, out: &mut Vec<u8>) -> (res: Result<(), Error>)
    ensures
        res is Ok <==> encodable_relay(r@),
        res is Ok ==> final(out)@ == old(out)@ + enc_relay(r@),
{
    if (r.path.len() as u64) >= 0x100000000u64 || (r.path_end_cursor as u64) >= 0x100000000u64 {
        return Result::Err(Error::InvalidData);
    }
    let mb = method_byte(&r.method);
    put_tag(out, mb);
    put_u32(out, r.path.len() as u32);
    let ghost target_mid = old(out)@ + seq![method_tag(r.method)] + enc_u32(r.path@.len() as int)
        + enc_dids(r.path@, 0);
    proof {
        assert(out@ + enc_dids(r.path@, 0) =~= target_mid);
    }
    let mut i: usize = 0;
    while i < r.path.len()
        invariant
            i <= r.path@.len(),
            out@ + enc_dids(r.path@, i as int) == target_mid,
        decreases r.path@.len() - i,
    {
        let ghost before = out@;
        put_did(out, &r.path[i]);
        proof {
            assert(out@ + enc_dids(r.path@, i + 1) =~= before + enc_dids(r.path@, i as int));
        }
        i = i + 1;
    }
    proof {
        assert(enc_dids(r.path@, r.path@.len() as int) =~= Seq::<u8>::empty());
        assert(out@ =~= target_mid);
    }
    put_u32(out, r.path_end_cursor as u32);
    put_opt_did(out, &r.next_hop);
    put_did(out, &r.destination);
    proof {
        assert(out@ =~= old(out)@ + enc_relay(r@));
    }
    Result::Ok(())
}

/// Append the wire form of a verification.
pub fn encode_verification(v: &MessageVerification, out: &mut Vec<u8>) -> (res: Result<(), Error>)
    ensures
        res is Ok <==> encodable_verification(v@),
        res is Ok ==> final(out)@ == old(out)@ + enc_verification(v@),
{
    if (v.signature.len() as u64) >= 0x100000000u64 || (v.pubkey.len() as u64) >= 0x100000000u64 {
        return Result::Err(Error::InvalidData);
    }
    let r1 = put_bytes(out, &v.signature);
    let r2 = put_bytes(out, &v.pubkey);
    proof {
        assert(r1 is Ok && r2 is Ok);
        assert(out@ =~= old(out)@ + enc_verification(v@));
    }
    Result::Ok(())
}

/// The bytes both signatures cover: the message body, the relay header,
/// then the transaction id.
pub open spec fn signing_input_spec(m: MessageView, relay: crate::message::RelayView, tx_id: u128) -> Seq<
    u8,
> {
    enc_msg(m) + enc_relay(relay) + be_bytes(tx_id as int, 16)
}

/// Render the signable bytes of a payload-to-be. Fails exactly when the
/// body or header does not fit the wire format.
pub fn signing_input(m: &Message, relay: &MessageRelay, tx_id: u128) -> (r: Result<Vec<u8>, Error>)
    ensures
        r is Ok <==> encodable_msg(m.deep_view()) && encodable_relay(relay@),
        r matches Ok(b) ==> b@ == signing_input_spec(m.deep_view(), relay@, tx_id),
{
    let mut out: Vec<u8> = Vec::new();
    let r1 = encode_message(m, &mut out);
    if let Result::Err(e) = r1 {
        return Result::Err(e);
    }
    let r2 = encode_relay(relay, &mut out);
    if let Result::Err(e) = r2 {
        return Result::Err(e);
    }
    put_u128(&mut out, tx_id);
    proof {
        assert(out@ =~= signing_input_spec(m.deep_view(), relay@, tx_id));
    }
    Result::Ok(out)
}

impl MessagePayload {
    /// The immediate sender's identifier, derived from the hop
    /// verification's public key.
    pub fn addr(&self) -> (r: Option<Did>)
        ensures
            r is Some <==> self.verification.pubkey@.len() == 65,
            r matches Some(d) ==> d == crate::crypto::did_of_pubkey(self.verification.pubkey@),
    {
        crate::crypto::did_from_pubkey(self.verification.pubkey.as_slice())
    }

    /// Whether both signatures verify over the signable bytes: the origin
    /// signature, stable across hops, and the latest hop's. Fails exactly
    /// when the payload cannot be rendered signable or either signature
    /// or key does not parse.
    pub fn verify(&self) -> (r: Result<bool, Error>)
        ensures
            ({
                let input = signing_input_spec(self.data.deep_view(), self.relay@, self.tx_id);
                let digest = crate::crypto::keccak256_of(input);
                &&& (r is Ok <==> {
                    &&& encodable_msg(self.data.deep_view())
                    &&& encodable_relay(self.relay@)
                    &&& crate::crypto::secp_sig_ok(self.origin_verification.signature@)
                    &&& crate::crypto::secp_pubkey_ok(self.origin_verification.pubkey@)
                    &&& crate::crypto::secp_sig_ok(self.verification.signature@)
                    &&& crate::crypto::secp_pubkey_ok(self.verification.pubkey@)
                })
                &&& (r matches Ok(b) ==> b == (crate::crypto::secp_verify_ok(
                    digest,
                    self.origin_verification.signature@,
                    self.origin_verification.pubkey@,
                ) && crate::crypto::secp_verify_ok(
                    digest,
                    self.verification.signature@,
                    self.verification.pubkey@,
                )))
                &&& (r is Err ==> r == Result::<bool, Error>::Err(Error::InvalidPayload))
            }),
    {
        let input = match signing_input(&self.data, &self.relay, self.tx_id) {
            Result::Ok(b) => b,
            Result::Err(_) => {
                return Result::Err(Error::InvalidPayload);
            },
        };
        let digest = crate::crypto::keccak256(input.as_slice());
        let origin_ok = match crate::crypto::secp_verify(
            digest.as_slice(),
            self.origin_verification.signature.as_slice(),
            self.origin_verification.pubkey.as_slice(),
        ) {
            Option::Some(b) => b,
            Option::None => {
                return Result::Err(Error::InvalidPayload);
            },
        };
        let hop_ok = match crate::crypto::secp_verify(
            digest.as_slice(),
            self.verification.signature.as_slice(),
            self.verification.pubkey.as_slice(),
        ) {
            Option::Some(b) => b,
            Option::None => {
                return Result::Err(Error::InvalidPayload);
            },
        };
        Result::Ok(origin_ok && hop_ok)
    }
}

// --------------------------------------------------------------- decoding

/// Read a 32-bit count at `pos`.
fn take_u32(s: &[u8], pos: usize) -> (r: Result<(u32, usize), Error>)
    requires
        pos <= s@.len(),
    ensures
        r is Ok <==> dec_u32(s@.skip(pos as int)) is Some,
        r matches Ok((x, p2)) ==> dec_u32(s@.skip(pos as int)) == Option::Some(
            (x as int, s@.skip(p2 as int)),
        ) && pos < p2 <= s@.len(),
{
    if s.len() - pos < 4 {
        return Result::Err(Error::InvalidPayload);
    }
    let piece = vstd::slice::slice_subrange(s, pos, pos + 4);
    let x = crate::bytes::u32_from_be_bytes(piece);
    proof {
        assert(s@.skip(pos as int).take(4) =~= s@.subrange(pos as int, pos + 4));
        assert(s@.skip(pos as int).skip(4) =~= s@.skip(pos + 4));
    }
    Result::Ok((x, pos + 4))
}

/// Read an identifier at `pos`.
fn take_did(s: &[u8], pos: usize) -> (r: Result<(Did, usize), Error>)
    requires
        pos <= s@.len(),
    ensures
        r is Ok <==> dec_did(s@.skip(pos as int)) is Some,
        r matches Ok((d, p2)) ==> dec_did(s@.skip(pos as int)) == Option::Some(
            (d, s@.skip(p2 as int)),
        ) && pos < p2 <= s@.len(),
{
    if s.len() - pos < 20 {
        return Result::Err(Error::InvalidPayload);
    }
    let piece = vstd::slice::slice_subrange(s, pos, pos + 20);
    let d = Did::from_bytes(piece);
    proof {
        assert(s@.skip(pos as int).take(20) =~= s@.subrange(pos as int, pos + 20));
        assert(s@.skip(pos as int).skip(20) =~= s@.skip(pos + 20));
    }
    Result::Ok((d, pos + 20))
}

/// Read a length-prefixed byte string at `pos`.
fn take_bytes(s: &[u8], pos: usize) -> (r: Result<(Vec<u8>, usize), Error>)
    requires
        pos <= s@.len(),
    ensures
        r is Ok <==> dec_bytes(s@.skip(pos as int)) is Some,
        r matches Ok((b, p2)) ==> dec_bytes(s@.skip(pos as int)) == Option::Some(
            (b@, s@.skip(p2 as int)),
        ) && pos < p2 <= s@.len(),
{
    let (n, p1) = match take_u32(s, pos) {
        Result::Err(e) => {
            return Result::Err(e);
        },
        Result::Ok(v) => v,
    };
    if s.len() - p1 < n as usize {
        proof {
            assert(s@.skip(p1 as int).len() < n as int);
        }
        return Result::Err(Error::InvalidPayload);
    }
    let piece = vstd::slice::slice_subrange(s, p1, p1 + n as usize);
    let b = vstd::slice::slice_to_vec(piece);
    proof {
        assert(s@.skip(p1 as int).take(n as int) =~= s@.subrange(p1 as int, p1 + n as usize));
        assert(s@.skip(p1 as int).skip(n as int) =~= s@.skip(p1 + n as usize));
    }
    Result::Ok((b, p1 + n as usize))
}

/// Read an optional identifier at `pos`.
fn take_opt_did(s: &[u8], pos: usize) -> (r: Result<(Option<Did>, usize), Error>)
    requires
        pos <= s@.len(),
    ensures
        r is Ok <==> dec_opt_did(s@.skip(pos as int)) is Some,
        r matches Ok((o, p2)) ==> dec_opt_did(s@.skip(pos as int)) == Option::Some(
            (o, s@.skip(p2 as int)),
        ) && pos < p2 <= s@.len(),
{
    if s.len() - pos < 1 {
        return Result::Err(Error::InvalidPayload);
    }
    let tag = s[pos];
    proof {
        assert(s@.skip(pos as int)[0] == s@[pos as int]);
        assert(s@.skip(pos as int).skip(1) =~= s@.skip(pos + 1));
    }
    if tag == 0u8 {
        Result::Ok((Option::None, pos + 1))
    } else if tag == 1u8 {
        match take_did(s, pos + 1) {
            Result::Err(e) => Result::Err(e),
            Result::Ok((d, p2)) => Result::Ok((Option::Some(d), p2)),
        }
    } else {
        Result::Err(Error::InvalidPayload)
    }
}

/// Read a relay-method tag at `pos`.
fn take_method(s: &[u8], pos: usize) -> (r: Result<(RelayMethod, usize), Error>)
    requires
        pos <= s@.len(),
    ensures
        r is Ok <==> dec_method(s@.skip(pos as int)) is Some,
        r matches Ok((m, p2)) ==> dec_method(s@.skip(pos as int)) == Option::Some(
            (m, s@.skip(p2 as int)),
        ) && pos < p2 <= s@.len(),
{
    if s.len() - pos < 1 {
        return Result::Err(Error::InvalidPayload);
    }
    let tag = s[pos];
    proof {
        assert(s@.skip(pos as int)[0] == s@[pos as int]);
        assert(s@.skip(pos as int).skip(1) =~= s@.skip(pos + 1));
    }
    if tag == 0u8 {
        Result::Ok((RelayMethod::SEND, pos + 1))
    } else if tag == 1u8 {
        Result::Ok((RelayMethod::REPORT, pos + 1))
    } else {
        Result::Err(Error::InvalidPayload)
    }
}

/// Read a handler tag at `pos`.
fn take_handler(s: &[u8], pos: usize) -> (r: Result<(FindSuccessorThen, usize), Error>)
    requires
        pos <= s@.len(),
    ensures
        r is Ok <==> dec_handler(s@.skip(pos as int)) is Some,
        r matches Ok((h, p2)) ==> dec_handler(s@.skip(pos as int)) == Option::Some(
            (h, s@.skip(p2 as int)),
        ) && pos < p2 <= s@.len(),
{
    if s.len() - pos < 1 {
        return Result::Err(Error::InvalidPayload);
    }
    let tag = s[pos];
    proof {
        assert(s@.skip(pos as int)[0] == s@[pos as int]);
        assert(s@.skip(pos as int).skip(1) =~= s@.skip(pos + 1));
    }
    if tag == 0u8 {
        Result::Ok((FindSuccessorThen::SyncSuccessor, pos + 1))
    } else if tag == 1u8 {
        Result::Ok((FindSuccessorThen::FixFingerTable, pos + 1))
    } else {
        Result::Err(Error::InvalidPayload)
    }
}

/// Read a boolean tag at `pos`.
fn take_bool(s: &[u8], pos: usize) -> (r: Result<(bool, usize), Error>)
    requires
        pos <= s@.len(),
    ensures
        r is Ok <==> dec_bool(s@.skip(pos as int)) is Some,
        r matches Ok((b, p2)) ==> dec_bool(s@.skip(pos as int)) == Option::Some(
            (b, s@.skip(p2 as int)),
        ) && pos < p2 <= s@.len(),
{
    if s.len() - pos < 1 {
        return Result::Err(Error::InvalidPayload);
    }
    let tag = s[pos];
    proof {
        assert(s@.skip(pos as int)[0] == s@[pos as int]);
        assert(s@.skip(pos as int).skip(1) =~= s@.skip(pos + 1));
    }
    if tag == 0u8 {
        Result::Ok((false, pos + 1))
    } else if tag == 1u8 {
        Result::Ok((true, pos + 1))
    } else {
        Result::Err(Error::InvalidPayload)
    }
}

/// Read `n` identifiers at `pos`.
fn take_dids(s: &[u8], pos: usize, n: u32) -> (r: Result<(Vec<Did>, usize), Error>)
    requires
        pos <= s@.len(),
    ensures
        r is Ok <==> dec_dids(s@.skip(pos as int), n as int) is Some,
        r matches Ok((v, p2)) ==> dec_dids(s@.skip(pos as int), n as int) == Option::Some(
            (v@, s@.skip(p2 as int)),
        ) && pos <= p2 <= s@.len(),
{
    let mut out: Vec<Did> = Vec::new();
    let mut cur: usize = pos;
    let mut i: u32 = 0;
    proof {
        assert(out@ =~= Seq::<Did>::empty());
    }
    while i < n
        invariant
            pos <= cur <= s@.len(),
            i <= n,
            out@.len() == i as int,
            ({
                let full = dec_dids(s@.skip(pos as int), n as int);
                let tail = dec_dids(s@.skip(cur as int), n - i);
                match tail {
                    Option::Some(pair) => full == Option::Some(
                        (out@ + pair.0, pair.1),
                    ),
                    Option::None => full is None,
                }
            }),
        decreases n - i,
    {
        match take_did(s, cur) {
            Result::Err(e) => {
                return Result::Err(e);
            },
            Result::Ok((d, p2)) => {
                out.push(d);
                proof {
                    assert(out@ =~= out@.subrange(0, out@.len() - 1).push(d));
                    assert(forall|q: (Seq<Did>, Seq<u8>)|
                        (out@.subrange(0, out@.len() - 1) + (seq![d] + q.0)) =~= (out@ + q.0));
                }
                cur = p2;
                i = i + 1;
            },
        }
    }
    Result::Ok((out, cur))
}

/// Read a relay header at `pos`.
fn take_relay(s: &[u8], pos: usize) -> (r: Result<(MessageRelay, usize), Error>)
    requires
        pos <= s@.len(),
    ensures
        r is Ok <==> dec_relay(s@.skip(pos as int)) is Some,
        r matches Ok((rel, p2)) ==> dec_relay(s@.skip(pos as int)) == Option::Some(
            (rel@, s@.skip(p2 as int)),
        ) && pos <= p2 <= s@.len(),
{
    let (method, p1) = match take_method(s, pos) {
        Result::Err(e) => {
            return Result::Err(e);
        },
        Result::Ok(v) => v,
    };
    let (n, p2) = match take_u32(s, p1) {
        Result::Err(e) => {
            return Result::Err(e);
        },
        Result::Ok(v) => v,
    };
    let (path, p3) = match take_dids(s, p2, n) {
        Result::Err(e) => {
            return Result::Err(e);
        },
        Result::Ok(v) => v,
    };
    let (cursor, p4) = match take_u32(s, p3) {
        Result::Err(e) => {
            return Result::Err(e);
        },
        Result::Ok(v) => v,
    };
    let (next_hop, p5) = match take_opt_did(s, p4) {
        Result::Err(e) => {
            return Result::Err(e);
        },
        Result::Ok(v) => v,
    };
    let (destination, p6) = match take_did(s, p5) {
        Result::Err(e) => {
            return Result::Err(e);
        },
        Result::Ok(v) => v,
    };
    let rel = MessageRelay {
        method,
        path,
        path_end_cursor: cursor as usize,
        next_hop,
        destination,
    };
    Result::Ok((rel, p6))
}

/// Read a verification at `pos`.
fn take_verification(s: &[u8], pos: usize) -> (r: Result<(MessageVerification, usize), Error>)
    requires
        pos <= s@.len(),
    ensures
        r is Ok <==> dec_verification(s@.skip(pos as int)) is Some,
        r matches Ok((v, p2)) ==> dec_verification(s@.skip(pos as int)) == Option::Some(
            (v@, s@.skip(p2 as int)),
        ) && pos < p2 <= s@.len(),
{
    let (signature, p1) = match take_bytes(s, pos) {
        Result::Err(e) => {
            return Result::Err(e);
        },
        Result::Ok(v) => v,
    };
    let (pubkey, p2) = match take_bytes(s, p1) {
        Result::Err(e) => {
            return Result::Err(e);
        },
        Result::Ok(v) => v,
    };
    Result::Ok((MessageVerification { signature, pubkey }, p2))
}

/// Read `n` stored values at `pos`.
fn take_vnodes(s: &[u8], pos: usize, n: u32) -> (r: Result<(Vec<VirtualNode>, usize), Error>)
    requires
        pos <= s@.len(),
    ensures
        r is Ok <==> dec_vnodes(s@.skip(pos as int), n as int) is Some,
        r matches Ok((v, p2)) ==> dec_vnodes(s@.skip(pos as int), n as int) == Option::Some(
            (v.deep_view(), s@.skip(p2 as int)),
        ) && pos <= p2 <= s@.len(),
{
    let mut out: Vec<VirtualNode> = Vec::new();
    let mut cur: usize = pos;
    let mut i: u32 = 0;
    proof {
        assert(out.deep_view() =~= Seq::<crate::message::VirtualNodeView>::empty());
    }
    while i < n
        invariant
            pos <= cur <= s@.len(),
            i <= n,
            out.deep_view().len() == i as int,
            ({
                let full = dec_vnodes(s@.skip(pos as int), n as int);
                let tail = dec_vnodes(s@.skip(cur as int), n - i);
                match tail {
                    Option::Some(pair) => full == Option::Some(
                        (out.deep_view() + pair.0, pair.1),
                    ),
                    Option::None => full is None,
                }
            }),
        decreases n - i,
    {
        let (did, p1) = match take_did(s, cur) {
            Result::Err(e) => {
                return Result::Err(e);
            },
            Result::Ok(v) => v,
        };
        let (data, p2) = match take_bytes(s, p1) {
            Result::Err(e) => {
                return Result::Err(e);
            },
            Result::Ok(v) => v,
        };
        let ghost before = out.deep_view();
        let vn = VirtualNode { did, data };
        let ghost vv = vn.deep_view();
        out.push(vn);
        proof {
            assert(out.deep_view() =~= before.push(vv));
            assert(forall|q: (Seq<crate::message::VirtualNodeView>, Seq<u8>)|
                (before + (seq![vv] + q.0)) =~= (out.deep_view() + q.0));
        }
        cur = p2;
        i = i + 1;
    }
    Result::Ok((out, cur))
}

/// Read a message body at `pos`.
#[verifier::rlimit(100)]
#[verifier::spinoff_prover]
pub fn take_message(s: &[u8], pos: usize) -> (r: Result<(Message, usize), Error>)
    requires
        pos <= s@.len(),
    ensures
        r is Ok <==> dec_msg(s@.skip(pos as int)) is Some,
        r matches Ok((m, p2)) ==> dec_msg(s@.skip(pos as int)) == Option::Some(
            (m.deep_view(), s@.skip(p2 as int)),
        ) && pos < p2 <= s@.len(),
    decreases s@.len() - pos, 0int,
{
    if s.len() - pos < 1 {
        return Result::Err(Error::InvalidPayload);
    }
    let tag = s[pos];
    let p0 = pos + 1;
    proof {
        assert(s@.skip(pos as int)[0] == s@[pos as int]);
        assert(s@.skip(pos as int).skip(1) =~= s@.skip(pos + 1));
    }
    if tag == 0u8 {
        match take_did(s, p0) {
            Result::Err(e) => Result::Err(e),
            Result::Ok((id, p1)) => Result::Ok(
                (Message::JoinDHT(crate::message::JoinDHT { id }), p1),
            ),
        }
    } else if tag == 1u8 {
        match take_did(s, p0) {
            Result::Err(e) => Result::Err(e),
            Result::Ok((id, p1)) => Result::Ok(
                (Message::LeaveDHT(crate::message::LeaveDHT { id }), p1),
            ),
        }
    } else if tag == 2u8 {
        let (sender_id, p1) = match take_did(s, p0) {
            Result::Err(e) => {
                return Result::Err(e);
            },
            Result::Ok(v) => v,
        };
        let (target_id, p2) = match take_did(s, p1) {
            Result::Err(e) => {
                return Result::Err(e);
            },
            Result::Ok(v) => v,
        };
        let (transport_uuid, p3) = match take_bytes(s, p2) {
            Result::Err(e) => {
                return Result::Err(e);
            },
            Result::Ok(v) => v,
        };
        let (handshake_info, p4) = match take_bytes(s, p3) {
            Result::Err(e) => {
                return Result::Err(e);
            },
            Result::Ok(v) => v,
        };
        Result::Ok(
            (
                Message::ConnectNodeSend(
                    crate::message::ConnectNodeSend {
                        sender_id,
                        target_id,
                        transport_uuid,
                        handshake_info,
                    },
                ),
                p4,
            ),
        )
    } else if tag == 3u8 {
        let (answer_id, p1) = match take_did(s, p0) {
            Result::Err(e) => {
                return Result::Err(e);
            },
            Result::Ok(v) => v,
        };
        let (transport_uuid, p2) = match take_bytes(s, p1) {
            Result::Err(e) => {
                return Result::Err(e);
            },
            Result::Ok(v) => v,
        };
        let (handshake_info, p3) = match take_bytes(s, p2) {
            Result::Err(e) => {
                return Result::Err(e);
            },
            Result::Ok(v) => v,
        };
        Result::Ok(
            (
                Message::ConnectNodeReport(
                    crate::message::ConnectNodeReport { answer_id, transport_uuid, handshake_info },
                ),
                p3,
            ),
        )
    } else if tag == 4u8 {
        match take_did(s, p0) {
            Result::Err(e) => Result::Err(e),
            Result::Ok((answer_id, p1)) => Result::Ok(
                (Message::AlreadyConnected(crate::message::AlreadyConnected { answer_id }), p1),
            ),
        }
    } else if tag == 5u8 {
        let (id, p1) = match take_did(s, p0) {
            Result::Err(e) => {
                return Result::Err(e);
            },
            Result::Ok(v) => v,
        };
        let (handler, p2) = match take_handler(s, p1) {
            Result::Err(e) => {
                return Result::Err(e);
            },
            Result::Ok(v) => v,
        };
        let (strict, p3) = match take_bool(s, p2) {
            Result::Err(e) => {
                return Result::Err(e);
            },
            Result::Ok(v) => v,
        };
        Result::Ok(
            (
                Message::FindSuccessorSend(
                    crate::message::FindSuccessorSend { id, handler, strict },
                ),
                p3,
            ),
        )
    } else if tag == 6u8 {
        let (id, p1) = match take_did(s, p0) {
            Result::Err(e) => {
                return Result::Err(e);
            },
            Result::Ok(v) => v,
        };
        let (handler, p2) = match take_handler(s, p1) {
            Result::Err(e) => {
                return Result::Err(e);
            },
            Result::Ok(v) => v,
        };
        Result::Ok(
            (Message::FindSuccessorReport(crate::message::FindSuccessorReport { id, handler }), p2),
        )
    } else if tag == 7u8 {
        match take_did(s, p0) {
            Result::Err(e) => Result::Err(e),
            Result::Ok((id, p1)) => Result::Ok(
                (Message::NotifyPredecessorSend(crate::message::NotifyPredecessorSend { id }), p1),
            ),
        }
    } else if tag == 8u8 {
        match take_did(s, p0) {
            Result::Err(e) => Result::Err(e),
            Result::Ok((id, p1)) => Result::Ok(
                (
                    Message::NotifyPredecessorReport(
                        crate::message::NotifyPredecessorReport { id },
                    ),
                    p1,
                ),
            ),
        }
    } else if tag == 9u8 {
        match take_did(s, p0) {
            Result::Err(e) => Result::Err(e),
            Result::Ok((id, p1)) => Result::Ok(
                (Message::SearchVNode(crate::message::SearchVNode { id }), p1),
            ),
        }
    } else if tag == 10u8 {
        let (n, p1) = match take_u32(s, p0) {
            Result::Err(e) => {
                return Result::Err(e);
            },
            Result::Ok(v) => v,
        };
        match take_vnodes(s, p1, n) {
            Result::Err(e) => Result::Err(e),
            Result::Ok((data, p2)) => Result::Ok(
                (Message::FoundVNode(crate::message::FoundVNode { data }), p2),
            ),
        }
    } else if tag == 11u8 {
        let (n, p1) = match take_u32(s, p0) {
            Result::Err(e) => {
                return Result::Err(e);
            },
            Result::Ok(v) => v,
        };
        match take_vnodes(s, p1, n) {
            Result::Err(e) => Result::Err(e),
            Result::Ok((data, p2)) => Result::Ok(
                (Message::StoreVNode(crate::message::StoreVNode { data }), p2),
            ),
        }
    } else if tag == 12u8 {
        let (n, p1) = match take_u32(s, p0) {
            Result::Err(e) => {
                return Result::Err(e);
            },
            Result::Ok(v) => v,
        };
        match take_vnodes(s, p1, n) {
            Result::Err(e) => Result::Err(e),
            Result::Ok((data, p2)) => Result::Ok(
                (
                    Message::SyncVNodeWithSuccessor(
                        crate::message::SyncVNodeWithSuccessor { data },
                    ),
                    p2,
                ),
            ),
        }
    } else if tag == 13u8 {
        match take_bytes(s, p0) {
            Result::Err(e) => Result::Err(e),
            Result::Ok((data, p1)) => Result::Ok(
                (Message::CustomMessage(crate::message::CustomMessage(data)), p1),
            ),
        }
    } else if tag == 14u8 {
        let (n, p1) = match take_u32(s, p0) {
            Result::Err(e) => {
                return Result::Err(e);
            },
            Result::Ok(v) => v,
        };
        match take_messages(s, p1, n) {
            Result::Err(e) => Result::Err(e),
            Result::Ok((messages, p2)) => {
                let m = Message::MultiCall(crate::message::MultiCall { messages });
                Result::Ok((m, p2))
            },
        }
    } else {
        Result::Err(Error::InvalidPayload)
    }
}

/// Read `n` bundled messages at `pos`.
fn take_messages(s: &[u8], pos: usize, n: u32) -> (r: Result<(Vec<Message>, usize), Error>)
    requires
        pos <= s@.len(),
    ensures
        r is Ok <==> dec_msgs(s@.skip(pos as int), n as int) is Some,
        r matches Ok((v, p2)) ==> dec_msgs(s@.skip(pos as int), n as int) == Option::Some(
            (crate::message::messages_view(v, v@.len() as int), s@.skip(p2 as int)),
        ) && v@.len() == n && pos <= p2 <= s@.len(),
    decreases s@.len() - pos, 1int,
{
    let mut out: Vec<Message> = Vec::new();
    let mut cur: usize = pos;
    let mut i: u32 = 0;
    let ghost mut prefix: Seq<MessageView> = Seq::empty();
    proof {
        assert(prefix =~= crate::message::messages_view(out, out@.len() as int));
    }
    while i < n
        invariant
            pos <= cur <= s@.len(),
            i <= n,
            out@.len() == i as int,
            prefix == crate::message::messages_view(out, out@.len() as int),
            prefix.len() == i as int,
            ({
                let full = dec_msgs(s@.skip(pos as int), n as int);
                let tail = dec_msgs(s@.skip(cur as int), n - i);
                match tail {
                    Option::Some(pair) => full == Option::Some((prefix + pair.0, pair.1)),
                    Option::None => full is None,
                }
            }),
        decreases n - i,
    {
        match take_message(s, cur) {
            Result::Err(e) => {
                return Result::Err(e);
            },
            Result::Ok((m, p2)) => {
                let ghost mv = m.deep_view();
                let ghost before = out;
                out.push(m);
                proof {
                    lemma_messages_view_len(before, before@.len() as int);
                    crate::message::lemma_messages_view_agree(
                        out,
                        before,
                        before@.len() as int,
                    );
                    assert(out[out@.len() - 1] == m);
                    assert(crate::message::messages_view(out, out@.len() as int) == prefix.push(
                        mv,
                    ));
                    assert(s@.skip(cur as int).len() > s@.skip(p2 as int).len());
                    assert(forall|q: (Seq<MessageView>, Seq<u8>)|
                        (prefix + (seq![mv] + q.0)) =~= (prefix.push(mv) + q.0));
                    prefix = prefix.push(mv);
                }
                cur = p2;
                i = i + 1;
            },
        }
    }
    proof {
        lemma_messages_view_len(out, out@.len() as int);
    }
    Result::Ok((out, cur))
}

/// Parse a payload from its wire form. Succeeds exactly on byte strings
/// that are one whole well-formed payload, and returns that payload.
pub fn decode(s: &[u8]) -> (r: Result<MessagePayload, Error>)
    ensures
        r is Ok <==> decode_payload(s@) is Some,
        r matches Ok(p) ==> decode_payload(s@) == Option::Some(p@),
{
    if s.len() < 16 {
        return Result::Err(Error::InvalidPayload);
    }
    let head = vstd::slice::slice_subrange(s, 0, 16);
    let tx_id = crate::bytes::u128_from_be_bytes(head);
    proof {
        assert(s@.take(16) =~= s@.subrange(0, 16));
        assert(s@.skip(0) =~= s@);
        crate::bytes::lemma_bytes_val_bound(s@.take(16));
        crate::bytes::lemma_pow256_16();
    }
    let (origin_verification, p1) = match take_verification(s, 16) {
        Result::Err(e) => {
            return Result::Err(e);
        },
        Result::Ok(v) => v,
    };
    let (verification, p2) = match take_verification(s, p1) {
        Result::Err(e) => {
            return Result::Err(e);
        },
        Result::Ok(v) => v,
    };
    let (relay, p3) = match take_relay(s, p2) {
        Result::Err(e) => {
            return Result::Err(e);
        },
        Result::Ok(v) => v,
    };
    let (data, p4) = match take_message(s, p3) {
        Result::Err(e) => {
            return Result::Err(e);
        },
        Result::Ok(v) => v,
    };
    if p4 != s.len() {
        proof {
            assert(s@.skip(p4 as int).len() > 0);
        }
        return Result::Err(Error::InvalidPayload);
    }
    proof {
        assert(s@.skip(p4 as int).len() == 0);
    }
    Result::Ok(MessagePayload { tx_id, data, origin_verification, verification, relay })
}

/// Serialize a payload to its wire form. Fails exactly when some count or
/// length in it does not fit a 32-bit prefix.
pub fn encode(p: &MessagePayload) -> (r: Result<Vec<u8>, Error>)
    ensures
        r is Ok <==> encodable_payload(p@),
        r matches Ok(b) ==> b@ == enc_payload(p@),
{
    let mut out: Vec<u8> = Vec::new();
    put_u128(&mut out, p.tx_id);
    let r1 = encode_verification(&p.origin_verification, &mut out);
    if let Result::Err(e) = r1 {
        return Result::Err(e);
    }
    let r2 = encode_verification(&p.verification, &mut out);
    if let Result::Err(e) = r2 {
        return Result::Err(e);
    }
    let r3 = encode_relay(&p.relay, &mut out);
    if let Result::Err(e) = r3 {
        return Result::Err(e);
    }
    let r4 = encode_message(&p.data, &mut out);
    if let Result::Err(e) = r4 {
        return Result::Err(e);
    }
    proof {
        assert(out@ =~= enc_payload(p@));
    }
    Result::Ok(out)
}

} // verus!
