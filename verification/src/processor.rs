//! The processor: the node core an embedding server or browser drives.
//!
//! It owns the verified dispatcher and the stabilizer; connecting,
//! listening and storage I/O live in the shell, which feeds decoded
//! payloads in and carries effects out.

use crate::crypto::b64_decoding;
use crate::crypto::base64_chars_of;
use crate::crypto::base64_encode;
use crate::crypto::did_of_pubkey;
use crate::crypto::keccak256;
use crate::crypto::keccak256_of;
use crate::crypto::secp_pubkey_of;
use crate::crypto::secp_pubkey_ok;
use crate::crypto::secp_seckey_ok;
use crate::crypto::secp_sig_ok;
use crate::crypto::secp_sign;
use crate::crypto::secp_signature_of;
use crate::crypto::secp_verify;
use crate::crypto::secp_verify_ok;
use crate::crypto::PublicKey;
use crate::crypto::SecretKey;
use crate::did::did_bytes;
use crate::did::Did;
use crate::error::Error;
use crate::handlers::MessageHandler;
use crate::message::CustomMessage;
use crate::stabilization::Stabilization;
use vstd::prelude::*;

verus! {

/// How a wallet signs the session authorization.
#[derive(Clone, Copy, Debug, PartialEq, Eq, Structural)]
pub enum AddressType {
    /// A plain hexadecimal wallet address.
    DEFAULT,
    /// A base58 ed25519 wallet public key.
    ED25519,
}

/// The node core behind the server and browser facades.
#[derive(Debug)]
pub struct Processor {
    /// The verified dispatcher: ring state and transport model.
    pub handler: MessageHandler,
    /// The stabilizer's tick configuration.
    pub stabilization: Stabilization,
}

/// Lowercase hexadecimal ASCII of a byte string, two digits per byte.
pub open spec fn hex_ascii_of_bytes(s: Seq<u8>) -> Seq<u8>
    decreases s.len(),
{
    if s.len() == 0 {
        Seq::empty()
    } else {
        hex_ascii_of_bytes(s.drop_last()) + seq![
            hex_ascii_digit(s.last() / 16),
            hex_ascii_digit(s.last() % 16),
        ]
    }
}

/// The ASCII code of a lowercase hexadecimal digit.
pub open spec fn hex_ascii_digit(v: u8) -> u8 {
    if v < 10 {
        (48 + v) as u8
    } else {
        (87 + v) as u8
    }
}

/// The text a wallet signs to authorize a node: a fixed prefix naming the
/// node software, then the bare lowercase hexadecimal address.
pub open spec fn auth_message(d: Did) -> Seq<u8> {
    seq![
        114u8,
        105u8,
        110u8,
        103u8,
        115u8,
        45u8,
        110u8,
        111u8,
        100u8,
        101u8,
        58u8,
        32u8,
    ] + hex_ascii_of_bytes(did_bytes(d))
}

/// Render the signable authorization text of an identifier.
pub fn auth_message_bytes(d: &Did) -> (r: Vec<u8>)
    ensures
        r@ == auth_message(*d),
{
    let mut out: Vec<u8> = Vec::new();
    out.push(114u8);
    out.push(105u8);
    out.push(110u8);
    out.push(103u8);
    out.push(115u8);
    out.push(45u8);
    out.push(110u8);
    out.push(111u8);
    out.push(100u8);
    out.push(101u8);
    out.push(58u8);
    out.push(32u8);
    let ghost prefix = out@;
    let bytes = d.to_bytes();
    let ghost bs = bytes@;
    let mut i: usize = 0;
    proof {
        assert(bs.subrange(0, 0) =~= Seq::<u8>::empty());
        assert(out@ =~= prefix + hex_ascii_of_bytes(bs.subrange(0, 0)));
    }
    while i < bytes.len()
        invariant
            i <= bs.len(),
            bs == bytes@,
            out@ == prefix + hex_ascii_of_bytes(bs.subrange(0, i as int)),
        decreases bs.len() - i,
    {
        proof {
            let pre = bs.subrange(0, i as int);
            let post = bs.subrange(0, i + 1);
            assert(post.drop_last() =~= pre);
            assert(post.last() == bs[i as int]);
        }
        let b = bytes[i];
        out.push(hex_digit_ascii(b / 16));
        out.push(hex_digit_ascii(b % 16));
        proof {
            assert(out@ =~= prefix + hex_ascii_of_bytes(bs.subrange(0, i + 1)));
        }
        i = i + 1;
    }
    proof {
        assert(bs.subrange(0, bs.len() as int) =~= bs);
        assert(out@ =~= auth_message(*d));
    }
    out
}

/// The ASCII code of a lowercase hexadecimal digit.
pub fn hex_digit_ascii(v: u8) -> (r: u8)
    requires
        v < 16,
    ensures
        r == hex_ascii_digit(v),
{
    if v < 10 {
        48 + v
    } else {
        87 + v
    }
}

impl Processor {
    /// A fresh node core around the identifier, stabilizing on the given
    /// cadence.
    pub fn new(did: Did, stabilize_timeout: usize) -> (r: Processor)
        ensures
            r.handler.wf(),
            r.handler.dht.did == did,
            r.stabilization.timeout == stabilize_timeout,
    {
        Processor {
            handler: MessageHandler::new(did),
            stabilization: Stabilization::new(stabilize_timeout),
        }
    }

    /// The node's own identifier.
    pub fn did(&self) -> (r: Did)
        ensures
            r == self.handler.dht.did,
    {
        self.handler.dht.did
    }

    /// Sign the authorization text of the key's own address: the base64
    /// form of the deterministic signature over the text's digest. Fails
    /// exactly on an invalid secret key.
    pub fn generate_signature(secret_key: &SecretKey) -> (r: Result<String, Error>)
        ensures
            r is Ok <==> secp_seckey_ok(secret_key.bytes@),
            r matches Ok(s) ==> s@ == base64_chars_of(
                secp_signature_of(
                    keccak256_of(
                        auth_message(did_of_pubkey(secp_pubkey_of(secret_key.bytes@))),
                    ),
                    secret_key.bytes@,
                ),
            ),
            r is Err ==> r == Result::<String, Error>::Err(Error::DecodedError),
    {
        let pubkey = match secret_key.pubkey() {
            Option::Some(p) => p,
            Option::None => {
                return Result::Err(Error::DecodedError);
            },
        };
        let did = match pubkey.did() {
            Option::Some(d) => d,
            Option::None => {
                return Result::Err(Error::DecodedError);
            },
        };
        let text = auth_message_bytes(&did);
        let digest = keccak256(text.as_slice());
        let sig = match secp_sign(digest.as_slice(), secret_key.bytes.as_slice()) {
            Option::Some(s) => s,
            Option::None => {
                return Result::Err(Error::DecodedError);
            },
        };
        Result::Ok(base64_encode(sig.as_slice()))
    }

    /// Verify a base64 signature over the key's own authorization text.
    /// Fails exactly when the signature is not base64, does not parse, or
    /// the public key is malformed; otherwise answers the verifier's
    /// verdict.
    pub fn verify_signature(signature: &[u8], public_key: &PublicKey) -> (r: Result<bool, Error>)
        ensures
            r is Ok <==> (b64_decoding(signature@) is Some && public_key.bytes@.len() == 65
                && secp_sig_ok(b64_decoding(signature@).unwrap()) && secp_pubkey_ok(
                public_key.bytes@,
            )),
            r matches Ok(b) ==> b == secp_verify_ok(
                keccak256_of(auth_message(did_of_pubkey(public_key.bytes@))),
                b64_decoding(signature@).unwrap(),
                public_key.bytes@,
            ),
            r is Err ==> r == Result::<bool, Error>::Err(Error::DecodedError),
    {
        let decoded = match crate::crypto::base64_decode(signature) {
            Option::Some(d) => d,
            Option::None => {
                return Result::Err(Error::DecodedError);
            },
        };
        let did = match public_key.did() {
            Option::Some(d) => d,
            Option::None => {
                return Result::Err(Error::DecodedError);
            },
        };
        let text = auth_message_bytes(&did);
        let digest = keccak256(text.as_slice());
        match secp_verify(digest.as_slice(), decoded.as_slice(), public_key.bytes.as_slice()) {
            Option::Some(b) => Result::Ok(b),
            Option::None => Result::Err(Error::DecodedError),
        }
    }
}

/// What `String::from_utf8` returns on the bytes, a function of the bytes
/// alone; relies on its documented behaviour of accepting exactly valid
/// UTF-8.
pub uninterp spec fn utf8_decoding(b: Seq<u8>) -> Option<Seq<char>>;

/// Relies on `String::from_utf8`: succeeds exactly on valid UTF-8 and
/// returns the decoded text.
#[verifier::external_body]
pub(crate) fn string_from_utf8(v: Vec<u8>) -> (r: Option<String>)
    ensures
        r is Some <==> utf8_decoding(v@) is Some,
        r matches Some(s) ==> utf8_decoding(v@) == Option::Some(s@),
{
    match String::from_utf8(v) {
        Result::Ok(s) => Option::Some(s),
        Result::Err(_) => Option::None,
    }
}

/// Unwrap a plain-framed text message: four mark bytes, the first zero,
/// then UTF-8 text. Fails exactly on short frames, a nonzero mark, or
/// bytes that are not UTF-8.
pub fn unpack_text_message(msg: &CustomMessage) -> (r: Result<String, Error>)
    ensures
        r is Ok <==> (msg.0@.len() >= 4 && msg.0@[0] == 0 && utf8_decoding(msg.0@.skip(4))
            is Some),
        r matches Ok(s) ==> utf8_decoding(msg.0@.skip(4)) == Option::Some(s@),
        r is Err ==> r == Result::<String, Error>::Err(Error::InvalidData),
{
    if msg.0.len() < 4 {
        return Result::Err(Error::InvalidData);
    }
    if msg.0[0] != 0 {
        return Result::Err(Error::InvalidData);
    }
    let tail = vstd::slice::slice_to_vec(
        vstd::slice::slice_subrange(msg.0.as_slice(), 4, msg.0.len()),
    );
    proof {
        assert(tail@ =~= msg.0@.skip(4));
    }
    match string_from_utf8(tail) {
        Option::Some(s) => Result::Ok(s),
        Option::None => Result::Err(Error::InvalidData),
    }
}

} // verus!
