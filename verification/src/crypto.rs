//! Keys, hashes and signatures: the cryptographic edge of the node.
//!
//! Hashing, base64, base58 and the elliptic-curve operations come from
//! outside crates through trusted wrappers; everything around them —
//! address derivation, message composition, error mapping — is verified.

use base64::Engine;

use crate::did::did_of_bytes;
use crate::did::Did;
use vstd::prelude::*;

verus! {

/// A secp256k1 secret key as its 32 serialized bytes.
#[derive(Clone, Debug)]
pub struct SecretKey {
    /// The serialized scalar.
    pub bytes: Vec<u8>,
}

/// A secp256k1 public key as its 65 uncompressed serialized bytes.
#[derive(Clone, Debug)]
pub struct PublicKey {
    /// The serialized point, uncompressed form.
    pub bytes: Vec<u8>,
}

/// What `web3::signing::keccak256` returns: the Keccak-256 digest of the
/// input, a function of the bytes alone.
pub uninterp spec fn keccak256_of(b: Seq<u8>) -> Seq<u8>;

/// What `base64::Engine::encode` of the standard engine returns: the
/// padded base64 text of the bytes, a function of the bytes alone.
pub uninterp spec fn base64_chars_of(b: Seq<u8>) -> Seq<char>;

/// What `base64::Engine::decode` of the standard engine returns on the
/// input, a function of the bytes alone.
pub uninterp spec fn b64_decoding(s: Seq<u8>) -> Option<Seq<u8>>;

/// What `libsecp256k1::sign` returns: the 64 serialized signature bytes,
/// deterministic in digest and key per RFC 6979.
pub uninterp spec fn secp_signature_of(digest: Seq<u8>, seckey: Seq<u8>) -> Seq<u8>;

/// Whether `libsecp256k1::SecretKey::parse` accepts the bytes.
pub uninterp spec fn secp_seckey_ok(k: Seq<u8>) -> bool;

/// Whether `libsecp256k1::Signature::parse_standard_slice` accepts the
/// bytes.
pub uninterp spec fn secp_sig_ok(s: Seq<u8>) -> bool;

/// Whether `libsecp256k1::PublicKey::parse` accepts the bytes.
pub uninterp spec fn secp_pubkey_ok(p: Seq<u8>) -> bool;

/// What `libsecp256k1::verify` returns, a function of its inputs alone.
pub uninterp spec fn secp_verify_ok(digest: Seq<u8>, sig: Seq<u8>, pubkey: Seq<u8>) -> bool;

/// What `libsecp256k1::PublicKey::from_secret_key` returns, serialized
/// uncompressed: a function of the key bytes alone.
pub uninterp spec fn secp_pubkey_of(seckey: Seq<u8>) -> Seq<u8>;

/// What `bs58::decode(..).into_vec()` returns, a function of the text
/// alone.
pub uninterp spec fn b58_decoding(s: Seq<char>) -> Option<Seq<u8>>;

/// Relies on `web3::signing::keccak256`: a 32-byte digest determined by
/// the input bytes alone.
#[verifier::external_body]
pub(crate) fn keccak256(b: &[u8]) -> (r: Vec<u8>)
    ensures
        r@ == keccak256_of(b@),
        r@.len() == 32,
{
    web3::signing::keccak256(b).to_vec()
}

/// Relies on `base64::Engine::encode` with the standard engine: padded
/// base64 text determined by the input bytes alone.
#[verifier::external_body]
pub(crate) fn base64_encode(b: &[u8]) -> (r: String)
    ensures
        r@ == base64_chars_of(b@),
{
    base64::engine::general_purpose::STANDARD.encode(b)
}

/// Relies on `base64::Engine::decode` with the standard engine: a
/// function of the input bytes, succeeding exactly on well-formed padded
/// base64.
#[verifier::external_body]
pub(crate) fn base64_decode(s: &[u8]) -> (r: Option<Vec<u8>>)
    ensures
        r is Some <==> b64_decoding(s@) is Some,
        r matches Some(d) ==> b64_decoding(s@) == Option::Some(d@),
{
    base64::engine::general_purpose::STANDARD.decode(s).ok()
}

/// Relies on `libsecp256k1::sign` (RFC 6979, deterministic) over
/// `Message::parse` and `SecretKey::parse`; succeeds exactly on parseable
/// keys, returning the 64 serialized signature bytes.
#[verifier::external_body]
pub(crate) fn secp_sign(digest: &[u8], seckey: &[u8]) -> (r: Option<Vec<u8>>)
    requires
        digest@.len() == 32,
    ensures
        r is Some <==> secp_seckey_ok(seckey@),
        r matches Some(sig) ==> sig@ == secp_signature_of(digest@, seckey@) && sig@.len() == 64,
{
    let msg: [u8; 32] = digest.try_into().ok()?;
    let key: [u8; 32] = seckey.try_into().ok()?;
    let sk = libsecp256k1::SecretKey::parse(&key).ok()?;
    let (sig, _recovery) = libsecp256k1::sign(&libsecp256k1::Message::parse(&msg), &sk);
    Option::Some(sig.serialize().to_vec())
}

/// Relies on `libsecp256k1::verify` over `Signature::parse_standard_slice`
/// and `PublicKey::parse`; parses exactly when those accept, and the
/// verdict is a function of the inputs alone.
#[verifier::external_body]
pub(crate) fn secp_verify(digest: &[u8], sig: &[u8], pubkey: &[u8]) -> (r: Option<bool>)
    requires
        digest@.len() == 32,
    ensures
        r is Some <==> (secp_sig_ok(sig@) && secp_pubkey_ok(pubkey@)),
        r matches Some(b) ==> b == secp_verify_ok(digest@, sig@, pubkey@),
{
    let msg: [u8; 32] = digest.try_into().ok()?;
    let signature = libsecp256k1::Signature::parse_standard_slice(sig).ok()?;
    let pk: [u8; 65] = pubkey.try_into().ok()?;
    let p = libsecp256k1::PublicKey::parse(&pk).ok()?;
    Option::Some(libsecp256k1::verify(&libsecp256k1::Message::parse(&msg), &signature, &p))
}

/// Relies on `libsecp256k1::PublicKey::from_secret_key`: the uncompressed
/// 65-byte public key determined by the secret key alone.
#[verifier::external_body]
pub(crate) fn secp_derive_pubkey(seckey: &[u8]) -> (r: Option<Vec<u8>>)
    ensures
        r is Some <==> secp_seckey_ok(seckey@),
        r matches Some(p) ==> p@ == secp_pubkey_of(seckey@) && p@.len() == 65,
{
    let key: [u8; 32] = seckey.try_into().ok()?;
    let sk = libsecp256k1::SecretKey::parse(&key).ok()?;
    Option::Some(libsecp256k1::PublicKey::from_secret_key(&sk).serialize().to_vec())
}

/// Relies on `bs58::decode(..).into_vec()` with the default alphabet: a
/// function of the text, succeeding exactly on well-formed base58.
#[verifier::external_body]
pub(crate) fn b58_decode(s: &str) -> (r: Option<Vec<u8>>)
    ensures
        r is Some <==> b58_decoding(s@) is Some,
        r matches Some(d) ==> b58_decoding(s@) == Option::Some(d@),
{
    bs58::decode(s).into_vec().ok()
}

/// The ring identifier a public key derives to: the low 160 bits of the
/// keccak-like digest of the uncompressed key without its form byte.
pub open spec fn did_of_pubkey(pk: Seq<u8>) -> Did {
    did_of_bytes(keccak256_of(pk.skip(1)).skip(12))
}

/// Derive the ring identifier of an uncompressed public key.
pub fn did_from_pubkey(pk: &[u8]) -> (r: Option<Did>)
    ensures
        r is Some <==> pk@.len() == 65,
        r matches Some(d) ==> d == did_of_pubkey(pk@),
{
    if pk.len() != 65 {
        return Option::None;
    }
    let body = vstd::slice::slice_subrange(pk, 1, 65);
    let digest = keccak256(body);
    let tail = vstd::slice::slice_subrange(digest.as_slice(), 12, 32);
    proof {
        assert(body@ =~= pk@.skip(1));
        assert(tail@ =~= keccak256_of(pk@.skip(1)).skip(12));
    }
    Option::Some(Did::from_bytes(tail))
}

impl SecretKey {
    /// Wrap serialized secret-key bytes.
    pub fn new(bytes: Vec<u8>) -> (r: SecretKey)
        ensures
            r.bytes == bytes,
    {
        SecretKey { bytes }
    }

    /// The public key of this secret key, when the scalar is valid.
    pub fn pubkey(&self) -> (r: Option<PublicKey>)
        ensures
            r is Some <==> secp_seckey_ok(self.bytes@),
            r matches Some(p) ==> p.bytes@ == secp_pubkey_of(self.bytes@) && p.bytes@.len()
                == 65,
    {
        match secp_derive_pubkey(self.bytes.as_slice()) {
            Option::Some(bytes) => Option::Some(PublicKey { bytes }),
            Option::None => Option::None,
        }
    }
}

impl PublicKey {
    /// Wrap serialized uncompressed public-key bytes.
    pub fn new(bytes: Vec<u8>) -> (r: PublicKey)
        ensures
            r.bytes == bytes,
    {
        PublicKey { bytes }
    }

    /// The ring identifier this key derives to.
    pub fn did(&self) -> (r: Option<Did>)
        ensures
            r is Some <==> self.bytes@.len() == 65,
            r matches Some(d) ==> d == did_of_pubkey(self.bytes@),
    {
        did_from_pubkey(self.bytes.as_slice())
    }
}

} // verus!
