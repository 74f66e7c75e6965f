//! Plain shapes of the browser facade.
//!
//! The facade's promise plumbing lives in the shell; here stand the value
//! types it exchanges and the address parsing behind them.

use crate::crypto::b58_decode;
use crate::crypto::b58_decoding;
use crate::crypto::keccak256;
use crate::crypto::keccak256_of;
use crate::did::did_of_bytes;
use crate::did::Did;
use crate::error::Error;
use crate::hex::all_hex_digits;
use crate::hex::hex_chars_val;
use crate::hex::strip_hex_prefix;
use crate::processor::AddressType;
use vstd::prelude::*;

verus! {

/// How the wallet signs: plain ecdsa, the readable-message convention, or
/// an ed25519 wallet.
#[derive(Clone, Copy, Debug, PartialEq, Eq, Structural)]
pub enum SignerMode {
    /// Plain ecdsa over the digest.
    DEFAULT,
    /// The readable-message signing convention.
    EIP191,
    /// An ed25519 wallet signature.
    EdDSA,
}

/// A peer as the browser facade reports it.
#[derive(Clone, Debug)]
pub struct Peer {
    /// The peer's address string.
    pub address: String,
    /// The transport's public key text.
    pub transport_pubkey: String,
    /// The transport's id.
    pub transport_id: String,
    /// The transport's connection state, when known.
    pub state: Option<String>,
}

/// A transport's id together with its handshake blob.
#[derive(Clone, Debug)]
pub struct TransportAndIce {
    /// The transport's id.
    pub transport_id: String,
    /// The handshake text.
    pub ice: String,
}

impl TransportAndIce {
    /// Pair a transport id with its handshake text.
    pub fn new(transport_id: &str, ice: &str) -> (r: TransportAndIce)
        ensures
            r.transport_id@ == transport_id@,
            r.ice@ == ice@,
    {
        TransportAndIce {
            transport_id: transport_id.to_owned(),
            ice: ice.to_owned(),
        }
    }
}

/// Facts about this build of the node.
#[derive(Clone, Debug)]
pub struct InternalInfo {
    /// The version string of the build.
    pub build_version: String,
}

/// The version of this build.
pub fn build_version() -> (r: &'static str)
    ensures
        r@ == "0.1.0"@,
{
    "0.1.0"
}

impl InternalInfo {
    /// Collect the build facts.
    pub fn build() -> (r: InternalInfo)
        ensures
            r.build_version@ == "0.1.0"@,
    {
        InternalInfo { build_version: String::from_str(build_version()) }
    }

    /// The version string of the build.
    pub fn build_version(&self) -> (r: String)
        ensures
            r@ == self.build_version@,
    {
        self.build_version.clone()
    }
}

/// The node client a browser shell drives: a thin owner of the node
/// core.
#[derive(Debug)]
pub struct Client {
    /// The node core.
    pub processor: crate::processor::Processor,
}

impl Client {
    /// Wrap a node core as a client.
    pub fn new_client(processor: crate::processor::Processor) -> (r: Client)
        ensures
            r.processor == processor,
    {
        Client { processor }
    }

    /// The node's own address string: `0x` and forty lowercase
    /// hexadecimal digits.
    pub fn address(&self) -> (r: String)
        ensures
            r@ == seq!['0', 'x'] + crate::hex::hex_chars_of(
                self.processor.handler.dht.did.hi as int,
                8,
            ) + crate::hex::hex_chars_of(self.processor.handler.dht.did.lo as int, 32),
    {
        self.processor.handler.dht.did.to_hex()
    }
}

/// Collect the build facts.
pub fn internal_info() -> (r: InternalInfo)
    ensures
        r.build_version@ == "0.1.0"@,
{
    InternalInfo::build()
}

/// Parse a wallet address into a ring identifier: hexadecimal directly,
/// or an ed25519 public key in base58 whose keccak-like digest's low 160
/// bits name the node.
pub fn get_did(address: &str, addr_type: AddressType) -> (r: Result<Did, Error>)
    ensures
        addr_type is DEFAULT ==> {
            &&& r is Ok <==> (strip_hex_prefix(address@).len() == 40 && all_hex_digits(
                strip_hex_prefix(address@),
            ))
            &&& (r matches Ok(d) ==> d.val() == hex_chars_val(strip_hex_prefix(address@)))
        },
        addr_type is ED25519 ==> {
            &&& r is Ok <==> (b58_decoding(address@) matches Some(k) && k.len() == 32)
            &&& (r matches Ok(d) ==> d == did_of_bytes(
                keccak256_of(b58_decoding(address@).unwrap()).skip(12),
            ))
        },
        r is Err ==> r == Result::<Did, Error>::Err(Error::InvalidAddress),
{
    match addr_type {
        AddressType::DEFAULT => {
            match Did::from_hex(address) {
                Option::Some(d) => Result::Ok(d),
                Option::None => Result::Err(Error::InvalidAddress),
            }
        },
        AddressType::ED25519 => {
            let key = match b58_decode(address) {
                Option::Some(k) => k,
                Option::None => {
                    return Result::Err(Error::InvalidAddress);
                },
            };
            if key.len() != 32 {
                return Result::Err(Error::InvalidAddress);
            }
            let digest = keccak256(key.as_slice());
            let tail = vstd::slice::slice_subrange(digest.as_slice(), 12, 32);
            proof {
                assert(tail@ =~= keccak256_of(b58_decoding(address@).unwrap()).skip(12));
            }
            Result::Ok(Did::from_bytes(tail))
        },
    }
}

} // verus!
