//! Error kinds of the overlay node.

use vstd::prelude::*;

verus! {

/// Everything that can go wrong inside the node core or at its edges.
#[derive(Clone, Copy, Debug, PartialEq, Eq, Structural)]
pub enum Error {
    /// A payload failed to decode, or a relay header or signature was
    /// malformed.
    InvalidPayload,
    /// A transaction id was seen again within the replay window.
    ReplayDetected,
    /// A peer id that no transport is registered for.
    UnknownPeer,
    /// A transport refused to carry or deliver.
    TransportFailure,
    /// A ring operation answered with an action its caller cannot use.
    RingUnexpectedAction,
    /// No pending transport under the offered id.
    PendingTransportMissing,
    /// An operation ran out of time.
    Timeout,
    /// An internal inconsistency.
    Internal,
    /// A string that does not name a ring identifier.
    InvalidDid,
    /// An address that no identifier can be derived from.
    InvalidAddress,
    /// Bytes that violate the expected framing.
    InvalidData,
    /// An encoded value that does not decode.
    DecodedError,
    /// A transport id that is not well formed.
    InvalidTransportId,
    /// No transport is known for the peer.
    TransportNotFound,
}

impl Error {
    /// A short fixed description, for logs and user-facing shells.
    pub fn text(&self) -> &'static str {
        match self {
            Error::InvalidPayload => "invalid payload",
            Error::ReplayDetected => "replay detected",
            Error::UnknownPeer => "unknown peer",
            Error::TransportFailure => "transport failure",
            Error::RingUnexpectedAction => "unexpected ring action",
            Error::PendingTransportMissing => "pending transport missing",
            Error::Timeout => "timeout",
            Error::Internal => "internal error",
            Error::InvalidDid => "invalid did",
            Error::InvalidAddress => "invalid address",
            Error::InvalidData => "invalid data",
            Error::DecodedError => "decode failed",
            Error::InvalidTransportId => "invalid transport id",
            Error::TransportNotFound => "transport not found",
        }
    }
}

/// The usual result type of the node core.
pub type Result<T> = core::result::Result<T, Error>;

} // verus!
