//! Plain response shapes of the control interface.
//!
//! These carry connection facts as strings; the shell serializes them for
//! its RPC surface.

use crate::backend::BackendMessage;
use crate::crypto::base64_chars_of;
use crate::crypto::base64_encode;
use vstd::prelude::*;

verus! {

/// A peer as the control interface reports it.
#[derive(Clone, Debug)]
pub struct Peer {
    /// The peer's address string.
    pub did: String,
    /// The transport's id.
    pub transport_id: String,
    /// The transport's connection state.
    pub state: String,
}

/// A transport's id and state.
#[derive(Clone, Debug)]
pub struct TransportInfo {
    /// The transport's id.
    pub transport_id: String,
    /// The transport's connection state.
    pub state: String,
}

impl TransportInfo {
    /// Pair an id with a state; an absent state reads `Unknown`.
    pub fn new(transport_id: String, state: Option<String>) -> (r: TransportInfo)
        ensures
            r.transport_id@ == transport_id@,
            state matches Some(s) ==> r.state@ == s@,
            state is None ==> r.state@ == "Unknown"@,
    {
        let state_text: String = match state {
            Option::Some(s) => s,
            Option::None => {
                let u: String = String::from_str("Unknown");
                u
            },
        };
        TransportInfo { transport_id, state: state_text }
    }
}

/// A transport's id together with its handshake blob.
#[derive(Clone, Debug)]
pub struct TransportAndIce {
    /// The transport's id.
    pub transport_id: String,
    /// The handshake text.
    pub ice: String,
}

impl TransportAndIce {
    /// Pair a transport id with its handshake text.
    pub fn new(transport_id: &str, ice: &str) -> (r: TransportAndIce)
        ensures
            r.transport_id@ == transport_id@,
            r.ice@ == ice@,
    {
        TransportAndIce {
            transport_id: transport_id.to_owned(),
            ice: ice.to_owned(),
        }
    }
}

/// A backend message as the control interface reports it: the kind tag
/// and the payload as base64 text.
#[derive(Clone, Debug)]
pub struct CustomBackendMessage {
    /// The kind tag.
    pub message_type: u16,
    /// The payload, base64.
    pub data: String,
}

impl CustomBackendMessage {
    /// Render a backend message for reporting.
    pub fn from_backend(v: &BackendMessage) -> (r: CustomBackendMessage)
        ensures
            r.message_type == v.message_type,
            r.data@ == base64_chars_of(v.data@),
    {
        CustomBackendMessage {
            message_type: v.message_type,
            data: base64_encode(v.data.as_slice()),
        }
    }
}

} // verus!
