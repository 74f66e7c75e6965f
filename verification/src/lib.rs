//! Core of a Chord-style peer-to-peer overlay node.
//!
//! The crate models a node of a structured distributed hash table: 160-bit
//! ring identifiers, the per-node ring state (predecessor, successor list,
//! finger table, local virtual-node storage), a signed source-routed message
//! envelope with SEND/REPORT relay semantics, the per-variant message
//! handlers, and the periodic stabilizer that converges the ring.
//!
//! Transports, timers and the network itself stay outside; the node core is
//! a state machine from inbound messages to ring mutations and outbound
//! messages.

pub mod backend;
pub mod browser;
pub mod bytes;
pub mod codec;
pub mod codec_exec;
pub mod codec_proof;
pub mod crypto;
pub mod did;
pub mod error;
pub mod handlers;
pub mod handlers_impl;
pub mod hex;
pub mod jsonrpc;
pub mod logging;
pub mod measure;
pub mod message;
pub mod processor;
pub mod relay;
pub mod ring;
pub mod stabilization;
pub mod successor;
pub mod vnode;
