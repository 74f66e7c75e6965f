//! Counters that assess the reliability of remote peers.

use crate::did::Did;
use vstd::prelude::*;

verus! {

/// The behaviours a measure counts, per peer.
#[derive(Clone, Copy, Debug, PartialEq, Eq, Structural)]
pub enum MeasureCounter {
    /// Messages sent to the peer.
    Sent,
    /// Messages that failed to send.
    FailedToSend,
    /// Messages received from the peer.
    Received,
    /// Messages that failed to arrive intact.
    FailedToReceive,
}

/// A per-peer behaviour counter, for the embedding shell to implement
/// over its storage; `incr` is called wherever the node sends or
/// receives.
pub trait Measure {
    /// Count one occurrence of the behaviour for the peer.
    fn incr(&mut self, did: Did, counter: MeasureCounter);

    /// The count so far of the behaviour for the peer.
    fn get_count(&self, did: Did, counter: MeasureCounter) -> u64;
}

} // verus!
