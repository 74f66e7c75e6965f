//! The periodic stabilizer's per-tick decisions.
//!
//! Each tick notifies every listed successor of this node and probes one
//! finger entry. The decisions are pure: they mutate the ring state and
//! name the messages to send; the embedding shell drives the cadence and
//! does the sending.

use crate::did::Did;
use crate::message::FindSuccessorSend;
use crate::message::FindSuccessorThen;
use crate::message::Message;
use crate::message::NotifyPredecessorSend;
use crate::ring::closest_preceding_from;
use crate::ring::PeerRing;
use crate::ring::PeerRingAction;
use crate::ring::PeerRingRemoteAction;
use vstd::prelude::*;

verus! {

/// The stabilizer: fixed tick length, decisions over a ring state.
#[derive(Clone, Debug)]
pub struct Stabilization {
    /// Seconds between ticks.
    pub timeout: usize,
}

impl Stabilization {
    /// A stabilizer ticking every `timeout` seconds.
    pub fn new(timeout: usize) -> (r: Stabilization)
        ensures
            r.timeout == timeout,
    {
        Stabilization { timeout }
    }

    /// The tick length, in seconds.
    pub fn get_timeout(&self) -> (r: usize)
        ensures
            r == self.timeout,
    {
        self.timeout
    }

    /// The notify step: unless this node is its own immediate successor,
    /// tell every listed successor that we believe we precede it.
    pub fn notify_predecessor(&self, dht: &PeerRing) -> (r: Vec<(Did, Message)>)
        requires
            dht.wf(),
        ensures
            dht.did == dht.successor.min_spec() ==> r@.len() == 0,
            dht.did != dht.successor.min_spec() ==> {
                &&& r@.len() == dht.successor.successors@.len()
                &&& forall|i: int|
                    0 <= i < r@.len() ==> r@[i].0 == dht.successor.successors@[i] && (
                    #[trigger] r@[i].1 matches Message::NotifyPredecessorSend(b) && b.id
                        == dht.did)
            },
    {
        let mut out: Vec<(Did, Message)> = Vec::new();
        let successor_min = dht.successor.min();
        if dht.did == successor_min {
            return out;
        }
        let list = dht.successor.list();
        let mut i: usize = 0;
        while i < list.len()
            invariant
                list@ == dht.successor.successors@,
                i <= list@.len(),
                out@.len() == i as int,
                forall|k: int|
                    0 <= k < i ==> out@[k].0 == dht.successor.successors@[k] && (
                    #[trigger] out@[k].1 matches Message::NotifyPredecessorSend(b) && b.id
                        == dht.did),
            decreases list@.len() - i,
        {
            out.push(
                (
                    list[i],
                    Message::NotifyPredecessorSend(NotifyPredecessorSend { id: dht.did }),
                ),
            );
            i = i + 1;
        }
        out
    }

    /// The fix step: probe the finger entry under the cursor. A local
    /// answer fills the entry silently; a remote probe becomes a strict
    /// successor lookup whose answer will fill the entry.
    pub fn fix_fingers(&self, dht: &mut PeerRing) -> (r: Option<(Did, Message)>)
        requires
            old(dht).wf(),
        ensures
            final(dht).wf(),
            final(dht).did == old(dht).did,
            final(dht).successor == old(dht).successor,
            final(dht).predecessor == old(dht).predecessor,
            final(dht).storage == old(dht).storage,
            ({
                let probe = old(dht).fix_probe();
                let hop = closest_preceding_from(old(dht).did, old(dht).finger@, probe, 160);
                let local = old(dht).answers_locally(probe) || hop == old(dht).did;
                &&& (local ==> r is None)
                &&& (!local ==> {
                    &&& final(dht).finger == old(dht).finger
                    &&& r matches Some((next, m))
                    &&& next == hop
                    &&& m matches Message::FindSuccessorSend(b)
                    &&& b.id == probe
                    &&& b.handler is FixFingerTable
                    &&& b.strict
                })
            }),
    {
        match dht.fix_fingers() {
            PeerRingAction::RemoteAction(next, PeerRingRemoteAction::FindSuccessorForFix(probe)) => {
                Option::Some(
                    (
                        next,
                        Message::FindSuccessorSend(
                            FindSuccessorSend {
                                id: probe,
                                handler: FindSuccessorThen::FixFingerTable,
                                strict: true,
                            },
                        ),
                    ),
                )
            },
            _ => Option::None,
        }
    }

    /// One whole tick: the notify step, then the fix step. Errors of
    /// single sends are the shell's to log; the decisions never fail.
    pub fn stabilize(&self, dht: &mut PeerRing) -> (r: Vec<(Did, Message)>)
        requires
            old(dht).wf(),
        ensures
            final(dht).wf(),
            final(dht).did == old(dht).did,
            final(dht).successor == old(dht).successor,
            final(dht).predecessor == old(dht).predecessor,
            final(dht).storage == old(dht).storage,
            ({
                let notifies: int = if old(dht).did == old(dht).successor.min_spec() {
                    0
                } else {
                    old(dht).successor.successors@.len() as int
                };
                let probe = old(dht).fix_probe();
                let hop = closest_preceding_from(old(dht).did, old(dht).finger@, probe, 160);
                let fix_local = old(dht).answers_locally(probe) || hop == old(dht).did;
                &&& r@.len() == notifies + (if fix_local {
                    0int
                } else {
                    1int
                })
                &&& (forall|i: int|
                    0 <= i < notifies ==> r@[i].0 == old(dht).successor.successors@[i] && (
                    #[trigger] r@[i].1 matches Message::NotifyPredecessorSend(b) && b.id == old(
                        dht,
                    ).did))
                &&& (!fix_local ==> {
                    &&& r@.last().0 == hop
                    &&& r@.last().1 matches Message::FindSuccessorSend(b)
                    &&& b.id == probe
                    &&& b.handler is FixFingerTable
                    &&& b.strict
                })
            }),
    {
        let mut out = self.notify_predecessor(dht);
        match self.fix_fingers(dht) {
            Option::Some(send) => {
                out.push(send);
            },
            Option::None => {},
        }
        out
    }
}

} // verus!
