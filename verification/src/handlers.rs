//! Per-variant message handling: the decision core of the node.
//!
//! A handler runs with exclusive access to the ring state and a model of
//! the transport table, mutates them, and returns the outbound work as
//! [`Effect`] values; performing transport I/O, signing and sending is
//! the embedding shell's business.

use crate::did::Did;
use crate::error::Error;
use crate::message::Message;
use crate::message::MessagePayload;
use crate::relay::MessageRelay;
use crate::ring::PeerRing;
use crate::vnode::VirtualNode;
use vstd::prelude::*;

verus! {

broadcast use vstd::std_specs::vec::axiom_vec_index_decreases;

/// Outbound work a handler asks the shell to perform.
#[derive(Debug)]
pub enum Effect {
    /// Author and send a fresh outward payload.
    SendMessage {
        /// The first hop.
        next_hop: Did,
        /// The routing target.
        destination: Did,
        /// The body.
        message: Message,
    },
    /// Send a reply along the reversed recorded path.
    SendReport {
        /// The backward header, next hop already set.
        relay: MessageRelay,
        /// The body.
        message: Message,
    },
    /// Forward the payload being handled under this updated header.
    Forward {
        /// The stepped header.
        relay: MessageRelay,
    },
    /// Create a transport, register the enclosed offer, and answer it;
    /// then build the report with [`MessageHandler::make_connect_node_report`].
    AnswerOffer {
        /// Who asked for the connection.
        sender_id: Did,
        /// The offering side's pending-transport id.
        transport_uuid: Vec<u8>,
        /// The offer blob to register.
        handshake_info: Vec<u8>,
        /// The backward header for the eventual report.
        relay: MessageRelay,
    },
    /// Begin a connect flow towards the peer.
    ConnectTo {
        /// The peer to reach.
        target: Did,
    },
    /// Install the enclosed answer on the pending transport and promote
    /// it under the answering peer's id.
    InstallAnswer {
        /// Who answered.
        answer_id: Did,
        /// The pending-transport id.
        transport_uuid: Vec<u8>,
        /// The answer blob.
        handshake_info: Vec<u8>,
    },
    /// Hand an application message to the installed callback.
    Deliver {
        /// The application bytes.
        data: Vec<u8>,
    },
    /// Values found for an earlier search, arrived at their asker.
    FoundValues {
        /// The values.
        data: Vec<VirtualNode>,
    },
}

/// The node's model of the transport manager: which peers have a live
/// transport, and which pending transports await an answer.
#[derive(Debug)]
pub struct TransportRegistry {
    /// Peers with a registered transport, each listed once.
    pub connected: Vec<Did>,
    /// Ids of transports offered but not yet answered.
    pub pending: Vec<Vec<u8>>,
}

impl TransportRegistry {
    /// Each peer appears at most once.
    pub open spec fn wf(self) -> bool {
        forall|i: int, j: int|
            0 <= i < j < self.connected@.len() ==> self.connected@[i] != self.connected@[j]
    }

    /// An empty registry.
    pub fn new() -> (r: TransportRegistry)
        ensures
            r.connected@.len() == 0,
            r.pending@.len() == 0,
            r.wf(),
    {
        TransportRegistry { connected: Vec::new(), pending: Vec::new() }
    }

    /// Whether a live transport to `did` is registered.
    pub fn contains(&self, did: Did) -> (r: bool)
        ensures
            r == self.connected@.contains(did),
    {
        let mut i: usize = 0;
        while i < self.connected.len()
            invariant
                i <= self.connected@.len(),
                forall|j: int| 0 <= j < i ==> self.connected@[j] != did,
            decreases self.connected@.len() - i,
        {
            if self.connected[i] == did {
                return true;
            }
            i = i + 1;
        }
        false
    }

    /// Record a live transport to `did`; listing is idempotent.
    pub fn register(&mut self, did: Did)
        requires
            old(self).wf(),
        ensures
            final(self).wf(),
            final(self).pending == old(self).pending,
            old(self).connected@.contains(did) ==> final(self).connected == old(self).connected,
            !old(self).connected@.contains(did) ==> final(self).connected@ == old(
                self,
            ).connected@.push(did),
    {
        if !self.contains(did) {
            self.connected.push(did);
        }
    }

    /// Drop the transport to `did`, if one is listed.
    pub fn remove(&mut self, did: Did)
        requires
            old(self).wf(),
        ensures
            final(self).wf(),
            final(self).pending == old(self).pending,
            final(self).connected@ == old(self).connected@.remove_value(did),
    {
        let ghost s = self.connected@;
        let mut i: usize = 0;
        while i < self.connected.len()
            invariant
                old(self).wf(),
                self == old(self),
                s == self.connected@,
                i <= s.len(),
                forall|j: int| 0 <= j < i ==> s[j] != did,
            decreases s.len() - i,
        {
            if self.connected[i] == did {
                proof {
                    s.index_of_first_ensures(did);
                }
                self.connected.remove(i);
                proof {
                    assert(self.connected@ =~= s.remove_value(did));
                }
                return;
            }
            i = i + 1;
        }
        proof {
            assert(!s.contains(did));
            s.index_of_first_ensures(did);
        }
    }

    /// Remember a pending transport by its id.
    pub fn push_pending(&mut self, uuid: Vec<u8>)
        requires
            old(self).wf(),
        ensures
            final(self).wf(),
            final(self).connected == old(self).connected,
            final(self).pending@ == old(self).pending@.push(uuid),
    {
        self.pending.push(uuid);
    }

    /// Whether a pending transport with this id is listed.
    pub fn has_pending(&self, uuid: &Vec<u8>) -> (r: bool)
        ensures
            r == exists|j: int| 0 <= j < self.pending@.len() && self.pending@[j]@ == uuid@,
    {
        let mut i: usize = 0;
        while i < self.pending.len()
            invariant
                i <= self.pending@.len(),
                forall|j: int| 0 <= j < i ==> self.pending@[j]@ != uuid@,
            decreases self.pending@.len() - i,
        {
            if bytes_equal(&self.pending[i], uuid) {
                return true;
            }
            i = i + 1;
        }
        false
    }

    /// Forget the first pending transport with this id; answer whether
    /// one was listed.
    pub fn pop_pending(&mut self, uuid: &Vec<u8>) -> (r: bool)
        requires
            old(self).wf(),
        ensures
            final(self).wf(),
            final(self).connected == old(self).connected,
            r == exists|j: int|
                0 <= j < old(self).pending@.len() && old(self).pending@[j]@ == uuid@,
            !r ==> final(self).pending == old(self).pending,
            r ==> exists|j: int|
                {
                    &&& 0 <= j < old(self).pending@.len()
                    &&& old(self).pending@[j]@ == uuid@
                    &&& final(self).pending@ == old(self).pending@.remove(j)
                },
    {
        let ghost s = self.pending@;
        let mut i: usize = 0;
        while i < self.pending.len()
            invariant
                old(self).wf(),
                self == old(self),
                s == self.pending@,
                i <= s.len(),
                forall|j: int| 0 <= j < i ==> s[j]@ != uuid@,
            decreases s.len() - i,
        {
            if bytes_equal(&self.pending[i], uuid) {
                self.pending.remove(i);
                return true;
            }
            i = i + 1;
        }
        false
    }
}

/// Whether two byte buffers hold the same bytes.
pub fn bytes_equal(a: &Vec<u8>, b: &Vec<u8>) -> (r: bool)
    ensures
        r == (a@ == b@),
{
    if a.len() != b.len() {
        return false;
    }
    let mut i: usize = 0;
    while i < a.len()
        invariant
            a@.len() == b@.len(),
            i <= a@.len(),
            forall|j: int| 0 <= j < i ==> a@[j] == b@[j],
        decreases a@.len() - i,
    {
        if a[i] != b[i] {
            return false;
        }
        i = i + 1;
    }
    proof {
        assert(a@ =~= b@);
    }
    true
}

/// Bounded record of recently seen transaction ids, for replay
/// protection.
#[derive(Debug)]
pub struct ReplayWindow {
    /// How many ids the window holds at most.
    pub cap: usize,
    /// The ids seen, oldest first.
    pub seen: Vec<u128>,
}

impl ReplayWindow {
    /// A window holding at most `cap` ids.
    pub fn new(cap: usize) -> (r: ReplayWindow)
        ensures
            r.cap == cap,
            r.seen@.len() == 0,
    {
        ReplayWindow { cap, seen: Vec::new() }
    }

    /// Admit `tx` exactly when it is not in the window; admitting records
    /// it and evicts the oldest id once the window is full.
    pub fn check_and_insert(&mut self, tx: u128) -> (r: bool)
        ensures
            r == !old(self).seen@.contains(tx),
            final(self).cap == old(self).cap,
            !r ==> final(self).seen == old(self).seen,
            r ==> final(self).seen@ == (if old(self).seen@.len() < old(self).cap {
                old(self).seen@.push(tx)
            } else {
                old(self).seen@.push(tx).skip(1)
            }),
    {
        let mut i: usize = 0;
        while i < self.seen.len()
            invariant
                self == old(self),
                i <= self.seen@.len(),
                forall|j: int| 0 <= j < i ==> self.seen@[j] != tx,
            decreases self.seen@.len() - i,
        {
            if self.seen[i] == tx {
                return false;
            }
            i = i + 1;
        }
        let ghost s = self.seen@;
        self.seen.push(tx);
        if self.seen.len() > self.cap {
            self.seen.remove(0);
            proof {
                assert(self.seen@ =~= s.push(tx).skip(1));
            }
        }
        true
    }
}

/// One message variant's handler.
pub trait HandleMsg<T> {
    /// What the handler demands of the receiver's state.
    spec fn handle_wf(&self) -> bool;

    /// Handle `msg` received in `ctx`: mutate the node, return the
    /// outbound work.
    fn handle(&mut self, ctx: &MessagePayload, msg: &T) -> (r: Result<Vec<Effect>, Error>)
        requires
            old(self).handle_wf(),
        ensures
            final(self).handle_wf(),
    ;
}

/// The dispatcher: ring state plus the transport model.
#[derive(Debug)]
pub struct MessageHandler {
    /// The node's ring state.
    pub dht: PeerRing,
    /// The node's model of the transport table.
    pub transports: TransportRegistry,
}

impl MessageHandler {
    /// Both parts are sound.
    pub open spec fn wf(self) -> bool {
        self.dht.wf() && self.transports.wf()
    }

    /// A fresh node around the given identifier.
    pub fn new(did: Did) -> (r: MessageHandler)
        ensures
            r.wf(),
            r.dht.did == did,
            r.dht.successor.successors@.len() == 0,
            r.dht.predecessor is None,
            r.transports.connected@.len() == 0,
            r.transports.pending@.len() == 0,
    {
        MessageHandler { dht: PeerRing::new(did), transports: TransportRegistry::new() }
    }
}

} // verus!
