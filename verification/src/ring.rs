//! The per-node Chord ring state and its algorithms.
//!
//! A `PeerRing` aggregates the predecessor, the successor list, the finger
//! table with its fix cursor, and the local virtual-node store. Its
//! operations return a [`PeerRingAction`] describing what, if anything,
//! must be asked of a remote peer; sending is the caller's business.

use crate::did::dist;
use crate::did::in_half_open_interval;
use crate::did::in_open_interval;
use crate::did::ring_add;
use crate::did::Did;
use crate::successor::SuccessorList;
use crate::vnode::VirtualNode;
use vstd::arithmetic::power2::pow2;
use vstd::prelude::*;

verus! {

/// Number of entries a successor list keeps; three suffices for small
/// rings.
pub const SUCCESSOR_LIST_CAP: usize = 3;

/// Number of finger-table entries, one per bit of the identifier space.
pub const FINGER_TABLE_SIZE: usize = 160;

/// An operation to request from a remote peer.
#[derive(Clone, Debug)]
pub enum PeerRingRemoteAction {
    /// Ask the peer for the successor of the identifier.
    FindSuccessor(Did),
    /// Ask the peer for the successor of a finger probe; the answer fills
    /// the finger table instead of the successor list.
    FindSuccessorForFix(Did),
    /// Hand the peer the virtual nodes it is now responsible for.
    SyncVNodeWithSuccessor(Vec<VirtualNode>),
}

/// What a ring-state operation decided.
#[derive(Debug)]
pub enum PeerRingAction {
    /// Nothing to do.
    Idle,
    /// An immediate answer, e.g. the successor that was asked for.
    Answer(Did),
    /// Ask the given peer to perform the remote operation.
    RemoteAction(Did, PeerRingRemoteAction),
    /// Several actions at once.
    MultipleActions(Vec<PeerRingAction>),
}

/// The ring state of one node.
#[derive(Clone, Debug)]
pub struct PeerRing {
    /// The node's own identifier.
    pub did: Did,
    /// Bounded ordered list of live successors.
    pub successor: SuccessorList,
    /// `finger[i]` is the known successor of `did + 2^i`.
    pub finger: Vec<Option<Did>>,
    /// Cursor rotating through the finger table, one entry per fix tick.
    pub fix_finger_index: usize,
    /// The peer most recently adopted as predecessor, if any.
    pub predecessor: Option<Did>,
    /// Virtual nodes stored at this node, keyed by distinct identifiers.
    pub storage: Vec<VirtualNode>,
}

/// The first finger below index `i` that lies in the open interval
/// `(base, target)`, or `base` when none does.
pub open spec fn closest_preceding_from(
    base: Did,
    fingers: Seq<Option<Did>>,
    target: Did,
    i: nat,
) -> Did
    decreases i,
{
    if i == 0 {
        base
    } else {
        match fingers[i - 1] {
            Option::Some(f) => if in_open_interval(f, base, target) {
                f
            } else {
                closest_preceding_from(base, fingers, target, (i - 1) as nat)
            },
            Option::None => closest_preceding_from(base, fingers, target, (i - 1) as nat),
        }
    }
}

/// The store entries that stay at this node when `succ` becomes the
/// successor: those whose key lies in `(base, succ]`.
pub open spec fn kept_values(s: Seq<VirtualNode>, base: Did, succ: Did) -> Seq<VirtualNode>
    decreases s.len(),
{
    if s.len() == 0 {
        Seq::empty()
    } else {
        let head = kept_values(s.drop_last(), base, succ);
        if in_half_open_interval(s.last().did, base, succ) {
            head.push(s.last())
        } else {
            head
        }
    }
}

/// The store entries that migrate to `succ`: those whose key lies outside
/// `(base, succ]`.
pub open spec fn moved_values(s: Seq<VirtualNode>, base: Did, succ: Did) -> Seq<VirtualNode>
    decreases s.len(),
{
    if s.len() == 0 {
        Seq::empty()
    } else {
        let head = moved_values(s.drop_last(), base, succ);
        if in_half_open_interval(s.last().did, base, succ) {
            head
        } else {
            head.push(s.last())
        }
    }
}

/// The predecessor slot after being notified of `id`: adopted when empty
/// or when `id` falls between the present predecessor and the local node.
pub open spec fn notified_predecessor(pred: Option<Did>, base: Did, id: Did) -> Option<Did> {
    match pred {
        Option::None => Option::Some(id),
        Option::Some(p) => if in_open_interval(id, p, base) {
            Option::Some(id)
        } else {
            pred
        },
    }
}

/// What a finger entry becomes when a peer joins: the joiner takes the
/// entry when it lies at or beyond the entry's probe and is closer to the
/// probe than the present holder.
pub open spec fn finger_candidate(base: Did, id: Did, k: nat, cur: Option<Did>) -> Option<Did> {
    let probe = crate::did::did_of_val(ring_add(base.val(), pow2(k) as int));
    if dist(base, probe) <= dist(base, id) {
        match cur {
            Option::None => Option::Some(id),
            Option::Some(c) => if dist(probe, id) < dist(probe, c) {
                Option::Some(id)
            } else {
                cur
            },
        }
    } else {
        cur
    }
}

/// Every entry of a partition side is an entry of the store.
proof fn lemma_kept_members(s: Seq<VirtualNode>, base: Did, succ: Did)
    ensures
        forall|x: VirtualNode| kept_values(s, base, succ).contains(x) ==> s.contains(x),
    decreases s.len(),
{
    if s.len() > 0 {
        lemma_kept_members(s.drop_last(), base, succ);
        assert forall|x: VirtualNode|
            kept_values(s, base, succ).contains(x) implies s.contains(x) by {
            if kept_values(s.drop_last(), base, succ).contains(x) {
                assert(s.drop_last().contains(x));
                let j = choose|j: int|
                    0 <= j < s.drop_last().len() && s.drop_last()[j] == x;
                assert(s[j] == x);
            } else {
                assert(x == s.last());
            }
        };
    }
}

/// Keys stay distinct on the kept side of a store partition.
proof fn lemma_kept_distinct(s: Seq<VirtualNode>, base: Did, succ: Did)
    requires
        forall|i: int, j: int| 0 <= i < j < s.len() ==> s[i].did != s[j].did,
    ensures
        forall|i: int, j: int|
            0 <= i < j < kept_values(s, base, succ).len() ==> kept_values(s, base, succ)[i].did
                != kept_values(s, base, succ)[j].did,
    decreases s.len(),
{
    if s.len() > 0 {
        let head = s.drop_last();
        assert(forall|i: int, j: int| 0 <= i < j < head.len() ==> head[i].did != head[j].did);
        lemma_kept_distinct(head, base, succ);
        lemma_kept_members(head, base, succ);
        let k = kept_values(s, base, succ);
        let kh = kept_values(head, base, succ);
        if in_half_open_interval(s.last().did, base, succ) {
            assert forall|i: int, j: int|
                0 <= i < j < k.len() implies k[i].did != k[j].did by {
                if j == k.len() - 1 {
                    assert(k[j] == s.last());
                    assert(kh.contains(kh[i]));
                    assert(head.contains(k[i]));
                    let m = choose|m: int| 0 <= m < head.len() && head[m] == k[i];
                    assert(s[m] == k[i]);
                    assert(s[m].did != s[s.len() - 1].did);
                }
            };
        }
    }
}

impl PeerRing {
    /// Structural soundness of the ring state.
    pub open spec fn wf(self) -> bool {
        &&& self.successor.wf()
        &&& self.successor.did == self.did
        &&& self.successor.cap == SUCCESSOR_LIST_CAP
        &&& self.finger@.len() == FINGER_TABLE_SIZE
        &&& self.fix_finger_index < FINGER_TABLE_SIZE
        &&& forall|i: int, j: int|
            0 <= i < j < self.storage@.len() ==> self.storage@[i].did != self.storage@[j].did
    }

    /// Whether `target` is answered locally: it lies within reach of the
    /// farthest successor, or no successor is known yet.
    pub open spec fn answers_locally(self, target: Did) -> bool {
        self.successor.successors@.len() == 0 || dist(self.did, target) <= dist(
            self.did,
            self.successor.max_spec(),
        )
    }

    /// The identifier probed by the next fix tick: `did + 2^cursor`.
    pub open spec fn fix_probe(self) -> Did {
        crate::did::did_of_val(
            ring_add(self.did.val(), pow2(self.fix_finger_index as nat) as int),
        )
    }

    /// A fresh ring state around the local identifier.
    pub fn new(did: Did) -> (r: PeerRing)
        ensures
            r.did == did,
            r.successor.successors@.len() == 0,
            r.predecessor is None,
            r.storage@.len() == 0,
            r.fix_finger_index == 0,
            forall|i: int| 0 <= i < FINGER_TABLE_SIZE ==> r.finger@[i] is None,
            r.wf(),
    {
        let finger: Vec<Option<Did>> = vec![Option::None; 160];
        PeerRing {
            did,
            successor: SuccessorList::new(did, SUCCESSOR_LIST_CAP),
            finger,
            fix_finger_index: 0,
            predecessor: Option::None,
            storage: Vec::new(),
        }
    }

    /// The routing primitive: the closest known finger strictly preceding
    /// `target` on the ring, or the local node when no finger precedes it.
    pub fn closest_preceding_node(&self, target: Did) -> (r: Did)
        requires
            self.wf(),
        ensures
            r == closest_preceding_from(self.did, self.finger@, target, 160),
    {
        let mut i: usize = 160;
        while i > 0
            invariant
                self.wf(),
                i <= 160,
                closest_preceding_from(self.did, self.finger@, target, 160)
                    == closest_preceding_from(self.did, self.finger@, target, i as nat),
            decreases i,
        {
            match self.finger[i - 1] {
                Option::Some(f) => {
                    let d_f = crate::did::distance(&self.did, &f);
                    let d_t = crate::did::distance(&self.did, &target);
                    let zero = Did::new(0, 0);
                    if zero.lt(&d_f) && d_f.lt(&d_t) {
                        proof {
                            assert(in_open_interval(f, self.did, target));
                            assert(closest_preceding_from(self.did, self.finger@, target, i as nat)
                                == f);
                        }
                        return f;
                    }
                    proof {
                        assert(closest_preceding_from(self.did, self.finger@, target, i as nat)
                            == closest_preceding_from(
                            self.did,
                            self.finger@,
                            target,
                            (i - 1) as nat,
                        ));
                    }
                },
                Option::None => {
                    proof {
                        assert(closest_preceding_from(self.did, self.finger@, target, i as nat)
                            == closest_preceding_from(
                            self.did,
                            self.finger@,
                            target,
                            (i - 1) as nat,
                        ));
                    }
                },
            }
            i = i - 1;
        }
        self.did
    }

    /// Join: learn of `id`. The joiner seeds the finger entries it now
    /// answers for, is adopted into the successor list when none is known
    /// yet or it is closer than the farthest entry, and is asked to find
    /// this node's own successor. Joining oneself changes nothing.
    pub fn join(&mut self, id: Did) -> (r: PeerRingAction)
        requires
            old(self).wf(),
        ensures
            final(self).wf(),
            final(self).did == old(self).did,
            final(self).predecessor == old(self).predecessor,
            final(self).storage == old(self).storage,
            final(self).fix_finger_index == old(self).fix_finger_index,
            ({
                let s = old(self).successor.successors@;
                let adopt = s.len() == 0 || dist(old(self).did, id) < dist(
                    old(self).did,
                    old(self).successor.max_spec(),
                );
                if id == old(self).did {
                    &&& final(self).successor == old(self).successor
                    &&& final(self).finger == old(self).finger
                    &&& r is Idle
                } else {
                    &&& (adopt ==> final(self).successor.successors@
                        == crate::successor::updated_successors(
                        old(self).did,
                        old(self).successor.cap as nat,
                        s,
                        id,
                    ))
                    &&& (!adopt ==> final(self).successor == old(self).successor)
                    &&& final(self).finger@.len() == old(self).finger@.len()
                    &&& (forall|k: int|
                        0 <= k < 160 ==> final(self).finger@[k] == finger_candidate(
                            old(self).did,
                            id,
                            k as nat,
                            old(self).finger@[k],
                        ))
                    &&& r == PeerRingAction::RemoteAction(
                        id,
                        PeerRingRemoteAction::FindSuccessor(old(self).did),
                    )
                }
            }),
    {
        if id == self.did {
            return PeerRingAction::Idle;
        }
        self.join_finger(id);
        let adopt = if self.successor.is_none() {
            true
        } else {
            let far = self.successor.max();
            let d_id = crate::did::distance(&self.did, &id);
            let d_far = crate::did::distance(&self.did, &far);
            d_id.lt(&d_far)
        };
        if adopt {
            self.successor.update(id);
        }
        PeerRingAction::RemoteAction(id, PeerRingRemoteAction::FindSuccessor(self.did))
    }

    /// Seed the finger table with a joining peer: every entry whose probe
    /// the joiner lies at or beyond, and for which it beats the present
    /// holder, now names the joiner.
    fn join_finger(&mut self, id: Did)
        requires
            old(self).wf(),
        ensures
            final(self).wf(),
            final(self).did == old(self).did,
            final(self).successor == old(self).successor,
            final(self).predecessor == old(self).predecessor,
            final(self).storage == old(self).storage,
            final(self).fix_finger_index == old(self).fix_finger_index,
            final(self).finger@.len() == old(self).finger@.len(),
            forall|k: int|
                0 <= k < 160 ==> final(self).finger@[k] == finger_candidate(
                    old(self).did,
                    id,
                    k as nat,
                    old(self).finger@[k],
                ),
    {
        let ghost f = self.finger@;
        let mut k: usize = 0;
        while k < 160
            invariant
                old(self).wf(),
                f == old(self).finger@,
                self.finger@.len() == f.len(),
                f.len() == 160,
                self.did == old(self).did,
                self.successor == old(self).successor,
                self.predecessor == old(self).predecessor,
                self.storage == old(self).storage,
                self.fix_finger_index == old(self).fix_finger_index,
                k <= 160,
                forall|j: int|
                    0 <= j < k ==> self.finger@[j] == finger_candidate(
                        old(self).did,
                        id,
                        j as nat,
                        f[j],
                    ),
                forall|j: int| k <= j < 160 ==> self.finger@[j] == f[j],
            decreases 160 - k,
        {
            let probe = did_add_pow2(&self.did, k);
            proof {
                crate::did::lemma_did_of_val(
                    ring_add(self.did.val(), pow2(k as nat) as int),
                );
                probe.lemma_val_injective(
                    crate::did::did_of_val(ring_add(self.did.val(), pow2(k as nat) as int)),
                );
            }
            let d_probe = crate::did::distance(&self.did, &probe);
            let d_id = crate::did::distance(&self.did, &id);
            if d_probe.le(&d_id) {
                let take = match self.finger[k] {
                    Option::None => true,
                    Option::Some(c) => {
                        let d_new = crate::did::distance(&probe, &id);
                        let d_cur = crate::did::distance(&probe, &c);
                        d_new.lt(&d_cur)
                    },
                };
                if take {
                    self.finger.set(k, Option::Some(id));
                }
            }
            k = k + 1;
        }
    }

    /// Find the successor of `target`: answer the closest successor when
    /// `target` is within reach of the farthest one (or none is known),
    /// else route via the closest preceding finger.
    pub fn find_successor(&self, target: Did) -> (r: PeerRingAction)
        requires
            self.wf(),
        ensures
            self.answers_locally(target) ==> r == PeerRingAction::Answer(
                self.successor.min_spec(),
            ),
            !self.answers_locally(target) && closest_preceding_from(
                self.did,
                self.finger@,
                target,
                160,
            ) == self.did ==> r == PeerRingAction::Answer(self.successor.min_spec()),
            !self.answers_locally(target) && closest_preceding_from(
                self.did,
                self.finger@,
                target,
                160,
            ) != self.did ==> r == PeerRingAction::RemoteAction(
                closest_preceding_from(self.did, self.finger@, target, 160),
                PeerRingRemoteAction::FindSuccessor(target),
            ),
    {
        let d_target = crate::did::distance(&self.did, &target);
        let far = self.successor.max();
        let d_far = crate::did::distance(&self.did, &far);
        if self.successor.is_none() || d_target.le(&d_far) {
            PeerRingAction::Answer(self.successor.min())
        } else {
            let next = self.closest_preceding_node(target);
            if next == self.did {
                // no finger precedes the target: answer rather than loop
                PeerRingAction::Answer(self.successor.min())
            } else {
                PeerRingAction::RemoteAction(next, PeerRingRemoteAction::FindSuccessor(target))
            }
        }
    }

    /// Adopt `id` as predecessor when the slot is empty or `id` lies
    /// between the present predecessor and the local node. Never fails.
    pub fn notify(&mut self, id: Did)
        requires
            old(self).wf(),
        ensures
            final(self).wf(),
            final(self).predecessor == notified_predecessor(
                old(self).predecessor,
                old(self).did,
                id,
            ),
            final(self).did == old(self).did,
            final(self).successor == old(self).successor,
            final(self).finger == old(self).finger,
            final(self).storage == old(self).storage,
            final(self).fix_finger_index == old(self).fix_finger_index,
    {
        match self.predecessor {
            Option::None => {
                self.predecessor = Option::Some(id);
            },
            Option::Some(p) => {
                let d_pi = crate::did::distance(&p, &id);
                let d_ps = crate::did::distance(&p, &self.did);
                let zero = Did::new(0, 0);
                if zero.lt(&d_pi) && d_pi.lt(&d_ps) {
                    self.predecessor = Option::Some(id);
                }
            },
        }
    }

    /// One fix tick: probe the successor of `did + 2^fix_finger_index`. A
    /// local answer fills the entry under the cursor and advances it; a
    /// remote probe is returned for the caller to send, and the cursor
    /// stays on the entry until the report comes back.
    pub fn fix_fingers(&mut self) -> (r: PeerRingAction)
        requires
            old(self).wf(),
        ensures
            final(self).wf(),
            final(self).did == old(self).did,
            final(self).successor == old(self).successor,
            final(self).predecessor == old(self).predecessor,
            final(self).storage == old(self).storage,
            ({
                let probe = old(self).fix_probe();
                let hop = closest_preceding_from(old(self).did, old(self).finger@, probe, 160);
                let local = old(self).answers_locally(probe) || hop == old(self).did;
                &&& (local ==> {
                    &&& r is Idle
                    &&& final(self).finger@ == old(self).finger@.update(
                        old(self).fix_finger_index as int,
                        Option::Some(old(self).successor.min_spec()),
                    )
                    &&& final(self).fix_finger_index == (old(self).fix_finger_index + 1) % (
                    FINGER_TABLE_SIZE as int)
                })
                &&& (!local ==> {
                    &&& r == PeerRingAction::RemoteAction(
                        hop,
                        PeerRingRemoteAction::FindSuccessorForFix(probe),
                    )
                    &&& final(self).finger == old(self).finger
                    &&& final(self).fix_finger_index == old(self).fix_finger_index
                })
            }),
    {
        let probe = did_add_pow2(&self.did, self.fix_finger_index);
        proof {
            crate::did::lemma_did_of_val(
                ring_add(self.did.val(), pow2(self.fix_finger_index as nat) as int),
            );
            probe.lemma_val_injective(self.fix_probe());
        }
        let act = self.find_successor(probe);
        match act {
            PeerRingAction::Answer(v) => {
                let idx = self.fix_finger_index;
                self.finger.set(idx, Option::Some(v));
                self.advance_fix_cursor();
                PeerRingAction::Idle
            },
            PeerRingAction::RemoteAction(n, _) => {
                PeerRingAction::RemoteAction(n, PeerRingRemoteAction::FindSuccessorForFix(probe))
            },
            _ => PeerRingAction::Idle,
        }
    }

    /// Move the fix cursor to the next finger entry, wrapping at the end
    /// of the table.
    pub fn advance_fix_cursor(&mut self)
        requires
            old(self).wf(),
        ensures
            final(self).wf(),
            final(self).fix_finger_index == (old(self).fix_finger_index + 1) % (
            FINGER_TABLE_SIZE as int),
            final(self).did == old(self).did,
            final(self).successor == old(self).successor,
            final(self).finger == old(self).finger,
            final(self).predecessor == old(self).predecessor,
            final(self).storage == old(self).storage,
    {
        if self.fix_finger_index >= 159 {
            self.fix_finger_index = 0;
        } else {
            self.fix_finger_index = self.fix_finger_index + 1;
        }
    }

    /// Record the answer of a finger probe in the entry under the cursor,
    /// then advance the cursor.
    pub fn set_fixed_finger(&mut self, id: Did)
        requires
            old(self).wf(),
        ensures
            final(self).wf(),
            final(self).finger@ == old(self).finger@.update(
                old(self).fix_finger_index as int,
                Option::Some(id),
            ),
            final(self).fix_finger_index == (old(self).fix_finger_index + 1) % (
            FINGER_TABLE_SIZE as int),
            final(self).did == old(self).did,
            final(self).successor == old(self).successor,
            final(self).predecessor == old(self).predecessor,
            final(self).storage == old(self).storage,
    {
        let idx = self.fix_finger_index;
        self.finger.set(idx, Option::Some(id));
        self.advance_fix_cursor();
    }

    /// Partition the local store against a new successor: entries outside
    /// `(did, new_successor]` migrate to it, the rest stay.
    pub fn sync_with_successor(&mut self, new_successor: Did) -> (r: PeerRingAction)
        requires
            old(self).wf(),
        ensures
            final(self).wf(),
            final(self).storage@ == kept_values(old(self).storage@, old(self).did, new_successor),
            final(self).did == old(self).did,
            final(self).successor == old(self).successor,
            final(self).finger == old(self).finger,
            final(self).predecessor == old(self).predecessor,
            final(self).fix_finger_index == old(self).fix_finger_index,
            ({
                &&& r matches PeerRingAction::RemoteAction(n, act)
                &&& n == new_successor
                &&& act matches PeerRingRemoteAction::SyncVNodeWithSuccessor(vs)
                &&& vs@ == moved_values(old(self).storage@, old(self).did, new_successor)
            }),
    {
        let ghost s = old(self).storage@;
        let ghost base = old(self).did;
        let mut rest: Vec<VirtualNode> = Vec::new();
        core::mem::swap(&mut rest, &mut self.storage);
        let mut kept: Vec<VirtualNode> = Vec::new();
        let mut moved: Vec<VirtualNode> = Vec::new();
        proof {
            assert(s.subrange(0, 0) =~= Seq::<VirtualNode>::empty());
            assert(rest@ =~= s.subrange(0, s.len() as int));
        }
        while rest.len() > 0
            invariant
                old(self).wf(),
                self.did == old(self).did,
                self.successor == old(self).successor,
                self.finger == old(self).finger,
                self.predecessor == old(self).predecessor,
                self.fix_finger_index == old(self).fix_finger_index,
                base == old(self).did,
                s == old(self).storage@,
                rest@.len() <= s.len(),
                rest@ == s.subrange(s.len() - rest@.len(), s.len() as int),
                kept@ == kept_values(
                    s.subrange(0, s.len() - rest@.len()),
                    base,
                    new_successor,
                ),
                moved@ == moved_values(
                    s.subrange(0, s.len() - rest@.len()),
                    base,
                    new_successor,
                ),
            decreases rest@.len(),
        {
            let ghost i = s.len() - rest@.len();
            let entry = rest.remove(0);
            proof {
                assert(entry == s[i as int]);
                assert(rest@ =~= s.subrange(i as int + 1, s.len() as int));
                let pre = s.subrange(0, i as int);
                let post = s.subrange(0, i as int + 1);
                assert(post.drop_last() =~= pre);
                assert(post.last() == s[i as int]);
            }
            let local = self.did;
            let d_v = crate::did::distance(&local, &entry.did);
            let d_s = crate::did::distance(&local, &new_successor);
            let zero = Did::new(0, 0);
            if zero.lt(&d_v) && d_v.le(&d_s) {
                kept.push(entry);
            } else {
                moved.push(entry);
            }
        }
        proof {
            assert(s.subrange(0, s.len() as int) =~= s);
            lemma_kept_distinct(s, base, new_successor);
        }
        self.storage = kept;
        PeerRingAction::RemoteAction(
            new_successor,
            PeerRingRemoteAction::SyncVNodeWithSuccessor(moved),
        )
    }

    /// Drop a departed peer from the successor list, the finger table and
    /// the predecessor slot.
    pub fn remove(&mut self, id: Did)
        requires
            old(self).wf(),
        ensures
            final(self).wf(),
            final(self).successor.successors@ == old(self).successor.successors@.remove_value(id),
            final(self).predecessor == (if old(self).predecessor == Option::Some(id) {
                Option::<Did>::None
            } else {
                old(self).predecessor
            }),
            final(self).finger@.len() == old(self).finger@.len(),
            forall|i: int|
                0 <= i < old(self).finger@.len() ==> final(self).finger@[i] == (if old(
                    self,
                ).finger@[i] == Option::Some(id) {
                    Option::<Did>::None
                } else {
                    old(self).finger@[i]
                }),
            final(self).did == old(self).did,
            final(self).storage == old(self).storage,
            final(self).fix_finger_index == old(self).fix_finger_index,
    {
        let ghost f = self.finger@;
        let mut i: usize = 0;
        while i < self.finger.len()
            invariant
                old(self).wf(),
                self.finger@.len() == f.len(),
                f == old(self).finger@,
                i <= f.len(),
                self.did == old(self).did,
                self.successor == old(self).successor,
                self.predecessor == old(self).predecessor,
                self.storage == old(self).storage,
                self.fix_finger_index == old(self).fix_finger_index,
                forall|k: int|
                    0 <= k < i ==> self.finger@[k] == (if f[k] == Option::Some(id) {
                        Option::<Did>::None
                    } else {
                        f[k]
                    }),
                forall|k: int| i <= k < f.len() ==> self.finger@[k] == f[k],
            decreases f.len() - i,
        {
            let mut clear = false;
            match self.finger[i] {
                Option::Some(g) => {
                    if g == id {
                        clear = true;
                    }
                },
                Option::None => {},
            }
            if clear {
                self.finger.set(i, Option::None);
            }
            i = i + 1;
        }
        self.successor.remove(id);
        match self.predecessor {
            Option::Some(p) => {
                if p == id {
                    self.predecessor = Option::None;
                }
            },
            Option::None => {},
        }
    }

    /// Whether some stored entry carries this key.
    pub open spec fn stores_spec(self, id: Did) -> bool {
        exists|j: int| 0 <= j < self.storage@.len() && self.storage@[j].did == id
    }

    /// Look a stored value up by its key.
    pub fn lookup(&self, id: Did) -> (r: Option<&VirtualNode>)
        ensures
            r is Some <==> self.stores_spec(id),
            r matches Some(v) ==> self.storage@.contains(*v) && v.did == id,
    {
        let mut i: usize = 0;
        while i < self.storage.len()
            invariant
                i <= self.storage@.len(),
                forall|j: int| 0 <= j < i ==> self.storage@[j].did != id,
            decreases self.storage@.len() - i,
        {
            if self.storage[i].did == id {
                return Option::Some(&self.storage[i]);
            }
            i = i + 1;
        }
        Option::None
    }

    /// Merge one value into the local store: replace the entry under the
    /// same key, or append a fresh one.
    pub fn store(&mut self, v: VirtualNode)
        requires
            old(self).wf(),
        ensures
            final(self).wf(),
            final(self).did == old(self).did,
            final(self).successor == old(self).successor,
            final(self).finger == old(self).finger,
            final(self).predecessor == old(self).predecessor,
            final(self).fix_finger_index == old(self).fix_finger_index,
            old(self).stores_spec(v.did) ==> {
                &&& final(self).storage@.len() == old(self).storage@.len()
                &&& exists|j: int|
                    0 <= j < old(self).storage@.len() && old(self).storage@[j].did == v.did
                        && final(self).storage@ == old(self).storage@.update(j, v)
            },
            !old(self).stores_spec(v.did) ==> final(self).storage@ == old(self).storage@.push(v),
    {
        let ghost s = self.storage@;
        let mut i: usize = 0;
        while i < self.storage.len()
            invariant
                old(self).wf(),
                self == old(self),
                s == self.storage@,
                i <= s.len(),
                forall|j: int| 0 <= j < i ==> s[j].did != v.did,
            decreases s.len() - i,
        {
            if self.storage[i].did == v.did {
                self.storage.set(i, v);
                proof {
                    assert(self.storage@ =~= s.update(i as int, v));
                }
                return;
            }
            i = i + 1;
        }
        self.storage.push(v);
    }

    /// Depart: hand the whole local store to the immediate successor, or
    /// do nothing when no successor is known.
    pub fn leave(&mut self) -> (r: PeerRingAction)
        requires
            old(self).wf(),
        ensures
            final(self).wf(),
            final(self).did == old(self).did,
            old(self).successor.successors@.len() == 0 ==> {
                &&& r is Idle
                &&& *final(self) == *old(self)
            },
            old(self).successor.successors@.len() > 0 ==> {
                &&& final(self).storage@.len() == 0
                &&& r matches PeerRingAction::RemoteAction(n, act)
                &&& n == old(self).successor.min_spec()
                &&& act matches PeerRingRemoteAction::SyncVNodeWithSuccessor(vs)
                &&& vs@ == old(self).storage@
            },
    {
        if self.successor.is_none() {
            return PeerRingAction::Idle;
        }
        let target = self.successor.min();
        let mut values: Vec<VirtualNode> = Vec::new();
        core::mem::swap(&mut values, &mut self.storage);
        PeerRingAction::RemoteAction(target, PeerRingRemoteAction::SyncVNodeWithSuccessor(values))
    }
}

/// Notifying twice with the same candidate changes nothing more than
/// notifying once.
pub proof fn lemma_notify_idempotent(pred: Option<Did>, base: Did, id: Did)
    ensures
        notified_predecessor(notified_predecessor(pred, base, id), base, id)
            == notified_predecessor(pred, base, id),
{
}

/// With no successor yet, asking for any successor — the local node's own
/// included — answers the local node itself; and whenever some successor
/// is listed, asking for the local node's own successor answers the head
/// of the list.
pub proof fn lemma_find_successor_self(r: PeerRing)
    requires
        r.wf(),
    ensures
        r.answers_locally(r.did),
        r.successor.successors@.len() == 0 ==> r.successor.min_spec() == r.did,
        r.successor.successors@.len() > 0 ==> r.successor.min_spec()
            == r.successor.successors@[0],
{
}

/// `base + 2^i` on the ring.
pub fn did_add_pow2(d: &Did, i: usize) -> (r: Did)
    requires
        i < 160,
    ensures
        r.val() == ring_add(d.val(), pow2(i as nat) as int),
{
    proof {
        vstd::arithmetic::power2::lemma2_to64();
        vstd::arithmetic::power2::lemma_pow2_adds(64, 64);
        vstd::arithmetic::power2::lemma_pow2_adds(128, 32);
    }
    if i < 128 {
        let mut p: u128 = 1;
        let mut j: usize = 0;
        while j < i
            invariant
                j <= i,
                i < 128,
                p as int == pow2(j as nat),
            decreases i - j,
        {
            proof {
                vstd::arithmetic::power2::lemma2_to64();
                vstd::arithmetic::power2::lemma_pow2_adds(64, 64);
                vstd::arithmetic::power2::lemma_pow2_unfold((j + 1) as nat);
                vstd::arithmetic::power2::lemma_pow2_strictly_increases(
                    (j + 1) as nat,
                    128,
                );
            }
            p = p * 2;
            j = j + 1;
        }
        proof {
            vstd::arithmetic::power2::lemma_pow2_strictly_increases(i as nat, 128);
        }
        if d.lo <= u128::MAX - p {
            Did { hi: d.hi, lo: d.lo + p }
        } else {
            let lo = d.lo - ((u128::MAX - p) + 1);
            let hi: u32 = if d.hi == u32::MAX {
                0
            } else {
                d.hi + 1
            };
            Did { hi, lo }
        }
    } else {
        let sh = i - 128;
        let mut p: u32 = 1;
        let mut j: usize = 0;
        while j < sh
            invariant
                j <= sh,
                sh < 32,
                p as int == pow2(j as nat),
            decreases sh - j,
        {
            proof {
                vstd::arithmetic::power2::lemma2_to64();
                vstd::arithmetic::power2::lemma_pow2_unfold((j + 1) as nat);
                vstd::arithmetic::power2::lemma_pow2_strictly_increases((j + 1) as nat, 32);
            }
            p = p * 2;
            j = j + 1;
        }
        proof {
            vstd::arithmetic::power2::lemma_pow2_strictly_increases(sh as nat, 32);
            vstd::arithmetic::power2::lemma_pow2_adds(128, sh as nat);
            vstd::arithmetic::power2::lemma2_to64();
            vstd::arithmetic::power2::lemma_pow2_adds(64, 64);
        }
        let hi: u32 = if d.hi <= u32::MAX - p {
            d.hi + p
        } else {
            d.hi - ((u32::MAX - p) + 1)
        };
        Did { hi, lo: d.lo }
    }
}

} // verus!
