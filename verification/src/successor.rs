//! The bounded successor list of a ring node.
//!
//! A node keeps up to `cap` distinct live successors, ordered by ascending
//! bias from the local identifier; the first entry is the immediate
//! successor. While the list is empty, `min` and `max` answer the local
//! identifier itself.

use crate::did::bias;
use crate::did::Did;
use vstd::prelude::*;

verus! {

/// Ordered bounded list of successor identifiers.
#[derive(Clone, Debug)]
pub struct SuccessorList {
    /// The local identifier distances are measured from.
    pub did: Did,
    /// Upper bound on the number of entries.
    pub cap: usize,
    /// The successors, sorted by ascending bias from `did`.
    pub successors: Vec<Did>,
}

/// Strictly ascending bias from `base` along the whole sequence.
pub open spec fn sorted_by_bias(base: Did, s: Seq<Did>) -> bool {
    forall|i: int, j: int| 0 <= i < j < s.len() ==> bias(base, s[i]) < bias(base, s[j])
}

/// No entry is the origin itself.
pub open spec fn free_of(base: Did, s: Seq<Did>) -> bool {
    forall|i: int| 0 <= i < s.len() ==> s[i] != base
}

/// The index where `id` belongs in a list sorted by bias from `base`: the
/// first position whose entry is at least as far as `id`.
pub open spec fn insert_point(base: Did, s: Seq<Did>, id: Did) -> int
    decreases s.len(),
{
    if s.len() == 0 {
        0
    } else if bias(base, s[0]) >= bias(base, id) {
        0
    } else {
        1 + insert_point(base, s.skip(1), id)
    }
}

/// The successor sequence after learning of `id`: unchanged when `id` is
/// the origin or already present; otherwise `id` enters at its sorted
/// position and the sequence is clipped back to `cap` entries from the far
/// end.
pub open spec fn updated_successors(base: Did, cap: nat, s: Seq<Did>, id: Did) -> Seq<Did> {
    if id == base || s.contains(id) {
        s
    } else {
        let grown = s.insert(insert_point(base, s, id), id);
        if grown.len() > cap {
            grown.take(cap as int)
        } else {
            grown
        }
    }
}

pub proof fn lemma_insert_point_bounds(base: Did, s: Seq<Did>, id: Did)
    ensures
        0 <= insert_point(base, s, id) <= s.len(),
        forall|k: int| 0 <= k < insert_point(base, s, id) ==> bias(base, s[k]) < bias(base, id),
        insert_point(base, s, id) < s.len() ==> bias(base, s[insert_point(base, s, id)]) >= bias(
            base,
            id,
        ),
    decreases s.len(),
{
    if s.len() > 0 && bias(base, s[0]) < bias(base, id) {
        lemma_insert_point_bounds(base, s.skip(1), id);
        assert(forall|k: int| 0 <= k < s.skip(1).len() ==> s.skip(1)[k] == s[k + 1]);
        let p = insert_point(base, s, id);
        assert(p == 1 + insert_point(base, s.skip(1), id));
        assert forall|k: int| 0 <= k < p implies bias(base, s[k]) < bias(base, id) by {
            if k > 0 {
                assert(s.skip(1)[k - 1] == s[k]);
            }
        };
        if p < s.len() {
            assert(s.skip(1)[p - 1] == s[p]);
        }
    }
}

/// Inserting at the computed point keeps the sequence sorted and free of
/// the origin.
pub proof fn lemma_insert_keeps_sorted(base: Did, s: Seq<Did>, id: Did)
    requires
        sorted_by_bias(base, s),
        free_of(base, s),
        id != base,
        !s.contains(id),
    ensures
        sorted_by_bias(base, s.insert(insert_point(base, s, id), id)),
        free_of(base, s.insert(insert_point(base, s, id), id)),
        s.insert(insert_point(base, s, id), id).len() == s.len() + 1,
{
    let p = insert_point(base, s, id);
    lemma_insert_point_bounds(base, s, id);
    let t = s.insert(p, id);
    assert(forall|k: int| 0 <= k < p ==> t[k] == s[k]);
    assert(t[p] == id);
    assert(forall|k: int| p < k <= s.len() ==> t[k] == s[k - 1]);
    assert forall|i: int, j: int| 0 <= i < j < t.len() implies bias(base, t[i]) < bias(
        base,
        t[j],
    ) by {
        if i == p && j > p {
            // the entry displaced to j differs from id, so its bias is
            // strictly larger
            crate::did::lemma_dist_injective(base, id, s[j - 1]);
        } else if j == p && i < p {
        } else {
        }
    };
}

impl SuccessorList {
    /// The list is well formed: bounded by `cap`, free of the local id,
    /// and strictly sorted by ascending bias from it. Strict sortedness
    /// rules out duplicates.
    pub open spec fn wf(self) -> bool {
        &&& self.successors@.len() <= self.cap
        &&& free_of(self.did, self.successors@)
        &&& sorted_by_bias(self.did, self.successors@)
    }

    /// The immediate successor, or the local id while the list is empty.
    pub open spec fn min_spec(self) -> Did {
        if self.successors@.len() == 0 {
            self.did
        } else {
            self.successors@[0]
        }
    }

    /// The farthest listed successor, or the local id while the list is
    /// empty.
    pub open spec fn max_spec(self) -> Did {
        if self.successors@.len() == 0 {
            self.did
        } else {
            self.successors@.last()
        }
    }

    /// An empty list with the given bound.
    pub fn new(did: Did, cap: usize) -> (r: SuccessorList)
        ensures
            r.did == did,
            r.cap == cap,
            r.successors@ =~= Seq::<Did>::empty(),
            r.wf(),
    {
        SuccessorList { did, cap, successors: Vec::new() }
    }

    /// Whether no successor is known.
    pub fn is_none(&self) -> (r: bool)
        ensures
            r == (self.successors@.len() == 0),
    {
        self.successors.len() == 0
    }

    /// The immediate successor, or the local id while the list is empty.
    pub fn min(&self) -> (r: Did)
        ensures
            r == self.min_spec(),
    {
        if self.successors.len() == 0 {
            self.did
        } else {
            self.successors[0]
        }
    }

    /// The farthest listed successor, or the local id while the list is
    /// empty.
    pub fn max(&self) -> (r: Did)
        ensures
            r == self.max_spec(),
    {
        if self.successors.len() == 0 {
            self.did
        } else {
            self.successors[self.successors.len() - 1]
        }
    }

    /// A copy of the ordered successors.
    pub fn list(&self) -> (r: Vec<Did>)
        ensures
            r@ == self.successors@,
    {
        let mut out: Vec<Did> = Vec::new();
        let mut i: usize = 0;
        while i < self.successors.len()
            invariant
                i <= self.successors@.len(),
                out@ =~= self.successors@.subrange(0, i as int),
            decreases self.successors@.len() - i,
        {
            out.push(self.successors[i]);
            proof {
                assert(out@ =~= self.successors@.subrange(0, i + 1));
            }
            i = i + 1;
        }
        proof {
            assert(out@ =~= self.successors@);
        }
        out
    }

    /// Whether `id` is listed.
    pub fn contains(&self, id: Did) -> (r: bool)
        ensures
            r == self.successors@.contains(id),
    {
        let mut i: usize = 0;
        while i < self.successors.len()
            invariant
                i <= self.successors@.len(),
                forall|k: int| 0 <= k < i ==> self.successors@[k] != id,
            decreases self.successors@.len() - i,
        {
            if self.successors[i] == id {
                return true;
            }
            i = i + 1;
        }
        false
    }

    /// Learn of `id`, keeping order, distinctness and the bound.
    pub fn update(&mut self, id: Did)
        requires
            old(self).wf(),
        ensures
            final(self).successors@ == updated_successors(
                old(self).did,
                old(self).cap as nat,
                old(self).successors@,
                id,
            ),
            final(self).wf(),
            final(self).did == old(self).did,
            final(self).cap == old(self).cap,
    {
        if id == self.did {
            return;
        }
        let ghost s = self.successors@;
        let ghost base = self.did;
        let mut i: usize = 0;
        while i < self.successors.len()
            invariant
                self == old(self),
                old(self).wf(),
                s == self.successors@,
                base == self.did,
                id != base,
                i <= s.len(),
                forall|k: int| 0 <= k < i ==> bias(base, s[k]) < bias(base, id),
                forall|k: int| 0 <= k < i ==> s[k] != id,
            decreases s.len() - i,
        {
            let here = self.successors[i];
            if here == id {
                return;
            }
            let local = self.did;
            let d_here = crate::did::distance(&local, &here);
            let d_id = crate::did::distance(&local, &id);
            if d_id.le(&d_here) {
                // `id` is at least as close as this entry, and the two
                // differ, so `id` belongs exactly here.
                proof {
                    crate::did::lemma_dist_injective(base, here, id);
                    assert(old(self).wf());
                    assert forall|k: int| i <= k < s.len() implies s[k] != id by {
                        if k > i {
                            assert(bias(base, s[i as int]) < bias(base, s[k]));
                        }
                        crate::did::lemma_dist_injective(base, s[k], id);
                    };
                    assert(!s.contains(id));
                    lemma_insert_point_bounds(base, s, id);
                    assert(insert_point(base, s, id) == i);
                    lemma_insert_keeps_sorted(base, s, id);
                }
                self.insert_at(i, id);
                return;
            }
            i = i + 1;
        }
        // Every entry is strictly closer than `id`: it belongs at the end.
        proof {
            assert(!s.contains(id));
            lemma_insert_point_bounds(base, s, id);
            assert(insert_point(base, s, id) == s.len());
            lemma_insert_keeps_sorted(base, s, id);
        }
        let at = self.successors.len();
        self.insert_at(at, id);
    }

    /// Insert `id` at position `at` and clip back to the bound.
    fn insert_at(&mut self, at: usize, id: Did)
        requires
            at <= old(self).successors@.len(),
            old(self).successors@.len() <= old(self).cap,
            at == insert_point(old(self).did, old(self).successors@, id),
            id != old(self).did,
            !old(self).successors@.contains(id),
            sorted_by_bias(
                old(self).did,
                old(self).successors@.insert(at as int, id),
            ),
            free_of(old(self).did, old(self).successors@.insert(at as int, id)),
        ensures
            final(self).successors@ == updated_successors(
                old(self).did,
                old(self).cap as nat,
                old(self).successors@,
                id,
            ),
            final(self).wf(),
            final(self).did == old(self).did,
            final(self).cap == old(self).cap,
    {
        let ghost s = self.successors@;
        let ghost base = self.did;
        let ghost grown = s.insert(at as int, id);
        self.successors.insert(at, id);
        if self.successors.len() > self.cap {
            let clip = self.cap;
            self.successors.truncate(clip);
            proof {
                assert(self.successors@ =~= grown.take(self.cap as int));
                assert forall|k: int|
                    0 <= k < self.successors@.len() implies self.successors@[k] == grown[k] by {};
            }
        }
    }

    /// Forget `id` if it is listed; order and well-formedness persist.
    pub fn remove(&mut self, id: Did)
        requires
            old(self).wf(),
        ensures
            final(self).successors@ == old(self).successors@.remove_value(id),
            final(self).wf(),
            final(self).did == old(self).did,
            final(self).cap == old(self).cap,
    {
        let ghost s = self.successors@;
        let mut i: usize = 0;
        while i < self.successors.len()
            invariant
                self == old(self),
                old(self).wf(),
                s == self.successors@,
                i <= s.len(),
                forall|k: int| 0 <= k < i ==> s[k] != id,
            decreases s.len() - i,
        {
            if self.successors[i] == id {
                proof {
                    s.index_of_first_ensures(id);
                }
                self.successors.remove(i);
                proof {
                    assert(s.contains(id));
                    assert(s.index_of_first(id) == Some(i as int));
                    assert(self.successors@ =~= s.remove_value(id));
                    assert(old(self).wf());
                    assert forall|a: int, b: int|
                        0 <= a < b < self.successors@.len() implies bias(
                        old(self).did,
                        self.successors@[a],
                    ) < bias(old(self).did, self.successors@[b]) by {
                        let sa: int = if a < i { a } else { a + 1 };
                        let sb: int = if b < i { b } else { b + 1 };
                        assert(self.successors@[a] == s[sa]);
                        assert(self.successors@[b] == s[sb]);
                    };
                }
                return;
            }
            i = i + 1;
        }
        proof {
            assert(!s.contains(id));
            s.index_of_first_ensures(id);
            assert(s.remove_value(id) == s);
        }
    }
}

/// A well-formed successor list is sorted strictly ascending by bias from
/// the local identifier and holds no duplicate entries.
pub proof fn lemma_successor_list_sorted_distinct(s: &SuccessorList)
    requires
        s.wf(),
    ensures
        sorted_by_bias(s.did, s.successors@),
        forall|i: int, j: int|
            0 <= i < j < s.successors@.len() ==> s.successors@[i] != s.successors@[j],
{
}

} // verus!
