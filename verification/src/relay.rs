//! The source-routing header carried by every payload.
//!
//! A SEND payload records the hops it passes; a REPORT reuses the recorded
//! path in reverse, popping the active tail by advancing `path_end_cursor`
//! until the report stands at the original sender.

use crate::did::Did;
use crate::error::Error;
use vstd::prelude::*;

verus! {

/// Whether a payload travels outward or back along its recorded path.
#[derive(Clone, Copy, Debug, PartialEq, Eq, Structural)]
pub enum RelayMethod {
    /// Outward: each hop appends itself to the path.
    SEND,
    /// Backward: each hop advances the cursor along the recorded path.
    REPORT,
}

/// The routing header.
#[derive(Clone, Debug)]
pub struct MessageRelay {
    /// Outward or backward.
    pub method: RelayMethod,
    /// The hops recorded so far; `path[0]` is the original sender.
    pub path: Vec<Did>,
    /// How much of the path's tail a REPORT has consumed.
    pub path_end_cursor: usize,
    /// Where to forward next; empty at the final hop.
    pub next_hop: Option<Did>,
    /// The target of a SEND; the origin of the path for a REPORT.
    pub destination: Did,
}

/// The hop a REPORT standing at cursor `c` is forwarded to: the path entry
/// before the active tail, or nothing once the cursor has consumed the
/// path down to its origin.
pub open spec fn report_next(path: Seq<Did>, c: int) -> Option<Did> {
    if path.len() - 2 - c >= 0 {
        Option::Some(path[path.len() - 2 - c])
    } else {
        Option::None
    }
}

impl MessageRelay {
    /// Structural soundness: a non-empty path, a cursor inside it, and no
    /// consumed tail on an outward payload.
    pub open spec fn wf(self) -> bool {
        &&& self.path@.len() >= 1
        &&& self.path_end_cursor < self.path@.len()
        &&& self.method is SEND ==> self.path_end_cursor == 0
    }

    /// A fresh outward header: the author is the whole path.
    pub fn new_send(origin: Did, next_hop: Did, destination: Did) -> (r: MessageRelay)
        ensures
            r.method is SEND,
            r.path@ == seq![origin],
            r.path_end_cursor == 0,
            r.next_hop == Option::Some(next_hop),
            r.destination == destination,
            r.wf(),
    {
        let mut path: Vec<Did> = Vec::new();
        path.push(origin);
        proof {
            assert(path@ =~= seq![origin]);
        }
        MessageRelay {
            method: RelayMethod::SEND,
            path,
            path_end_cursor: 0,
            next_hop: Option::Some(next_hop),
            destination,
        }
    }

    /// The original sender, while the path is non-empty.
    pub fn origin(&self) -> (r: Option<Did>)
        ensures
            self.path@.len() == 0 ==> r is None,
            self.path@.len() > 0 ==> r == Option::Some(self.path@[0]),
    {
        if self.path.len() == 0 {
            Option::None
        } else {
            Option::Some(self.path[0])
        }
    }

    /// Record the present hop. Outward, `current` joins the path and
    /// `next` becomes the next hop; backward, `next` must be empty, the
    /// cursor advances, and the next hop is read off the recorded path.
    /// A malformed header, a backward header with an explicit next hop, or
    /// a backward header whose cursor would leave the path is refused
    /// unchanged.
    pub fn relay(&mut self, current: Did, next: Option<Did>) -> (r: Result<(), Error>)
        ensures
            r is Ok <==> (old(self).wf() && (old(self).method is REPORT ==> next is None && old(
                self,
            ).path_end_cursor + 2 <= old(self).path@.len())),
            r is Err ==> *final(self) == *old(self) && r == Result::<(), Error>::Err(
                Error::InvalidPayload,
            ),
            r is Ok && old(self).method is SEND ==> {
                &&& final(self).method is SEND
                &&& final(self).path@ == old(self).path@.push(current)
                &&& final(self).path_end_cursor == old(self).path_end_cursor
                &&& final(self).next_hop == next
                &&& final(self).destination == old(self).destination
                &&& final(self).wf()
            },
            r is Ok && old(self).method is REPORT ==> {
                &&& final(self).method is REPORT
                &&& final(self).path@ == old(self).path@
                &&& final(self).path_end_cursor == old(self).path_end_cursor + 1
                &&& final(self).next_hop == report_next(
                    old(self).path@,
                    old(self).path_end_cursor + 1,
                )
                &&& final(self).destination == old(self).destination
                &&& final(self).wf()
            },
    {
        if self.path.len() == 0 || self.path_end_cursor >= self.path.len() {
            return Result::Err(Error::InvalidPayload);
        }
        match self.method {
            RelayMethod::SEND => {
                if self.path_end_cursor != 0 {
                    return Result::Err(Error::InvalidPayload);
                }
                self.path.push(current);
                self.next_hop = next;
                Result::Ok(())
            },
            RelayMethod::REPORT => {
                match next {
                    Option::Some(_) => Result::Err(Error::InvalidPayload),
                    Option::None => {
                        if self.path.len() - self.path_end_cursor < 2 {
                            return Result::Err(Error::InvalidPayload);
                        }
                        self.path_end_cursor = self.path_end_cursor + 1;
                        let n = self.path.len();
                        let c = self.path_end_cursor;
                        if n - c >= 2 {
                            self.next_hop = Option::Some(self.path[n - 2 - c]);
                        } else {
                            self.next_hop = Option::None;
                        }
                        Result::Ok(())
                    },
                }
            },
        }
    }

    /// Turn a fully recorded outward header into the backward header of
    /// its reply: same path, cursor at the start, destination the original
    /// sender, next hop the entry before the present one. Refused on a
    /// backward header or a path still too short to walk back.
    pub fn report(&self) -> (r: Result<MessageRelay, Error>)
        ensures
            r is Ok <==> (self.wf() && self.method is SEND && self.path@.len() >= 2),
            r matches Ok(rep) ==> {
                &&& rep.method is REPORT
                &&& rep.path@ == self.path@
                &&& rep.path_end_cursor == 0
                &&& rep.next_hop == Option::Some(self.path@[self.path@.len() - 2])
                &&& rep.destination == self.path@[0]
                &&& rep.wf()
            },
            r is Err ==> r == Result::<MessageRelay, Error>::Err(Error::InvalidPayload),
    {
        if self.path.len() < 2 || self.path_end_cursor != 0 {
            return Result::Err(Error::InvalidPayload);
        }
        match self.method {
            RelayMethod::REPORT => Result::Err(Error::InvalidPayload),
            RelayMethod::SEND => {
                let mut path: Vec<Did> = Vec::new();
                let mut i: usize = 0;
                while i < self.path.len()
                    invariant
                        i <= self.path@.len(),
                        path@ =~= self.path@.subrange(0, i as int),
                    decreases self.path@.len() - i,
                {
                    path.push(self.path[i]);
                    proof {
                        assert(path@ =~= self.path@.subrange(0, i + 1));
                    }
                    i = i + 1;
                }
                proof {
                    assert(path@ =~= self.path@);
                }
                let n = path.len();
                let next = path[n - 2];
                let destination = path[0];
                Result::Ok(
                    MessageRelay {
                        method: RelayMethod::REPORT,
                        path,
                        path_end_cursor: 0,
                        next_hop: Option::Some(next),
                        destination,
                    },
                )
            },
        }
    }

    /// Redirect an outward payload: overwrite the destination. Refused on
    /// a backward header, which must return to its origin.
    pub fn reset_destination(&mut self, next: Did) -> (r: Result<(), Error>)
        ensures
            r is Ok <==> old(self).method is SEND,
            r is Ok ==> {
                &&& final(self).method == old(self).method
                &&& final(self).path == old(self).path
                &&& final(self).path_end_cursor == old(self).path_end_cursor
                &&& final(self).next_hop == old(self).next_hop
                &&& final(self).destination == next
            },
            r is Err ==> *final(self) == *old(self) && r == Result::<(), Error>::Err(
                Error::InvalidPayload,
            ),
    {
        match self.method {
            RelayMethod::SEND => {
                self.destination = next;
                Result::Ok(())
            },
            RelayMethod::REPORT => Result::Err(Error::InvalidPayload),
        }
    }
}

/// REPORT forwarding walks the recorded SEND path `p = [a, b, …, y, z]`
/// backwards: with the cursor at `k` the report is forwarded to
/// `p[p.len() - 2 - k]`, so the hops read `y, …, b, a` as the cursor
/// climbs, and once the cursor reaches the entry after the origin the next
/// hop is empty — the report has arrived at `a`.
pub proof fn lemma_report_path_reversal(p: Seq<Did>, k: int)
    requires
        p.len() >= 2,
        0 <= k,
    ensures
        k <= p.len() - 2 ==> report_next(p, k) == Option::Some(p[p.len() - 2 - k]),
        k > p.len() - 2 ==> report_next(p, k) is None,
        report_next(p, p.len() - 2) == Option::Some(p[0]),
        report_next(p, p.len() - 1) is None,
{
}

} // verus!
