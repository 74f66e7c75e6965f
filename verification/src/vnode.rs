//! Virtual nodes: DHT keys with the opaque bytes stored under them.

use crate::did::Did;
use vstd::prelude::*;

verus! {

/// A virtual node: a ring identifier serving as DHT key, together with the
/// bytes stored at the responsible real node.
#[derive(Debug, PartialEq, Eq)]
pub struct VirtualNode {
    /// The key the value lives under.
    pub did: Did,
    /// The stored bytes; opaque to the overlay.
    pub data: Vec<u8>,
}

/// Byte-for-byte copy of a buffer.
pub fn clone_bytes(v: &Vec<u8>) -> (r: Vec<u8>)
    ensures
        r@ == v@,
{
    let mut out: Vec<u8> = Vec::new();
    let mut i: usize = 0;
    while i < v.len()
        invariant
            i <= v@.len(),
            out@ =~= v@.subrange(0, i as int),
        decreases v@.len() - i,
    {
        out.push(v[i]);
        proof {
            assert(out@ =~= v@.subrange(0, i + 1));
        }
        i = i + 1;
    }
    proof {
        assert(out@ =~= v@);
    }
    out
}

impl VirtualNode {
    /// Pair a key with its value.
    pub fn new(did: Did, data: Vec<u8>) -> (r: VirtualNode)
        ensures
            r.did == did,
            r.data == data,
    {
        VirtualNode { did, data }
    }
}

impl Clone for VirtualNode {
    /// A copy with the same key and the same bytes.
    fn clone(&self) -> (r: Self)
        ensures
            r.did == self.did,
            r.data@ == self.data@,
    {
        VirtualNode { did: self.did, data: clone_bytes(&self.data) }
    }
}

} // verus!
