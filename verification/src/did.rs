//! 160-bit ring identifiers and their modular arithmetic.
//!
//! A node identifier is an unsigned 160-bit integer derived from a public
//! key. The ring metric is `distance(a, b) = (b - a) mod 2^160`; every
//! ordering and interval predicate of the overlay is phrased over it.

use vstd::prelude::*;

verus! {

/// A 160-bit node identifier, split into a high 32-bit limb and a low
/// 128-bit limb. Every pair `(hi, lo)` is a valid identifier, so the type
/// carries no invariant; its mathematical value is [`Did::val`].
#[derive(Clone, Copy, PartialEq, Eq, Structural, Debug)]
pub struct Did {
    /// Most significant 32 bits.
    pub hi: u32,
    /// Least significant 128 bits.
    pub lo: u128,
}

/// The ring modulus, `2^160`.
pub open spec fn ring_mod() -> int {
    0x10000000000000000000000000000000000000000int
}

/// `(b - a) mod 2^160` on mathematical ring positions.
pub open spec fn ring_dist(a: int, b: int) -> int {
    if b >= a {
        b - a
    } else {
        b - a + ring_mod()
    }
}

/// `(a + b) mod 2^160` for ring positions already in `[0, 2^160)`.
pub open spec fn ring_add(a: int, b: int) -> int {
    if a + b < ring_mod() {
        a + b
    } else {
        a + b - ring_mod()
    }
}

/// The identifier at ring position `v`.
pub open spec fn did_of_val(v: int) -> Did {
    Did {
        hi: (v / 0x100000000000000000000000000000000int) as u32,
        lo: (v % 0x100000000000000000000000000000000int) as u128,
    }
}

/// `did_of_val` inverts `val` on the ring.
pub proof fn lemma_did_of_val(v: int)
    requires
        0 <= v < ring_mod(),
    ensures
        did_of_val(v).val() == v,
{
    vstd::arithmetic::div_mod::lemma_fundamental_div_mod(
        v,
        0x100000000000000000000000000000000int,
    );
    if v >= 0x100000000000000000000000000000000int {
        vstd::arithmetic::div_mod::lemma_multiply_divide_lt(
            v,
            0x100000000000000000000000000000000int,
            0x100000000int,
        );
    }
}

/// Ring distance from `a` to `b`.
pub open spec fn dist(a: Did, b: Did) -> int {
    ring_dist(a.val(), b.val())
}

/// Distance from the local id to `x`; zero exactly on `x == base`.
pub open spec fn bias(base: Did, x: Did) -> int {
    dist(base, x)
}

/// `x` lies in the open ring interval `(a, b)`.
pub open spec fn in_open_interval(x: Did, a: Did, b: Did) -> bool {
    0 < dist(a, x) < dist(a, b)
}

/// `x` lies in the half-open ring interval `(a, b]`.
pub open spec fn in_half_open_interval(x: Did, a: Did, b: Did) -> bool {
    0 < dist(a, x) <= dist(a, b)
}

impl Did {
    /// The identifier as an integer in `[0, 2^160)`.
    pub open spec fn val(self) -> int {
        self.hi as int * 0x100000000000000000000000000000000int + self.lo as int
    }

    /// Build an identifier from its two limbs.
    pub fn new(hi: u32, lo: u128) -> (r: Did)
        ensures
            r == (Did { hi, lo }),
    {
        Did { hi, lo }
    }

    /// Every identifier lies below the ring modulus.
    pub proof fn lemma_val_range(self)
        ensures
            0 <= self.val() < ring_mod(),
    {
    }

    /// Identifiers with equal values are equal.
    pub proof fn lemma_val_injective(self, other: Did)
        ensures
            (self.val() == other.val()) <==> (self == other),
    {
    }

    /// `self.val() <= other.val()`, decided on the limbs.
    pub fn le(&self, other: &Did) -> (r: bool)
        ensures
            r == (self.val() <= other.val()),
    {
        if self.hi != other.hi {
            self.hi < other.hi
        } else {
            self.lo <= other.lo
        }
    }

    /// `self.val() < other.val()`, decided on the limbs.
    pub fn lt(&self, other: &Did) -> (r: bool)
        ensures
            r == (self.val() < other.val()),
    {
        if self.hi != other.hi {
            self.hi < other.hi
        } else {
            self.lo < other.lo
        }
    }
}

/// Ring distance from `a` to `b` as an identifier: `(b - a) mod 2^160`.
pub fn distance(a: &Did, b: &Did) -> (r: Did)
    ensures
        r.val() == dist(*a, *b),
{
    let lo: u128;
    let borrow: u64;
    if b.lo >= a.lo {
        lo = b.lo - a.lo;
        borrow = 0;
    } else {
        lo = (u128::MAX - a.lo) + b.lo + 1;
        borrow = 1;
    }
    let hi_ext: u64 = b.hi as u64 + 0x1_0000_0000u64 - a.hi as u64 - borrow;
    let hi: u32 = (hi_ext % 0x1_0000_0000u64) as u32;
    Did { hi, lo }
}

/// The 20-byte big-endian wire form of an identifier.
pub open spec fn did_bytes(d: Did) -> Seq<u8> {
    crate::bytes::be_bytes(d.hi as int, 4) + crate::bytes::be_bytes(d.lo as int, 16)
}

/// The identifier denoted by a 20-byte big-endian string.
pub open spec fn did_of_bytes(s: Seq<u8>) -> Did {
    Did {
        hi: crate::bytes::bytes_val(s.subrange(0, 4)) as u32,
        lo: crate::bytes::bytes_val(s.subrange(4, 20)) as u128,
    }
}

/// Reading the wire form back yields the identifier.
pub proof fn lemma_did_bytes_round_trip(d: Did)
    ensures
        did_bytes(d).len() == 20,
        did_of_bytes(did_bytes(d)) == d,
{
    crate::bytes::lemma_be_bytes_len(d.hi as int, 4);
    crate::bytes::lemma_be_bytes_len(d.lo as int, 16);
    assert(did_bytes(d).subrange(0, 4) =~= crate::bytes::be_bytes(d.hi as int, 4));
    assert(did_bytes(d).subrange(4, 20) =~= crate::bytes::be_bytes(d.lo as int, 16));
    crate::bytes::lemma_pow256_16();
    crate::bytes::lemma_bytes_round_trip(d.hi as int, 4);
    crate::bytes::lemma_bytes_round_trip(d.lo as int, 16);
}

impl Did {
    /// Serialize to the 20-byte big-endian wire form.
    pub fn to_bytes(&self) -> (r: Vec<u8>)
        ensures
            r@ == did_bytes(*self),
            r@.len() == 20,
    {
        let mut out = crate::bytes::u32_to_be_bytes(self.hi);
        let mut low = crate::bytes::u128_to_be_bytes(self.lo);
        out.append(&mut low);
        out
    }

    /// Deserialize from a 20-byte big-endian wire form.
    pub fn from_bytes(s: &[u8]) -> (r: Did)
        requires
            s@.len() == 20,
        ensures
            r == did_of_bytes(s@),
    {
        let head = vstd::slice::slice_subrange(s, 0, 4);
        let tail = vstd::slice::slice_subrange(s, 4, 20);
        proof {
            crate::bytes::lemma_bytes_val_bound(s@.subrange(0, 4));
            crate::bytes::lemma_bytes_val_bound(s@.subrange(4, 20));
            crate::bytes::lemma_pow256_16();
        }
        let hi = crate::bytes::u32_from_be_bytes(head);
        let lo = crate::bytes::u128_from_be_bytes(tail);
        Did { hi, lo }
    }
}

/// The distance from an identifier to itself is zero.
pub proof fn lemma_bias_self(a: Did)
    ensures
        bias(a, a) == 0,
{
}

/// Distances between distinct identifiers in the two directions add up to
/// the full ring.
pub proof fn lemma_dist_antisymmetric(a: Did, b: Did)
    requires
        a != b,
    ensures
        dist(a, b) + dist(b, a) == ring_mod(),
        0 < dist(a, b) < ring_mod(),
{
    a.lemma_val_injective(b);
}

/// From a fixed origin, equal distances mean equal identifiers.
pub proof fn lemma_dist_injective(a: Did, x: Did, y: Did)
    ensures
        dist(a, x) == dist(a, y) ==> x == y,
{
    x.lemma_val_injective(y);
}

/// Of two distinct identifiers `a` and `b`, a third distinct identifier `x`
/// lies in exactly one of the half-open intervals `(a, b]` and `(b, a]`.
pub proof fn lemma_interval_dichotomy(x: Did, a: Did, b: Did)
    requires
        a != b,
        x != a,
        x != b,
    ensures
        in_half_open_interval(x, a, b) <==> !in_half_open_interval(x, b, a),
{
    a.lemma_val_injective(b);
    x.lemma_val_injective(a);
    x.lemma_val_injective(b);
}

} // verus!
