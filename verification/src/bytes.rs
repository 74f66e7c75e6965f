//! Fixed-width big-endian integer encoding.
//!
//! The wire format stores identifiers, cursors and transaction ids as
//! fixed-width big-endian byte strings. This module defines the
//! mathematical encoding, the executable conversions, and the round-trip
//! facts the payload codec builds on.

use vstd::arithmetic::div_mod::lemma_div_denominator;
use vstd::arithmetic::div_mod::lemma_fundamental_div_mod;
use vstd::prelude::*;

verus! {

/// `256^w`.
pub open spec fn pow256(w: nat) -> int
    decreases w,
{
    if w == 0 {
        1
    } else {
        256 * pow256((w - 1) as nat)
    }
}

/// The big-endian digits of `x`, padded or truncated to width `w`.
pub open spec fn be_bytes(x: int, w: nat) -> Seq<u8>
    decreases w,
{
    if w == 0 {
        Seq::empty()
    } else {
        be_bytes(x / 256, (w - 1) as nat).push((x % 256) as u8)
    }
}

/// The integer a big-endian byte string denotes.
pub open spec fn bytes_val(s: Seq<u8>) -> int
    decreases s.len(),
{
    if s.len() == 0 {
        0
    } else {
        bytes_val(s.drop_last()) * 256 + s.last()
    }
}

pub proof fn lemma_pow256_pos(w: nat)
    ensures
        pow256(w) >= 1,
    decreases w,
{
    if w > 0 {
        lemma_pow256_pos((w - 1) as nat);
    }
}

pub proof fn lemma_be_bytes_len(x: int, w: nat)
    ensures
        be_bytes(x, w).len() == w,
    decreases w,
{
    if w > 0 {
        lemma_be_bytes_len(x / 256, (w - 1) as nat);
    }
}

/// A byte string denotes a value below `256^len`.
pub proof fn lemma_bytes_val_bound(s: Seq<u8>)
    ensures
        0 <= bytes_val(s) < pow256(s.len()),
    decreases s.len(),
{
    if s.len() > 0 {
        lemma_bytes_val_bound(s.drop_last());
    }
}

/// Digit `j` of the width-`w` encoding of a non-negative `x`.
pub proof fn lemma_be_bytes_index(x: int, w: nat, j: int)
    requires
        x >= 0,
        0 <= j < w,
    ensures
        be_bytes(x, w)[j] == ((x / pow256((w - 1 - j) as nat)) % 256) as u8,
    decreases w,
{
    lemma_be_bytes_len(x / 256, (w - 1) as nat);
    if j == w - 1 {
        assert(x / pow256(0) == x);
    } else {
        lemma_be_bytes_index(x / 256, (w - 1) as nat, j);
        let p = pow256((w - 2 - j) as nat);
        lemma_pow256_pos((w - 2 - j) as nat);
        lemma_div_denominator(x, 256, p);
        assert(256 * p == pow256((w - 1 - j) as nat));
    }
}

/// Decoding inverts encoding for every value that fits the width.
pub proof fn lemma_bytes_round_trip(x: int, w: nat)
    requires
        0 <= x < pow256(w),
    ensures
        bytes_val(be_bytes(x, w)) == x,
    decreases w,
{
    if w > 0 {
        lemma_be_bytes_len(x / 256, (w - 1) as nat);
        lemma_pow256_pos((w - 1) as nat);
        assert(x / 256 < pow256((w - 1) as nat)) by {
            lemma_fundamental_div_mod(x, 256);
        };
        lemma_bytes_round_trip(x / 256, (w - 1) as nat);
        assert(be_bytes(x, w).drop_last() =~= be_bytes(x / 256, (w - 1) as nat));
        lemma_fundamental_div_mod(x, 256);
    }
}

/// `256^16` is one past the largest `u128`.
pub proof fn lemma_pow256_16()
    ensures
        pow256(16) == 0x100000000000000000000000000000000int,
        pow256(4) == 0x100000000int,
        pow256(2) == 0x10000int,
{
    reveal_with_fuel(pow256, 17);
}

/// Big-endian bytes of a `u128`, most significant first.
pub fn u128_to_be_bytes(x: u128) -> (r: Vec<u8>)
    ensures
        r@ == be_bytes(x as int, 16),
        r@.len() == 16,
{
    proof {
        lemma_be_bytes_len(x as int, 16);
        lemma_pow256_16();
    }
    let mut out: Vec<u8> = vec![0u8; 16];
    let mut cur: u128 = x;
    let mut i: usize = 16;
    while i > 0
        invariant
            i <= 16,
            out@.len() == 16,
            cur as int == x as int / pow256((16 - i) as nat),
            forall|j: int| i <= j < 16 ==> out@[j] == be_bytes(x as int, 16)[j],
        decreases i,
    {
        proof {
            lemma_be_bytes_index(x as int, 16, i - 1);
            lemma_pow256_pos((16 - i) as nat);
            lemma_div_denominator(x as int, pow256((16 - i) as nat), 256);
            assert(pow256((16 - i) as nat) * 256 == pow256((17 - i) as nat));
        }
        let digit: u8 = (cur % 256) as u8;
        out.set(i - 1, digit);
        cur = cur / 256;
        i = i - 1;
    }
    proof {
        lemma_be_bytes_len(x as int, 16);
        assert(out@ =~= be_bytes(x as int, 16));
    }
    out
}

/// The `u128` denoted by 16 big-endian bytes.
pub fn u128_from_be_bytes(s: &[u8]) -> (r: u128)
    requires
        s@.len() == 16,
    ensures
        r as int == bytes_val(s@),
{
    let mut acc: u128 = 0;
    let mut i: usize = 0;
    proof {
        assert(s@.subrange(0, 0) =~= Seq::<u8>::empty());
        lemma_pow256_16();
    }
    while i < 16
        invariant
            i <= 16,
            s@.len() == 16,
            acc as int == bytes_val(s@.subrange(0, i as int)),
            (acc as int) < pow256((i) as nat),
        decreases 16 - i,
    {
        proof {
            let pre = s@.subrange(0, i as int);
            let post = s@.subrange(0, i + 1);
            assert(post.drop_last() =~= pre);
            lemma_pow256_16();
            lemma_pow256_mono((i + 1) as nat, 16);
        }
        acc = acc * 256 + (s[i] as u128);
        i = i + 1;
    }
    proof {
        assert(s@.subrange(0, 16) =~= s@);
    }
    acc
}

pub proof fn lemma_pow256_mono(a: nat, b: nat)
    requires
        a <= b,
    ensures
        pow256(a) <= pow256(b),
    decreases b,
{
    if a < b {
        lemma_pow256_pos((b - 1) as nat);
        lemma_pow256_mono(a, (b - 1) as nat);
    }
}

/// The `u16` denoted by 2 big-endian bytes.
pub fn u16_from_be_bytes(s: &[u8]) -> (r: u16)
    requires
        s@.len() == 2,
    ensures
        r as int == bytes_val(s@),
{
    proof {
        reveal_with_fuel(bytes_val, 3);
        lemma_bytes_val_bound(s@);
        lemma_pow256_16();
        assert(pow256(2) == 0x10000int);
        assert(s@.drop_last().drop_last() =~= Seq::<u8>::empty());
    }
    let hi = s[0];
    let lo = s[1];
    proof {
        assert(s@.drop_last().last() == s@[0]);
        assert(s@.last() == s@[1]);
    }
    (hi as u16) * 256 + (lo as u16)
}

/// Big-endian bytes of a `u32`.
pub fn u32_to_be_bytes(x: u32) -> (r: Vec<u8>)
    ensures
        r@ == be_bytes(x as int, 4),
        r@.len() == 4,
{
    proof {
        lemma_be_bytes_len(x as int, 4);
        lemma_pow256_16();
    }
    let mut out: Vec<u8> = vec![0u8; 4];
    let mut cur: u32 = x;
    let mut i: usize = 4;
    while i > 0
        invariant
            i <= 4,
            out@.len() == 4,
            cur as int == x as int / pow256((4 - i) as nat),
            forall|j: int| i <= j < 4 ==> out@[j] == be_bytes(x as int, 4)[j],
        decreases i,
    {
        proof {
            lemma_be_bytes_index(x as int, 4, i - 1);
            lemma_pow256_pos((4 - i) as nat);
            lemma_div_denominator(x as int, pow256((4 - i) as nat), 256);
            assert(pow256((4 - i) as nat) * 256 == pow256((5 - i) as nat));
        }
        let digit: u8 = (cur % 256) as u8;
        out.set(i - 1, digit);
        cur = cur / 256;
        i = i - 1;
    }
    proof {
        lemma_be_bytes_len(x as int, 4);
        assert(out@ =~= be_bytes(x as int, 4));
    }
    out
}

/// The `u32` denoted by 4 big-endian bytes.
pub fn u32_from_be_bytes(s: &[u8]) -> (r: u32)
    requires
        s@.len() == 4,
    ensures
        r as int == bytes_val(s@),
{
    let mut acc: u32 = 0;
    let mut i: usize = 0;
    proof {
        assert(s@.subrange(0, 0) =~= Seq::<u8>::empty());
        lemma_pow256_16();
    }
    while i < 4
        invariant
            i <= 4,
            s@.len() == 4,
            acc as int == bytes_val(s@.subrange(0, i as int)),
            (acc as int) < pow256((i) as nat),
        decreases 4 - i,
    {
        proof {
            let pre = s@.subrange(0, i as int);
            let post = s@.subrange(0, i + 1);
            assert(post.drop_last() =~= pre);
            lemma_pow256_16();
            lemma_pow256_mono((i + 1) as nat, 4);
        }
        acc = acc * 256 + (s[i] as u32);
        i = i + 1;
    }
    proof {
        assert(s@.subrange(0, 4) =~= s@);
    }
    acc
}

} // verus!
