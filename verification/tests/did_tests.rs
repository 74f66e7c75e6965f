//! Ring arithmetic, formatting and byte forms of identifiers.

use rings_node::did::Did;
use rings_node::ring::did_add_pow2;

#[test]
fn distance_simple() {
    let a = Did::new(0, 1);
    let b = Did::new(0, 5);
    assert_eq!(rings_node::did::distance(&a, &b), Did::new(0, 4));
    // wrap: (1 - 5) mod 2^160
    let back = rings_node::did::distance(&b, &a);
    assert_eq!(back.hi, u32::MAX);
    assert_eq!(back.lo, u128::MAX - 3);
}

#[test]
fn distance_to_self_is_zero() {
    let a = Did::new(7, 42);
    assert_eq!(rings_node::did::distance(&a, &a), Did::new(0, 0));
}

#[test]
fn distances_of_distinct_ids_cover_the_ring() {
    // bias(a, b) + bias(b, a) wraps to zero exactly on distinct ids
    let a = Did::new(3, 99);
    let b = Did::new(u32::MAX, 7);
    let d_ab = rings_node::did::distance(&a, &b);
    let d_ba = rings_node::did::distance(&b, &a);
    let lo = d_ab.lo.wrapping_add(d_ba.lo);
    let carry = if lo < d_ab.lo { 1 } else { 0 };
    let hi = d_ab.hi.wrapping_add(d_ba.hi).wrapping_add(carry);
    assert_eq!(lo, 0);
    assert_eq!(hi, 0);
}

#[test]
fn limb_ordering() {
    let small = Did::new(1, u128::MAX);
    let big = Did::new(2, 0);
    assert!(small.lt(&big));
    assert!(small.le(&big));
    assert!(!big.le(&small));
    assert!(small.le(&small));
    assert!(!small.lt(&small));
}

#[test]
fn bytes_round_trip() {
    let d = Did::new(0xdeadbeef, 0x0123456789abcdef0011223344556677);
    let bytes = d.to_bytes();
    assert_eq!(bytes.len(), 20);
    let back = Did::from_bytes(bytes.as_slice());
    assert_eq!(back, d);
}

#[test]
fn hex_format_and_parse() {
    let d = Did::new(0x00c0ffee, 0x0123456789abcdef0011223344556677);
    let text = d.to_hex();
    assert_eq!(text.len(), 42);
    assert!(text.starts_with("0x"));
    let back = Did::from_hex(text.as_str()).unwrap();
    assert_eq!(back, d);
    // without the prefix, and in upper case
    let bare: String = text.chars().skip(2).map(|c| c.to_ascii_uppercase()).collect();
    assert_eq!(Did::from_hex(bare.as_str()).unwrap(), d);
}

#[test]
fn hex_parse_rejects_bad_input() {
    assert!(Did::from_hex("0x1234").is_none());
    assert!(Did::from_hex("").is_none());
    assert!(Did::from_hex("0xZZ34567890123456789012345678901234567890").is_none());
    assert!(Did::from_hex("0x123456789012345678901234567890123456789012").is_none());
}

#[test]
fn add_pow2_small_and_large() {
    let d = Did::new(0, 10);
    assert_eq!(did_add_pow2(&d, 0), Did::new(0, 11));
    assert_eq!(did_add_pow2(&d, 4), Did::new(0, 26));
    assert_eq!(did_add_pow2(&d, 128), Did::new(1, 10));
    assert_eq!(did_add_pow2(&d, 159), Did::new(0x80000000, 10));
    // wrap around the top of the ring
    let top = Did::new(u32::MAX, u128::MAX);
    assert_eq!(did_add_pow2(&top, 0), Did::new(0, 0));
}
