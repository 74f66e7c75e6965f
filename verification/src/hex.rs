//! Hexadecimal formatting and parsing of ring identifiers.
//!
//! A node address travels through user-facing interfaces as `0x` followed
//! by forty hexadecimal digits. Parsing accepts upper or lower case and an
//! optional `0x`/`0X` prefix; formatting emits the lowercase form.

use crate::did::Did;
use vstd::prelude::*;

verus! {

/// Numeric value of a hexadecimal digit character; `-1` on any other
/// character.
pub open spec fn hex_digit_val(c: char) -> int {
    if c == '0' {
        0
    } else if c == '1' {
        1
    } else if c == '2' {
        2
    } else if c == '3' {
        3
    } else if c == '4' {
        4
    } else if c == '5' {
        5
    } else if c == '6' {
        6
    } else if c == '7' {
        7
    } else if c == '8' {
        8
    } else if c == '9' {
        9
    } else if c == 'a' || c == 'A' {
        10
    } else if c == 'b' || c == 'B' {
        11
    } else if c == 'c' || c == 'C' {
        12
    } else if c == 'd' || c == 'D' {
        13
    } else if c == 'e' || c == 'E' {
        14
    } else if c == 'f' || c == 'F' {
        15
    } else {
        -1
    }
}

pub open spec fn is_hex_digit(c: char) -> bool {
    hex_digit_val(c) != -1
}

/// Lowercase digit character of a value in `[0, 16)`.
pub open spec fn hex_digit_char(v: int) -> char {
    if v == 0 {
        '0'
    } else if v == 1 {
        '1'
    } else if v == 2 {
        '2'
    } else if v == 3 {
        '3'
    } else if v == 4 {
        '4'
    } else if v == 5 {
        '5'
    } else if v == 6 {
        '6'
    } else if v == 7 {
        '7'
    } else if v == 8 {
        '8'
    } else if v == 9 {
        '9'
    } else if v == 10 {
        'a'
    } else if v == 11 {
        'b'
    } else if v == 12 {
        'c'
    } else if v == 13 {
        'd'
    } else if v == 14 {
        'e'
    } else {
        'f'
    }
}

/// `16^w`.
pub open spec fn pow16(w: nat) -> int
    decreases w,
{
    if w == 0 {
        1
    } else {
        16 * pow16((w - 1) as nat)
    }
}

/// The `w` lowercase hexadecimal digits of `x`, most significant first.
pub open spec fn hex_chars_of(x: int, w: nat) -> Seq<char>
    decreases w,
{
    if w == 0 {
        Seq::empty()
    } else {
        hex_chars_of(x / 16, (w - 1) as nat).push(hex_digit_char(x % 16))
    }
}

/// The value a string of hexadecimal digits denotes.
pub open spec fn hex_chars_val(s: Seq<char>) -> int
    decreases s.len(),
{
    if s.len() == 0 {
        0
    } else {
        hex_chars_val(s.drop_last()) * 16 + hex_digit_val(s.last())
    }
}

pub open spec fn all_hex_digits(s: Seq<char>) -> bool {
    forall|i: int| 0 <= i < s.len() ==> is_hex_digit(s[i])
}

/// The characters of an address string with an optional leading `0x`/`0X`
/// removed.
pub open spec fn strip_hex_prefix(s: Seq<char>) -> Seq<char> {
    if s.len() >= 2 && s[0] == '0' && (s[1] == 'x' || s[1] == 'X') {
        s.skip(2)
    } else {
        s
    }
}

pub proof fn lemma_pow16_pos(w: nat)
    ensures
        pow16(w) >= 1,
    decreases w,
{
    if w > 0 {
        lemma_pow16_pos((w - 1) as nat);
    }
}

pub proof fn lemma_pow16_mono(a: nat, b: nat)
    requires
        a <= b,
    ensures
        pow16(a) <= pow16(b),
    decreases b,
{
    if a < b {
        lemma_pow16_pos((b - 1) as nat);
        lemma_pow16_mono(a, (b - 1) as nat);
    }
}

pub proof fn lemma_pow16_vals()
    ensures
        pow16(8) == 0x100000000int,
        pow16(32) == 0x100000000000000000000000000000000int,
{
    reveal_with_fuel(pow16, 33);
}

pub proof fn lemma_hex_chars_of_len(x: int, w: nat)
    ensures
        hex_chars_of(x, w).len() == w,
    decreases w,
{
    if w > 0 {
        lemma_hex_chars_of_len(x / 16, (w - 1) as nat);
    }
}

/// Digit `j` of the width-`w` rendering of a non-negative `x`.
pub proof fn lemma_hex_chars_of_index(x: int, w: nat, j: int)
    requires
        x >= 0,
        0 <= j < w,
    ensures
        hex_chars_of(x, w)[j] == hex_digit_char((x / pow16((w - 1 - j) as nat)) % 16),
    decreases w,
{
    lemma_hex_chars_of_len(x / 16, (w - 1) as nat);
    if j == w - 1 {
        assert(x / pow16(0) == x);
    } else {
        lemma_hex_chars_of_index(x / 16, (w - 1) as nat, j);
        let p = pow16((w - 2 - j) as nat);
        lemma_pow16_pos((w - 2 - j) as nat);
        vstd::arithmetic::div_mod::lemma_div_denominator(x, 16, p);
        assert(16 * p == pow16((w - 1 - j) as nat));
    }
}

/// A digit string denotes a value below `16^len`.
pub proof fn lemma_hex_chars_val_bound(s: Seq<char>)
    requires
        all_hex_digits(s),
    ensures
        0 <= hex_chars_val(s) < pow16(s.len()),
    decreases s.len(),
{
    if s.len() > 0 {
        assert(all_hex_digits(s.drop_last())) by {
            assert(forall|i: int|
                0 <= i < s.len() - 1 ==> s.drop_last()[i] == s[i]);
        };
        lemma_hex_chars_val_bound(s.drop_last());
    }
}

/// Splitting a digit string splits its value at the matching power.
pub proof fn lemma_hex_val_concat(a: Seq<char>, b: Seq<char>)
    ensures
        hex_chars_val(a + b) == hex_chars_val(a) * pow16(b.len()) + hex_chars_val(b),
    decreases b.len(),
{
    if b.len() == 0 {
        assert(a + b =~= a);
    } else {
        assert((a + b).drop_last() =~= a + b.drop_last());
        assert((a + b).last() == b.last());
        lemma_hex_val_concat(a, b.drop_last());
        assert(hex_chars_val(a) * pow16(b.len()) == hex_chars_val(a) * pow16(
            (b.len() - 1) as nat,
        ) * 16) by (nonlinear_arith)
            requires
                pow16(b.len()) == 16 * pow16((b.len() - 1) as nat),
        ;
    }
}

/// Reading back the digits of a value that fits the width yields the value.
pub proof fn lemma_hex_round_trip(x: int, w: nat)
    requires
        0 <= x < pow16(w),
    ensures
        hex_chars_val(hex_chars_of(x, w)) == x,
        all_hex_digits(hex_chars_of(x, w)),
    decreases w,
{
    lemma_hex_chars_of_len(x, w);
    if w > 0 {
        lemma_hex_chars_of_len(x / 16, (w - 1) as nat);
        lemma_pow16_pos((w - 1) as nat);
        assert(x / 16 < pow16((w - 1) as nat)) by {
            vstd::arithmetic::div_mod::lemma_fundamental_div_mod(x, 16);
        };
        lemma_hex_round_trip(x / 16, (w - 1) as nat);
        assert(hex_chars_of(x, w).drop_last() =~= hex_chars_of(x / 16, (w - 1) as nat));
        vstd::arithmetic::div_mod::lemma_fundamental_div_mod(x, 16);
        assert forall|i: int| 0 <= i < w implies is_hex_digit(hex_chars_of(x, w)[i]) by {
            if i < w - 1 {
                assert(hex_chars_of(x, w)[i] == hex_chars_of(x / 16, (w - 1) as nat)[i]);
            }
        };
    }
}

/// Hexadecimal digit value of a character, or nothing.
pub fn hex_char_to_val(c: char) -> (r: Option<u8>)
    ensures
        r is Some <==> is_hex_digit(c),
        r matches Some(v) ==> v as int == hex_digit_val(c) && v < 16,
{
    match c {
        '0' => Some(0),
        '1' => Some(1),
        '2' => Some(2),
        '3' => Some(3),
        '4' => Some(4),
        '5' => Some(5),
        '6' => Some(6),
        '7' => Some(7),
        '8' => Some(8),
        '9' => Some(9),
        'a' | 'A' => Some(10),
        'b' | 'B' => Some(11),
        'c' | 'C' => Some(12),
        'd' | 'D' => Some(13),
        'e' | 'E' => Some(14),
        'f' | 'F' => Some(15),
        _ => None,
    }
}

/// One-character string of a lowercase hexadecimal digit.
pub fn hex_digit_str(v: u8) -> (r: &'static str)
    requires
        v < 16,
    ensures
        r@ =~= seq![hex_digit_char(v as int)],
{
    proof {
        reveal_strlit("0");
        reveal_strlit("1");
        reveal_strlit("2");
        reveal_strlit("3");
        reveal_strlit("4");
        reveal_strlit("5");
        reveal_strlit("6");
        reveal_strlit("7");
        reveal_strlit("8");
        reveal_strlit("9");
        reveal_strlit("a");
        reveal_strlit("b");
        reveal_strlit("c");
        reveal_strlit("d");
        reveal_strlit("e");
        reveal_strlit("f");
    }
    match v {
        0 => "0",
        1 => "1",
        2 => "2",
        3 => "3",
        4 => "4",
        5 => "5",
        6 => "6",
        7 => "7",
        8 => "8",
        9 => "9",
        10 => "a",
        11 => "b",
        12 => "c",
        13 => "d",
        14 => "e",
        _ => "f",
    }
}

impl Did {
    /// The address string: `0x` followed by forty lowercase hexadecimal
    /// digits, high limb first.
    pub fn to_hex(&self) -> (r: String)
        ensures
            r@ == seq!['0', 'x'] + hex_chars_of(self.hi as int, 8) + hex_chars_of(
                self.lo as int,
                32,
            ),
    {
        proof {
            reveal_strlit("0x");
            lemma_hex_chars_of_len(self.hi as int, 8);
            lemma_hex_chars_of_len(self.lo as int, 32);
            lemma_pow16_vals();
        }
        let mut out: String = String::new();
        out.append("0x");
        proof {
            assert(out@ =~= seq!['0', 'x'] + hex_chars_of(self.hi as int, 8).subrange(0, 0));
        }
        let mut i: usize = 0;
        let mut div32: u32 = 0x10000000;
        while i < 8
            invariant
                i <= 8,
                i < 8 ==> div32 as int == pow16((7 - i) as nat),
                out@ == seq!['0', 'x'] + hex_chars_of(self.hi as int, 8).subrange(0, i as int),
            decreases 8 - i,
        {
            proof {
                lemma_hex_chars_of_len(self.hi as int, 8);
                lemma_hex_chars_of_index(self.hi as int, 8, i as int);
                lemma_pow16_vals();
                reveal_with_fuel(pow16, 9);
                lemma_pow16_pos((7 - i) as nat);
            }
            let digit: u8 = ((self.hi / div32) % 16) as u8;
            out.append(hex_digit_str(digit));
            proof {
                assert(out@ =~= seq!['0', 'x'] + hex_chars_of(self.hi as int, 8).subrange(
                    0,
                    i + 1,
                ));
            }
            if i < 7 {
                div32 = div32 / 16;
            }
            i = i + 1;
        }
        proof {
            assert(hex_chars_of(self.hi as int, 8).subrange(0, 8) =~= hex_chars_of(
                self.hi as int,
                8,
            ));
        }
        let mut j: usize = 0;
        let mut div128: u128 = 0x10000000000000000000000000000000;
        proof {
            assert(out@ =~= seq!['0', 'x'] + hex_chars_of(self.hi as int, 8) + hex_chars_of(
                self.lo as int,
                32,
            ).subrange(0, 0));
        }
        while j < 32
            invariant
                j <= 32,
                j < 32 ==> div128 as int == pow16((31 - j) as nat),
                out@ == seq!['0', 'x'] + hex_chars_of(self.hi as int, 8) + hex_chars_of(
                    self.lo as int,
                    32,
                ).subrange(0, j as int),
            decreases 32 - j,
        {
            proof {
                lemma_hex_chars_of_len(self.hi as int, 8);
                lemma_hex_chars_of_len(self.lo as int, 32);
                lemma_hex_chars_of_index(self.lo as int, 32, j as int);
                reveal_with_fuel(pow16, 33);
                lemma_pow16_pos((31 - j) as nat);
            }
            let digit: u8 = ((self.lo / div128) % 16) as u8;
            out.append(hex_digit_str(digit));
            proof {
                assert(out@ =~= seq!['0', 'x'] + hex_chars_of(self.hi as int, 8) + hex_chars_of(
                    self.lo as int,
                    32,
                ).subrange(0, j + 1));
            }
            if j < 31 {
                div128 = div128 / 16;
            }
            j = j + 1;
        }
        proof {
            assert(hex_chars_of(self.lo as int, 32).subrange(0, 32) =~= hex_chars_of(
                self.lo as int,
                32,
            ));
        }
        out
    }

    /// Parse an address string. Returns an identifier exactly when, after an
    /// optional `0x`/`0X` prefix, the string consists of exactly forty
    /// hexadecimal digits; the identifier then denotes their value.
    pub fn from_hex(s: &str) -> (r: Option<Did>)
        ensures
            r is Some <==> strip_hex_prefix(s@).len() == 40 && all_hex_digits(
                strip_hex_prefix(s@),
            ),
            r matches Some(d) ==> d.val() == hex_chars_val(strip_hex_prefix(s@)),
    {
        let n = s.unicode_len();
        let start: usize = if n >= 2 && s.get_char(0) == '0' && (s.get_char(1) == 'x'
            || s.get_char(1) == 'X') {
            2
        } else {
            0
        };
        let ghost t = strip_hex_prefix(s@);
        proof {
            assert(t =~= s@.skip(start as int));
        }
        if n - start != 40 {
            return None;
        }
        let mut hi: u32 = 0;
        let mut i: usize = 0;
        proof {
            assert(t.subrange(0, 0) =~= Seq::<char>::empty());
        }
        while i < 8
            invariant
                i <= 8,
                n - start == 40,
                start + 40 == n,
                n == s@.len(),
                t == strip_hex_prefix(s@),
                t =~= s@.skip(start as int),
                hi as int == hex_chars_val(t.subrange(0, i as int)),
                (hi as int) < pow16((i) as nat),
                forall|k: int| 0 <= k < i ==> is_hex_digit(t[k]),
            decreases 8 - i,
        {
            let c = s.get_char(start + i);
            proof {
                assert(t[i as int] == s@[start + i]);
            }
            match hex_char_to_val(c) {
                Option::None => {
                    return None;
                },
                Option::Some(v) => {
                    proof {
                        let pre = t.subrange(0, i as int);
                        let post = t.subrange(0, i + 1);
                        assert(post.drop_last() =~= pre);
                        lemma_pow16_vals();
                        lemma_pow16_mono((i + 1) as nat, 8);
                    }
                    hi = hi * 16 + v as u32;
                },
            }
            i = i + 1;
        }
        let mut lo: u128 = 0;
        let mut j: usize = 0;
        proof {
            assert(t.subrange(8, 8) =~= Seq::<char>::empty());
        }
        while j < 32
            invariant
                j <= 32,
                n - start == 40,
                start + 40 == n,
                n == s@.len(),
                t == strip_hex_prefix(s@),
                t =~= s@.skip(start as int),
                hi as int == hex_chars_val(t.subrange(0, 8)),
                lo as int == hex_chars_val(t.subrange(8, 8 + j as int)),
                (lo as int) < pow16((j) as nat),
                forall|k: int| 0 <= k < 8 + j ==> is_hex_digit(t[k]),
            decreases 32 - j,
        {
            let c = s.get_char(start + 8 + j);
            proof {
                assert(t[8 + j as int] == s@[start + 8 + j]);
            }
            match hex_char_to_val(c) {
                Option::None => {
                    return None;
                },
                Option::Some(v) => {
                    proof {
                        let pre = t.subrange(8, 8 + j as int);
                        let post = t.subrange(8, 8 + j + 1);
                        assert(post.drop_last() =~= pre);
                        lemma_pow16_vals();
                        lemma_pow16_mono((j + 1) as nat, 32);
                    }
                    lo = lo * 16 + v as u128;
                },
            }
            j = j + 1;
        }
        let d = Did::new(hi, lo);
        proof {
            assert(t =~= t.subrange(0, 8) + t.subrange(8, 40));
            lemma_hex_val_concat(t.subrange(0, 8), t.subrange(8, 40));
            lemma_pow16_vals();
        }
        Some(d)
    }
}

} // verus!
