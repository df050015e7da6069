//! Canonical session identifiers.
//!
//! A session identifier travels on the wire as 36 bytes: 32 hexadecimal
//! digits in five groups separated by hyphens, denoting a 128-bit value
//! with the most significant digit first. This module parses that form
//! (accepting either letter case) and formats a value back to its
//! lowercase canonical text.

use vstd::prelude::*;
use vstd::arithmetic::power2::{
    pow2, lemma_pow2_adds, lemma_pow2_pos, lemma_pow2_strictly_increases, lemma2_to64,
};
use vstd::arithmetic::div_mod::{
    lemma_div_denominator, lemma_fundamental_div_mod, lemma_basic_div,
    lemma_div_multiples_vanish,
};

verus! {

/// Byte positions that hold a separator in the canonical form.
pub open spec fn is_hyphen_pos(i: int) -> bool {
    i == 8 || i == 13 || i == 18 || i == 23
}

/// ASCII code of a hexadecimal digit, either letter case.
pub open spec fn is_hex_digit(b: u8) -> bool {
    (48 <= b && b <= 57) || (97 <= b && b <= 102) || (65 <= b && b <= 70)
}

/// Numeric value of a hexadecimal digit byte.
pub open spec fn hex_digit_value(b: u8) -> int {
    if 48 <= b && b <= 57 {
        b - 48
    } else if 97 <= b && b <= 102 {
        b - 87
    } else {
        b - 55
    }
}

/// A canonical identifier: 36 bytes, hyphens exactly at the separator
/// positions, hexadecimal digits everywhere else.
pub open spec fn is_canonical_id(s: Seq<u8>) -> bool {
    &&& s.len() == 36
    &&& forall|i: int| 0 <= i < 36 && is_hyphen_pos(i) ==> (#[trigger] s[i]) == 45
    &&& forall|i: int| 0 <= i < 36 && !is_hyphen_pos(i) ==> is_hex_digit(#[trigger] s[i])
}

/// Value of the first `n` bytes, reading digits most significant first
/// and skipping the separator positions.
pub open spec fn id_prefix_value(s: Seq<u8>, n: int) -> int
    decreases n,
{
    if n <= 0 {
        0
    } else if is_hyphen_pos(n - 1) {
        id_prefix_value(s, n - 1)
    } else {
        id_prefix_value(s, n - 1) * 16 + hex_digit_value(s[n - 1])
    }
}

/// The 128-bit value a canonical identifier denotes.
pub open spec fn id_value(s: Seq<u8>) -> int {
    id_prefix_value(s, 36)
}

/// Number of digit (non-separator) positions among the first `n`.
pub open spec fn digit_count(n: int) -> int {
    n - (if n > 8 { 1int } else { 0int }) - (if n > 13 { 1int } else { 0int }) - (if n > 18 {
        1int
    } else {
        0int
    }) - (if n > 23 { 1int } else { 0int })
}

proof fn lemma_pow2_128()
    ensures
        pow2(128) == 0x100000000000000000000000000000000int,
{
    lemma2_to64();
    lemma_pow2_adds(64, 64);
}

/// A conforming prefix of `n` bytes denotes fewer than 16 to the power of
/// its digit count.
proof fn lemma_prefix_value_bound(s: Seq<u8>, n: int)
    requires
        0 <= n <= 36,
        forall|i: int| 0 <= i < n && !is_hyphen_pos(i) ==> is_hex_digit(#[trigger] s[i]),
    ensures
        0 <= id_prefix_value(s, n) < pow2((4 * digit_count(n)) as nat),
    decreases n,
{
    lemma2_to64();
    if n > 0 {
        lemma_prefix_value_bound(s, n - 1);
        if !is_hyphen_pos(n - 1) {
            lemma_pow2_adds((4 * digit_count(n - 1)) as nat, 4);
        }
    }
}

/// The prefix value only reads positions below `n`.
proof fn lemma_prefix_value_push(s: Seq<u8>, x: u8, n: int)
    requires
        0 <= n <= s.len(),
    ensures
        id_prefix_value(s.push(x), n) == id_prefix_value(s, n),
    decreases n,
{
    if n > 0 {
        lemma_prefix_value_push(s, x, n - 1);
        assert(s.push(x)[n - 1] == s[n - 1]);
    }
}

/// Parses the canonical 36-byte form. Returns the denoted value exactly
/// when the input is canonical, and nothing otherwise.
pub fn parse_session_id(s: &[u8]) -> (r: Option<u128>)
    ensures
        r is Some <==> is_canonical_id(s@),
        is_canonical_id(s@) ==> r == Some(id_value(s@) as u128),
{
    if s.len() != 36 {
        return None;
    }
    proof {
        lemma2_to64();
    }
    let mut acc: u128 = 0;
    let mut i: usize = 0;
    while i < 36
        invariant
            0 <= i <= 36,
            s@.len() == 36,
            forall|j: int| 0 <= j < i && is_hyphen_pos(j) ==> (#[trigger] s@[j]) == 45,
            forall|j: int| 0 <= j < i && !is_hyphen_pos(j) ==> is_hex_digit(#[trigger] s@[j]),
            acc == id_prefix_value(s@, i as int),
            acc < pow2((4 * digit_count(i as int)) as nat),
        decreases 36 - i,
    {
        let b = s[i];
        if i == 8 || i == 13 || i == 18 || i == 23 {
            if b != 45 {
                return None;
            }
        } else {
            let d: u8 = if 48 <= b && b <= 57 {
                b - 48
            } else if 97 <= b && b <= 102 {
                b - 87
            } else if 65 <= b && b <= 70 {
                b - 55
            } else {
                return None;
            };
            proof {
                let k = digit_count(i as int);
                assert(k <= 31);
                lemma_pow2_adds((4 * k) as nat, 4);
                lemma2_to64();
                if 4 * k + 4 < 128 {
                    lemma_pow2_strictly_increases((4 * k + 4) as nat, 128);
                }
                lemma_pow2_128();
            }
            acc = acc * 16 + (d as u128);
        }
        i += 1;
    }
    proof {
        lemma_pow2_128();
    }
    Some(acc)
}

/// Formats a 128-bit value as its lowercase canonical 36-byte text.
pub fn format_session_id(v: u128) -> (r: Vec<u8>)
    ensures
        is_canonical_id(r@),
        id_value(r@) == v as int,
        forall|i: int|
            0 <= i < 36 && !is_hyphen_pos(i) ==> ((48 <= #[trigger] r@[i] && r@[i] <= 57) || (97
                <= r@[i] && r@[i] <= 102)),
{
    let mut out: Vec<u8> = Vec::new();
    let mut p: u128 = 0x10000000000000000000000000000000;
    proof {
        lemma_pow2_128();
        lemma_pow2_adds(124, 4);
        lemma2_to64();
        assert(p == pow2(124));
        lemma_basic_div(v as int, pow2(128) as int);
    }
    let mut i: usize = 0;
    while i < 36
        invariant
            0 <= i <= 36,
            out@.len() == i as int,
            forall|j: int| 0 <= j < i && is_hyphen_pos(j) ==> (#[trigger] out@[j]) == 45,
            forall|j: int|
                0 <= j < i && !is_hyphen_pos(j) ==> ((48 <= #[trigger] out@[j] && out@[j] <= 57)
                    || (97 <= out@[j] && out@[j] <= 102)),
            id_prefix_value(out@, i as int) == v as int / pow2(
                (128 - 4 * digit_count(i as int)) as nat,
            ) as int,
            i < 36 ==> p == pow2((124 - 4 * digit_count(i as int)) as nat),
        decreases 36 - i,
    {
        let ghost pre = out@;
        let ghost k = digit_count(i as int);
        proof {
            assert(0 <= k <= 31);
        }
        if i == 8 || i == 13 || i == 18 || i == 23 {
            out.push(45);
            proof {
                lemma_prefix_value_push(pre, 45, i as int);
            }
        } else {
            proof {
                lemma_pow2_pos((124 - 4 * k) as nat);
            }
            let q = v / p;
            let d = (q % 16) as u8;
            let c: u8 = if d < 10 {
                d + 48
            } else {
                d + 87
            };
            out.push(c);
            proof {
                let b = pow2((124 - 4 * k) as nat) as int;
                lemma2_to64();
                lemma_pow2_adds((124 - 4 * k) as nat, 4);
                lemma_div_denominator(v as int, b, 16);
                lemma_fundamental_div_mod(v as int / b, 16);
                lemma_prefix_value_push(pre, c, i as int);
                assert(hex_digit_value(c) == q % 16);
                assert(id_prefix_value(out@, i + 1) == id_prefix_value(out@, i as int) * 16
                    + hex_digit_value(c));
                assert(id_prefix_value(out@, i as int) == (v as int / b) / 16);
                assert(id_prefix_value(out@, i + 1) == v as int / b);
                assert(128 - 4 * digit_count(i + 1) == 124 - 4 * k);
            }
            if i < 35 {
                proof {
                    assert(digit_count(i + 1) == k + 1);
                    assert(k + 1 <= 31);
                    lemma2_to64();
                    lemma_pow2_adds((120 - 4 * k) as nat, 4);
                    lemma_div_multiples_vanish(pow2((120 - 4 * k) as nat) as int, 16);
                }
                p = p / 16;
            }
        }
        i += 1;
    }
    proof {
        lemma2_to64();
        lemma_fundamental_div_mod(v as int, 1);
    }
    out
}

} // verus!
