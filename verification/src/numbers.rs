//! Verified decimal rendering and parsing of unsigned integers, used
//! for pool property values (quota, timestamps) and for the fields of
//! the pool's tab-separated listing output.

use crate::strutil::ascii_string_of;
use vstd::prelude::*;

verus! {

/// The character for a single decimal digit.
pub open spec fn digit_char(d: nat) -> char {
    ((48 + d) as u8) as char
}

/// The decimal rendering of `n`, most significant digit first.
pub open spec fn dec_str(n: nat) -> Seq<char>
    decreases n,
{
    if n < 10 {
        seq![digit_char(n)]
    } else {
        dec_str(n / 10).push(digit_char(n % 10))
    }
}

pub open spec fn is_digit_char(c: char) -> bool {
    '0' <= c && c <= '9'
}

pub open spec fn all_digit_chars(s: Seq<char>) -> bool {
    forall|i: int| 0 <= i < s.len() ==> is_digit_char(s[i])
}

/// The numeric value of a sequence of decimal digit characters.
pub open spec fn dec_value(s: Seq<char>) -> nat
    decreases s.len(),
{
    if s.len() == 0 {
        0
    } else {
        dec_value(s.drop_last()) * 10 + (((s.last() as int) - 48) as nat)
    }
}

/// A digit appended on the right never decreases the value of the
/// prefix read so far.
proof fn lemma_dec_value_prefix_le(s: Seq<char>, i: int)
    requires
        0 <= i <= s.len(),
        all_digit_chars(s),
    ensures
        dec_value(s.take(i)) <= dec_value(s),
    decreases s.len() - i,
{
    if i < s.len() {
        assert(s.take(i + 1).drop_last() =~= s.take(i));
        assert(s.take(i + 1).last() == s[i]);
        assert(dec_value(s.take(i)) <= dec_value(s.take(i + 1)));
        lemma_dec_value_prefix_le(s, i + 1);
    } else {
        assert(s.take(i) =~= s);
    }
}

/// Parse a non-empty, all-digit string as a `u64`; `None` when the
/// string is empty, holds a non-digit, or the value does not fit.
pub fn parse_u64(s: &str) -> (r: Option<u64>)
    ensures
        r is Some <==> (s@.len() > 0 && all_digit_chars(s@) && dec_value(s@) <= u64::MAX),
        r is Some ==> r->0 as nat == dec_value(s@),
{
    let n = s.unicode_len();
    if n == 0 {
        return None;
    }
    let mut acc: u64 = 0;
    let mut i: usize = 0;
    while i < n
        invariant
            i <= n,
            n == s@.len(),
            forall|k: int| 0 <= k < i ==> is_digit_char(s@[k]),
            acc as nat == dec_value(s@.take(i as int)),
        decreases n - i,
    {
        let c = s.get_char(i);
        if !('0' <= c && c <= '9') {
            return None;
        }
        let d: u64 = (c as u32 - 48) as u64;
        proof {
            assert(s@.take(i + 1).drop_last() =~= s@.take(i as int));
            assert(s@.take(i + 1).last() == s@[i as int]);
        }
        let shifted = match acc.checked_mul(10) {
            Some(v) => v,
            None => {
                proof {
                    overflow_means_none(s@, i as int);
                }
                return None;
            },
        };
        acc = match shifted.checked_add(d) {
            Some(v) => v,
            None => {
                proof {
                    overflow_means_none(s@, i as int);
                }
                return None;
            },
        };
        i += 1;
    }
    proof {
        assert(s@.take(n as int) =~= s@);
    }
    Some(acc)
}

/// If the value of the first `i + 1` digits already exceeds `u64::MAX`,
/// so does the value of the whole string.
proof fn overflow_means_none(s: Seq<char>, i: int)
    requires
        0 <= i < s.len(),
        forall|k: int| 0 <= k <= i ==> is_digit_char(s[k]),
        dec_value(s.take(i + 1)) > u64::MAX,
    ensures
        all_digit_chars(s) ==> dec_value(s) > u64::MAX,
{
    if all_digit_chars(s) {
        lemma_dec_value_prefix_le(s, i + 1);
    }
}

/// The decimal rendering of `n` is non-empty, consists of digits, and
/// reads back as `n`.
pub proof fn lemma_dec_str_value(n: nat)
    ensures
        dec_str(n).len() > 0,
        all_digit_chars(dec_str(n)),
        dec_value(dec_str(n)) == n,
    decreases n,
{
    reveal_with_fuel(dec_value, 3);
    if n < 10 {
        assert(dec_str(n) =~= seq![digit_char(n)]);
        assert(is_digit_char(digit_char(n)));
        assert(seq![digit_char(n)].drop_last() =~= Seq::<char>::empty());
        assert(seq![digit_char(n)].last() == digit_char(n));
        assert(digit_char(n) as int == 48 + n);
        assert(dec_value(dec_str(n)) == n);
    } else {
        lemma_dec_str_value(n / 10);
        let s = dec_str(n / 10).push(digit_char(n % 10));
        assert(s.drop_last() =~= dec_str(n / 10));
        assert(s.last() == digit_char(n % 10));
        assert(is_digit_char(digit_char(n % 10)));
        assert(forall|i: int| 0 <= i < s.len() ==> is_digit_char(#[trigger] s[i]));
        assert(dec_value(s) == (n / 10) * 10 + n % 10);
        assert((n / 10) * 10 + n % 10 == n) by (nonlinear_arith);
    }
}

/// Render `n` in decimal.
pub fn dec_string_u128(n: u128) -> (r: String)
    ensures
        r@ == dec_str(n as nat),
{
    let mut rev: Vec<u8> = Vec::new();
    let mut m = n;
    while m >= 10
        invariant
            dec_str(n as nat) == dec_str(m as nat) + rev@.map_values(|b: u8| b as char).reverse(),
            forall|k: int| 0 <= k < rev@.len() ==> 48 <= #[trigger] rev@[k] < 58,
        decreases m,
    {
        let d: u8 = (m % 10) as u8 + 48;
        proof {
            let prev = rev@.map_values(|b: u8| b as char).reverse();
            assert(rev@.push(d).map_values(|b: u8| b as char).reverse() =~= seq![d as char]
                + prev);
            assert(dec_str(m as nat) == dec_str((m as nat) / 10).push(digit_char((m as nat) % 10)));
            assert(d as char == digit_char((m as nat) % 10));
            assert(dec_str((m as nat) / 10).push(digit_char((m as nat) % 10)) =~= dec_str(
                (m as nat) / 10,
            ) + seq![d as char]);
            assert(dec_str((m as nat) / 10) + (seq![d as char] + prev) =~= (dec_str((m as nat) / 10)
                + seq![d as char]) + prev);
        }
        rev.push(d);
        m = m / 10;
    }
    let d: u8 = m as u8 + 48;
    proof {
        let prev = rev@.map_values(|b: u8| b as char).reverse();
        assert(d as char == digit_char(m as nat));
        assert(dec_str(m as nat) =~= seq![d as char]);
        assert(rev@.push(d).map_values(|b: u8| b as char).reverse() =~= seq![d as char] + prev);
    }
    rev.push(d);
    let mut out: Vec<u8> = Vec::new();
    let mut i = rev.len();
    while i > 0
        invariant
            i <= rev@.len(),
            forall|k: int| 0 <= k < rev@.len() ==> 48 <= #[trigger] rev@[k] < 58,
            out@ == rev@.subrange(i as int, rev@.len() as int).reverse(),
        decreases i,
    {
        i -= 1;
        proof {
            assert(rev@.subrange(i as int, rev@.len() as int).reverse() =~= out@.push(rev@[i as int]));
        }
        let b = rev[i];
        out.push(b);
    }
    proof {
        assert(out@ =~= rev@.reverse());
    }
    let r = ascii_string_of(&out);
    proof {
        assert(r@ =~= rev@.map_values(|b: u8| b as char).reverse());
    }
    r
}

/// Render a `u64` in decimal.
pub fn dec_string_u64(n: u64) -> (r: String)
    ensures
        r@ == dec_str(n as nat),
{
    dec_string_u128(n as u128)
}

/// The octal rendering of `n`, most significant digit first.
pub open spec fn oct_str(n: nat) -> Seq<char>
    decreases n,
{
    if n < 8 {
        seq![digit_char(n)]
    } else {
        oct_str(n / 8).push(digit_char(n % 8))
    }
}

/// Render `n` in octal.
pub fn oct_string_u32(n: u32) -> (r: String)
    ensures
        r@ == oct_str(n as nat),
{
    let mut rev: Vec<u8> = Vec::new();
    let mut m = n;
    while m >= 8
        invariant
            oct_str(n as nat) == oct_str(m as nat) + rev@.map_values(|b: u8| b as char).reverse(),
            forall|k: int| 0 <= k < rev@.len() ==> 48 <= #[trigger] rev@[k] < 58,
        decreases m,
    {
        let d: u8 = (m % 8) as u8 + 48;
        proof {
            let prev = rev@.map_values(|b: u8| b as char).reverse();
            assert(rev@.push(d).map_values(|b: u8| b as char).reverse() =~= seq![d as char]
                + prev);
            assert(oct_str(m as nat) == oct_str((m as nat) / 8).push(digit_char((m as nat) % 8)));
            assert(d as char == digit_char((m as nat) % 8));
            assert(oct_str((m as nat) / 8).push(digit_char((m as nat) % 8)) =~= oct_str(
                (m as nat) / 8,
            ) + seq![d as char]);
            assert(oct_str((m as nat) / 8) + (seq![d as char] + prev) =~= (oct_str((m as nat) / 8)
                + seq![d as char]) + prev);
        }
        rev.push(d);
        m = m / 8;
    }
    let d: u8 = m as u8 + 48;
    proof {
        let prev = rev@.map_values(|b: u8| b as char).reverse();
        assert(d as char == digit_char(m as nat));
        assert(oct_str(m as nat) =~= seq![d as char]);
        assert(rev@.push(d).map_values(|b: u8| b as char).reverse() =~= seq![d as char] + prev);
    }
    rev.push(d);
    let mut out: Vec<u8> = Vec::new();
    let mut i = rev.len();
    while i > 0
        invariant
            i <= rev@.len(),
            forall|k: int| 0 <= k < rev@.len() ==> 48 <= #[trigger] rev@[k] < 58,
            out@ == rev@.subrange(i as int, rev@.len() as int).reverse(),
        decreases i,
    {
        i -= 1;
        proof {
            assert(rev@.subrange(i as int, rev@.len() as int).reverse() =~= out@.push(
                rev@[i as int],
            ));
        }
        let b = rev[i];
        out.push(b);
    }
    proof {
        assert(out@ =~= rev@.reverse());
    }
    let r = ascii_string_of(&out);
    proof {
        assert(r@ =~= rev@.map_values(|b: u8| b as char).reverse());
    }
    r
}

} // verus!
