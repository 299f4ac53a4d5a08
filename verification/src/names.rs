//! Sanitisation of requested volume names into pool-path components.
//!
//! A requested name may contain arbitrary characters; before it is used
//! as a component of a dataset path every character outside
//! `[A-Za-z0-9_-]` is replaced by `_`.

use crate::strutil::ascii_string_of;
use vstd::prelude::*;

verus! {

/// A character that may appear verbatim in a dataset path component.
pub open spec fn allowed_char(c: char) -> bool {
    ('a' <= c && c <= 'z') || ('A' <= c && c <= 'Z') || ('0' <= c && c <= '9') || c == '_' || c
        == '-'
}

/// What sanitisation does to a single character.
pub open spec fn sanitise_char(c: char) -> char {
    if allowed_char(c) {
        c
    } else {
        '_'
    }
}

/// The sanitised form of a name: every character outside the allowed
/// set becomes `_`; allowed characters are kept as they are.
pub open spec fn sanitised(s: Seq<char>) -> Seq<char> {
    s.map_values(|c: char| sanitise_char(c))
}

fn allowed(c: char) -> (r: bool)
    ensures
        r == allowed_char(c),
{
    ('a' <= c && c <= 'z') || ('A' <= c && c <= 'Z') || ('0' <= c && c <= '9') || c == '_' || c
        == '-'
}

/// Replace every character outside `[A-Za-z0-9_-]` with `_`.
pub fn sanitize_vol(vol: &str) -> (r: String)
    ensures
        r@ == sanitised(vol@),
{
    let n = vol.unicode_len();
    let mut bytes: Vec<u8> = Vec::new();
    let mut i: usize = 0;
    while i < n
        invariant
            i <= n,
            n == vol@.len(),
            bytes@.len() == i,
            forall|j: int| 0 <= j < i ==> bytes@[j] < 128,
            forall|j: int| 0 <= j < i ==> bytes@[j] as char == sanitise_char(vol@[j]),
        decreases n - i,
    {
        let c = vol.get_char(i);
        let b: u8 = if allowed(c) {
            #[verifier::truncate] ((c as u32) as u8)
        } else {
            95u8
        };
        bytes.push(b);
        i += 1;
    }
    let r = ascii_string_of(&bytes);
    proof {
        assert(r@ =~= sanitised(vol@));
    }
    r
}

/// Sanitising an already-sanitised name changes nothing.
pub proof fn lemma_sanitise_idempotent(s: Seq<char>)
    ensures
        sanitised(sanitised(s)) == sanitised(s),
{
    assert(sanitised(sanitised(s)) =~= sanitised(s));
}

} // verus!
