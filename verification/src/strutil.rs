//! Small verified string helpers shared across the crate: building an
//! ASCII `String` from bytes and substring search.

use vstd::prelude::*;

verus! {

/// Relies on `String::from_utf8_lossy`: bytes below 128 are valid
/// UTF-8 and decode one character per byte.
#[verifier::external_body]
pub(crate) fn ascii_string_of(bytes: &Vec<u8>) -> (r: String)
    requires
        forall|j: int| 0 <= j < bytes@.len() ==> bytes@[j] < 128,
    ensures
        r@ == bytes@.map_values(|b: u8| b as char),
{
    String::from_utf8_lossy(bytes).into_owned()
}

/// `needle` occurs somewhere in `haystack`.
pub open spec fn has_substring(haystack: Seq<char>, needle: Seq<char>) -> bool {
    exists|i: int| matches_at(haystack, needle, i)
}

/// The characters of `haystack` starting at `at` begin with `needle`.
pub open spec fn matches_at(haystack: Seq<char>, needle: Seq<char>, at: int) -> bool {
    0 <= at && at + needle.len() <= haystack.len() && haystack.subrange(at, at + needle.len())
        == needle
}

fn matches_here(haystack: &str, needle: &str, at: usize) -> (r: bool)
    requires
        at + needle@.len() <= haystack@.len(),
        haystack@.len() <= usize::MAX,
    ensures
        r == matches_at(haystack@, needle@, at as int),
{
    let m = needle.unicode_len();
    let mut j: usize = 0;
    while j < m
        invariant
            j <= m,
            m == needle@.len(),
            at + m <= haystack@.len(),
            haystack@.len() <= usize::MAX,
            forall|k: int| 0 <= k < j ==> haystack@[at + k] == needle@[k],
        decreases m - j,
    {
        if haystack.get_char(at + j) != needle.get_char(j) {
            assert(haystack@.subrange(at as int, at + m) != needle@) by {
                assert(haystack@.subrange(at as int, at + m)[j as int] != needle@[j as int]);
            }
            return false;
        }
        j += 1;
    }
    proof {
        assert(haystack@.subrange(at as int, at + m) =~= needle@);
    }
    true
}

/// Whether `needle` occurs anywhere in `haystack`.
pub fn contains_str(haystack: &str, needle: &str) -> (r: bool)
    ensures
        r == has_substring(haystack@, needle@),
{
    let n = haystack.unicode_len();
    let m = needle.unicode_len();
    if m > n {
        assert(!has_substring(haystack@, needle@));
        return false;
    }
    let bound = n - m;
    let mut i: usize = 0;
    loop
        invariant_except_break
            m <= n,
            n == haystack@.len(),
            m == needle@.len(),
            i <= bound,
            bound == n - m,
            forall|k: int| 0 <= k < i ==> !matches_at(haystack@, needle@, k),
        ensures
            !has_substring(haystack@, needle@),
        decreases bound - i,
    {
        if matches_here(haystack, needle, i) {
            assert(has_substring(haystack@, needle@));
            return true;
        }
        if i == bound {
            assert(forall|k: int| 0 <= k <= bound ==> !matches_at(haystack@, needle@, k));
            assert(forall|k: int| k > bound ==> !matches_at(haystack@, needle@, k));
            break;
        }
        i += 1;
    }
    false
}

} // verus!
