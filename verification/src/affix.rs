//! Character-level string surgery.
//!
//! Every rule of the engine measures and slices words in characters
//! (Unicode scalar values), never in bytes: Japanese kana and kanji are
//! multi-byte in UTF-8, and a byte-indexed slice could split a
//! character. These helpers are the only place the crate touches a
//! string's representation; everything above them speaks `Seq<char>`.

use vstd::prelude::*;
use vstd::string::StrSliceExecFns;
use vstd::string::StringExecFns;

verus! {

/// True when `p` is the trailing run of characters of `w`.
pub open spec fn ends_with(w: Seq<char>, p: Seq<char>) -> bool {
    p.len() <= w.len() && w.skip(w.len() - p.len()) == p
}

/// True when `p` is the leading run of characters of `w`.
pub open spec fn starts_with(w: Seq<char>, p: Seq<char>) -> bool {
    p.len() <= w.len() && w.take(p.len() as int) == p
}

/// The word without its last `k` characters.
pub open spec fn trim_last(w: Seq<char>, k: int) -> Seq<char> {
    w.take(w.len() - k)
}

/// Character-wise test that `s` ends with `pat`.
pub fn ends_with_chars(s: &str, pat: &str) -> (r: bool)
    ensures
        r == ends_with(s@, pat@),
{
    let n = s.unicode_len();
    let k = pat.unicode_len();
    if k > n {
        return false;
    }
    let mut i: usize = 0;
    while i < k
        invariant
            i <= k <= n,
            n == s@.len(),
            k == pat@.len(),
            forall|j: int| 0 <= j < i ==> s@[n - k + j] == pat@[j],
        decreases k - i,
    {
        if s.get_char(n - k + i) != pat.get_char(i) {
            assert(!ends_with(s@, pat@)) by {
                if ends_with(s@, pat@) {
                    assert(s@.skip(n - k)[i as int] == pat@[i as int]);
                }
            }
            return false;
        }
        i += 1;
    }
    assert(s@.skip(n - k) =~= pat@);
    true
}

/// Character-wise test that `s` starts with `pat`.
pub fn starts_with_chars(s: &str, pat: &str) -> (r: bool)
    ensures
        r == starts_with(s@, pat@),
{
    let n = s.unicode_len();
    let k = pat.unicode_len();
    if k > n {
        return false;
    }
    let mut i: usize = 0;
    while i < k
        invariant
            i <= k <= n,
            n == s@.len(),
            k == pat@.len(),
            forall|j: int| 0 <= j < i ==> s@[j] == pat@[j],
        decreases k - i,
    {
        if s.get_char(i) != pat.get_char(i) {
            assert(!starts_with(s@, pat@)) by {
                if starts_with(s@, pat@) {
                    assert(s@.take(k as int)[i as int] == pat@[i as int]);
                }
            }
            return false;
        }
        i += 1;
    }
    assert(s@.take(k as int) =~= pat@);
    true
}

/// A copy of `s` without its last `k` characters.
pub fn trim_last_chars(s: &str, k: usize) -> (r: String)
    requires
        k <= s@.len(),
    ensures
        r@ == trim_last(s@, k as int),
{
    let n = s.unicode_len();
    let sub = s.substring_char(0, n - k);
    String::from_str(sub)
}

/// A copy of `s` with its last `k` characters replaced by `suffix`.
pub fn trim_then_append(s: &str, k: usize, suffix: &str) -> (r: String)
    requires
        k <= s@.len(),
    ensures
        r@ == trim_last(s@, k as int) + suffix@,
{
    trim_last_chars(s, k).concat(suffix)
}

} // verus!
