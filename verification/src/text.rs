//! Verified text utilities: exact, prefix, substring and ASCII
//! case-insensitive substring matching over `&str` values.

use vstd::prelude::*;

verus! {

/// Two characters match up to ASCII case: equal outright, or the same
/// letter with one side upper-case and the other lower-case.
pub open spec fn chars_eq_ci(a: char, b: char) -> bool {
    ||| a == b
    ||| ('A' <= a && a <= 'Z' && b as int == a as int + 32)
    ||| ('A' <= b && b <= 'Z' && a as int == b as int + 32)
}

/// `pat` occurs in `s` starting at position `i`.
pub open spec fn matches_at(s: Seq<char>, pat: Seq<char>, i: int) -> bool {
    &&& 0 <= i
    &&& i + pat.len() <= s.len()
    &&& forall|j: int| 0 <= j < pat.len() ==> s[i + j] == pat[j]
}

/// `pat` occurs somewhere in `s`.
pub open spec fn contains_seq(s: Seq<char>, pat: Seq<char>) -> bool {
    exists|i: int| matches_at(s, pat, i)
}

/// `pat` occurs in `s` starting at position `i`, up to ASCII case.
pub open spec fn matches_at_ci(s: Seq<char>, pat: Seq<char>, i: int) -> bool {
    &&& 0 <= i
    &&& i + pat.len() <= s.len()
    &&& forall|j: int| 0 <= j < pat.len() ==> chars_eq_ci(s[i + j], pat[j])
}

/// `pat` occurs somewhere in `s`, up to ASCII case.
pub open spec fn contains_seq_ci(s: Seq<char>, pat: Seq<char>) -> bool {
    exists|i: int| matches_at_ci(s, pat, i)
}

/// Exact equality of two string slices.
pub fn str_eq(a: &str, b: &str) -> (r: bool)
    ensures
        r == (a@ == b@),
{
    let alen = a.unicode_len();
    let blen = b.unicode_len();
    if alen != blen {
        assert(a@ != b@);
        return false;
    }
    let mut i: usize = 0;
    while i < alen
        invariant
            alen == a@.len(),
            blen == b@.len(),
            alen == blen,
            i <= alen,
            forall|j: int| 0 <= j < i ==> a@[j] == b@[j],
        decreases alen - i,
    {
        if a.get_char(i) != b.get_char(i) {
            assert(a@[i as int] != b@[i as int]);
            return false;
        }
        i = i + 1;
    }
    assert(a@ =~= b@);
    true
}

/// `s` begins with `pat`.
pub open spec fn starts_with_seq(s: Seq<char>, pat: Seq<char>) -> bool {
    matches_at(s, pat, 0)
}

/// `pat` occurs in `s` at position `i` (all positions checked).
fn match_at(s: &str, pat: &str, i: usize) -> (r: bool)
    requires
        s@.len() <= usize::MAX,
        i + pat@.len() <= s@.len(),
    ensures
        r == matches_at(s@, pat@, i as int),
{
    let plen = pat.unicode_len();
    let mut j: usize = 0;
    while j < plen
        invariant
            s@.len() <= usize::MAX,
            plen == pat@.len(),
            i + plen <= s@.len(),
            j <= plen,
            forall|k: int| 0 <= k < j ==> s@[i + k] == pat@[k],
        decreases plen - j,
    {
        if s.get_char(i + j) != pat.get_char(j) {
            assert(s@[i + j as int] != pat@[j as int]);
            return false;
        }
        j = j + 1;
    }
    true
}

/// `pat` occurs in `s` at position `i`, up to ASCII case.
fn match_at_ci(s: &str, pat: &str, i: usize) -> (r: bool)
    requires
        s@.len() <= usize::MAX,
        i + pat@.len() <= s@.len(),
    ensures
        r == matches_at_ci(s@, pat@, i as int),
{
    let plen = pat.unicode_len();
    let mut j: usize = 0;
    while j < plen
        invariant
            s@.len() <= usize::MAX,
            plen == pat@.len(),
            i + plen <= s@.len(),
            j <= plen,
            forall|k: int| 0 <= k < j ==> chars_eq_ci(s@[i + k], pat@[k]),
        decreases plen - j,
    {
        if !chars_match_ci(s.get_char(i + j), pat.get_char(j)) {
            assert(!chars_eq_ci(s@[i + j as int], pat@[j as int]));
            return false;
        }
        j = j + 1;
    }
    true
}

/// Exact prefix test.
pub fn str_starts_with(s: &str, pat: &str) -> (r: bool)
    ensures
        r == starts_with_seq(s@, pat@),
{
    let slen = s.unicode_len();
    let plen = pat.unicode_len();
    if plen > slen {
        return false;
    }
    match_at(s, pat, 0)
}

/// Exact substring test.
pub fn str_contains(s: &str, pat: &str) -> (r: bool)
    ensures
        r == contains_seq(s@, pat@),
{
    let slen = s.unicode_len();
    let plen = pat.unicode_len();
    if plen > slen {
        assert(forall|i: int| !matches_at(s@, pat@, i));
        return false;
    }
    let mut i: usize = 0;
    while i <= slen - plen
        invariant
            slen == s@.len(),
            plen == pat@.len(),
            plen <= slen,
            i <= slen - plen + 1,
            forall|k: int| 0 <= k < i ==> !matches_at(s@, pat@, k),
        decreases slen - plen + 1 - i,
    {
        if match_at(s, pat, i) {
            return true;
        }
        i = i + 1;
    }
    assert forall|k: int| !matches_at(s@, pat@, k) by {
        if 0 <= k && k + pat@.len() <= s@.len() {
            assert(k < i);
        }
    }
    false
}

/// Substring test up to ASCII case.
pub fn str_contains_ci(s: &str, pat: &str) -> (r: bool)
    ensures
        r == contains_seq_ci(s@, pat@),
{
    let slen = s.unicode_len();
    let plen = pat.unicode_len();
    if plen > slen {
        assert(forall|i: int| !matches_at_ci(s@, pat@, i));
        return false;
    }
    let mut i: usize = 0;
    while i <= slen - plen
        invariant
            slen == s@.len(),
            plen == pat@.len(),
            plen <= slen,
            i <= slen - plen + 1,
            forall|k: int| 0 <= k < i ==> !matches_at_ci(s@, pat@, k),
        decreases slen - plen + 1 - i,
    {
        if match_at_ci(s, pat, i) {
            return true;
        }
        i = i + 1;
    }
    assert forall|k: int| !matches_at_ci(s@, pat@, k) by {
        if 0 <= k && k + pat@.len() <= s@.len() {
            assert(k < i);
        }
    }
    false
}

/// Relies on `String::push`: appends the given character to the end of the
/// string.
#[verifier::external_body]
pub(crate) fn push_char(s: &mut String, c: char)
    ensures
        final(s)@ == old(s)@.push(c),
{
    s.push(c)
}

/// Case-insensitive character comparison for ASCII letters.
pub fn chars_match_ci(a: char, b: char) -> (r: bool)
    ensures
        r == chars_eq_ci(a, b),
{
    if a == b {
        return true;
    }
    let au = a as u32;
    let bu = b as u32;
    if 65 <= au && au <= 90 && bu == au + 32 {
        return true;
    }
    if 65 <= bu && bu <= 90 && au == bu + 32 {
        return true;
    }
    false
}

} // verus!
