//! Verified string splitting and trimming, the workhorses behind the feed's
//! semi-structured text: splitting on a literal separator exactly as the
//! standard library does (leftmost, non-overlapping), and trimming ASCII
//! whitespace or a trailing character.

use vstd::prelude::*;

use crate::text::{contains_seq, matches_at};

verus! {

/// The position of the first occurrence of `sep` in `s` at or after `from`;
/// when there is none, the first position past the last candidate.
pub open spec fn first_match_from(s: Seq<char>, sep: Seq<char>, from: nat) -> nat
    decreases s.len() - from,
{
    if from + sep.len() > s.len() {
        from
    } else if matches_at(s, sep, from as int) {
        from
    } else {
        first_match_from(s, sep, from + 1)
    }
}

/// The segments of `s` between non-overlapping occurrences of `sep`,
/// leftmost occurrence first, exactly as the standard library's `split`
/// yields them for a non-empty literal separator.
pub open spec fn split_spec(s: Seq<char>, sep: Seq<char>) -> Seq<Seq<char>>
    decreases s.len(),
{
    if sep.len() == 0 {
        seq![s]
    } else {
        let i = first_match_from(s, sep, 0);
        if i + sep.len() <= s.len() && matches_at(s, sep, i as int) {
            seq![s.take(i as int)] + split_spec(s.skip((i + sep.len()) as int), sep)
        } else {
            seq![s]
        }
    }
}

/// The views of a vector of owned strings.
pub open spec fn strings_view(v: Seq<String>) -> Seq<Seq<char>> {
    v.map_values(|x: String| x@)
}

/// `first_match_from` never looks backwards.
proof fn lemma_first_match_from_bounds(s: Seq<char>, sep: Seq<char>, from: nat)
    ensures
        first_match_from(s, sep, from) >= from,
    decreases s.len() - from,
{
    if from + sep.len() <= s.len() && !matches_at(s, sep, from as int) {
        lemma_first_match_from_bounds(s, sep, from + 1);
    }
}

/// Finds the first occurrence of `sep` in `s`: the returned index is exactly
/// [`first_match_from`] at zero, and `None` means `s` does not contain `sep`
/// at all.
pub fn find_first(s: &str, sep: &str) -> (r: Option<usize>)
    requires
        sep@.len() >= 1,
    ensures
        match r {
            Some(i) => i == first_match_from(s@, sep@, 0) && matches_at(s@, sep@, i as int),
            None => !contains_seq(s@, sep@) && first_match_from(s@, sep@, 0) + sep@.len()
                > s@.len(),
        },
{
    let slen = s.unicode_len();
    let plen = sep.unicode_len();
    if plen > slen {
        assert(forall|i: int| !matches_at(s@, sep@, i));
        return None;
    }
    let mut i: usize = 0;
    while i <= slen - plen
        invariant
            slen == s@.len(),
            plen == sep@.len(),
            1 <= plen <= slen,
            i <= slen - plen + 1,
            first_match_from(s@, sep@, 0) == first_match_from(s@, sep@, i as nat),
            forall|k: int| 0 <= k < i ==> !matches_at(s@, sep@, k),
        decreases slen - plen + 1 - i,
    {
        let plen2 = sep.unicode_len();
        let mut j: usize = 0;
        let mut matched = true;
        while j < plen2
            invariant
                slen == s@.len(),
                plen2 == plen,
                plen == sep@.len(),
                i + plen <= slen,
                j <= plen,
                matched == (forall|k: int| 0 <= k < j ==> s@[i + k] == sep@[k]),
            decreases plen - j,
        {
            if s.get_char(i + j) != sep.get_char(j) {
                assert(s@[i + j as int] != sep@[j as int]);
                matched = false;
                j = plen2;
            } else {
                j = j + 1;
            }
        }
        if matched {
            assert(matches_at(s@, sep@, i as int));
            return Some(i);
        }
        assert(!matches_at(s@, sep@, i as int));
        i = i + 1;
    }
    assert forall|k: int| !matches_at(s@, sep@, k) by {
        if 0 <= k && k + sep@.len() <= s@.len() {
            assert(k < i);
        }
    }
    proof {
        lemma_first_match_from_bounds(s@, sep@, i as nat);
    }
    None
}

/// Splits `s` on a non-empty literal separator, exactly as the standard
/// library's `split` does.
pub fn split_str(s: &str, sep: &str) -> (r: Vec<String>)
    requires
        sep@.len() >= 1,
    ensures
        strings_view(r@) == split_spec(s@, sep@),
{
    let mut out: Vec<String> = Vec::new();
    let mut rest: String = s.to_owned();
    let seplen = sep.unicode_len();
    loop
        invariant
            seplen == sep@.len(),
            1 <= seplen,
            split_spec(s@, sep@) == strings_view(out@) + split_spec(rest@, sep@),
        decreases rest@.len(),
    {
        match find_first(rest.as_str(), sep) {
            Some(i) => {
                let restlen = rest.as_str().unicode_len();
                let piece = rest.as_str().substring_char(0, i).to_owned();
                let tail = rest.as_str().substring_char(i + seplen, restlen).to_owned();
                proof {
                    assert(piece@ =~= rest@.take(i as int));
                    assert(tail@ =~= rest@.skip((i + seplen) as int));
                    assert(split_spec(rest@, sep@) =~= seq![rest@.take(i as int)] + split_spec(
                        rest@.skip((i + seplen) as int),
                        sep@,
                    ));
                }
                out.push(piece);
                proof {
                    assert(strings_view(out@) =~= strings_view(out@.drop_last()) + seq![
                        rest@.take(i as int),
                    ]);
                    assert(strings_view(out@) + split_spec(tail@, sep@) =~= strings_view(
                        out@.drop_last(),
                    ) + split_spec(rest@, sep@));
                }
                rest = tail;
            },
            None => {
                proof {
                    assert(split_spec(rest@, sep@) =~= seq![rest@]);
                }
                out.push(rest);
                proof {
                    assert(strings_view(out@) =~= strings_view(out@.drop_last()) + seq![
                        out@.last()@,
                    ]);
                    assert(strings_view(out@) =~= strings_view(out@.drop_last()) + split_spec(
                        out@.last()@,
                        sep@,
                    ));
                }
                return out;
            },
        }
    }
}

/// Splitting yields at least one segment.
pub proof fn lemma_split_nonempty(s: Seq<char>, sep: Seq<char>)
    ensures
        split_spec(s, sep).len() >= 1,
{
}

/// When a match exists at or after `from`, `first_match_from` lands on a
/// real match.
proof fn lemma_first_match_finds(s: Seq<char>, sep: Seq<char>, from: nat, w: int)
    requires
        from <= w,
        matches_at(s, sep, w),
    ensures
        first_match_from(s, sep, from) + sep.len() <= s.len(),
        matches_at(s, sep, first_match_from(s, sep, from) as int),
    decreases s.len() - from,
{
    if from + sep.len() > s.len() {
        assert(false);
    } else if matches_at(s, sep, from as int) {
    } else {
        lemma_first_match_finds(s, sep, from + 1, w);
    }
}

/// A string that contains its non-empty separator splits into at least two
/// segments.
pub proof fn lemma_split_contains_two(s: Seq<char>, sep: Seq<char>)
    requires
        sep.len() >= 1,
        contains_seq(s, sep),
    ensures
        split_spec(s, sep).len() >= 2,
{
    let w = choose|i: int| matches_at(s, sep, i);
    lemma_first_match_finds(s, sep, 0, w);
    let i = first_match_from(s, sep, 0);
    lemma_split_nonempty(s.skip((i + sep.len()) as int), sep);
}

/// ASCII whitespace, the only kind the feed's text contains.
pub open spec fn is_ascii_space(c: char) -> bool {
    c == ' ' || c == '\t' || c == '\n' || c == '\r'
}

/// The first index at or after `from` holding a non-space character; the
/// length of `s` when there is none.
pub open spec fn first_non_space(s: Seq<char>, from: nat) -> nat
    decreases s.len() - from,
{
    if from >= s.len() {
        from
    } else if is_ascii_space(s[from as int]) {
        first_non_space(s, from + 1)
    } else {
        from
    }
}

/// One past the last non-space character of `s`; zero when `s` is all
/// spaces.
pub open spec fn after_last_non_space(s: Seq<char>) -> nat
    decreases s.len(),
{
    if s.len() == 0 {
        0
    } else if is_ascii_space(s.last()) {
        after_last_non_space(s.drop_last())
    } else {
        s.len()
    }
}

/// `s` with leading and trailing ASCII whitespace removed.
pub open spec fn trim_spec(s: Seq<char>) -> Seq<char> {
    let a = first_non_space(s, 0);
    let b = after_last_non_space(s);
    if a < b {
        s.subrange(a as int, b as int)
    } else {
        Seq::empty()
    }
}

/// `s` with every trailing occurrence of `c` removed.
pub open spec fn trim_end_char_spec(s: Seq<char>, c: char) -> Seq<char>
    decreases s.len(),
{
    if s.len() > 0 && s.last() == c {
        trim_end_char_spec(s.drop_last(), c)
    } else {
        s
    }
}

/// Trims leading and trailing ASCII whitespace.
pub fn trim_str(s: &str) -> (r: String)
    ensures
        r@ == trim_spec(s@),
{
    let n = s.unicode_len();
    let mut a: usize = 0;
    while a < n && is_space_char(s.get_char(a))
        invariant
            n == s@.len(),
            a <= n,
            first_non_space(s@, 0) == first_non_space(s@, a as nat),
        decreases n - a,
    {
        a = a + 1;
    }
    assert(first_non_space(s@, 0) == a);
    let mut b: usize = n;
    proof {
        assert(s@.take(n as int) =~= s@);
    }
    while b > 0 && is_space_char(s.get_char(b - 1))
        invariant
            n == s@.len(),
            b <= n,
            after_last_non_space(s@) == after_last_non_space(s@.take(b as int)),
        decreases b,
    {
        proof {
            assert(s@.take(b as int).last() == s@[b - 1]);
            assert(s@.take(b as int).drop_last() =~= s@.take(b - 1));
        }
        b = b - 1;
    }
    proof {
        if b > 0 {
            assert(s@.take(b as int).last() == s@[b - 1]);
        }
        assert(after_last_non_space(s@) == b);
    }
    if a < b {
        let r = s.substring_char(a, b).to_owned();
        assert(r@ =~= trim_spec(s@));
        r
    } else {
        let r = String::new();
        assert(r@ =~= trim_spec(s@));
        r
    }
}

/// Removes every trailing occurrence of `c`.
pub fn trim_end_matches_char(s: &str, c: char) -> (r: String)
    ensures
        r@ == trim_end_char_spec(s@, c),
{
    let n = s.unicode_len();
    let mut b: usize = n;
    proof {
        assert(s@.take(n as int) =~= s@);
    }
    while b > 0 && s.get_char(b - 1) == c
        invariant
            n == s@.len(),
            b <= n,
            trim_end_char_spec(s@, c) == trim_end_char_spec(s@.take(b as int), c),
        decreases b,
    {
        proof {
            assert(s@.take(b as int).last() == s@[b - 1]);
            assert(s@.take(b as int).drop_last() =~= s@.take(b - 1));
        }
        b = b - 1;
    }
    proof {
        if b > 0 {
            assert(s@.take(b as int).last() == s@[b - 1]);
        }
        assert(trim_end_char_spec(s@, c) == s@.take(b as int));
    }
    let r = s.substring_char(0, b).to_owned();
    assert(r@ =~= s@.take(b as int));
    r
}

/// Whether a character is ASCII whitespace.
pub fn is_space_char(c: char) -> (r: bool)
    ensures
        r == is_ascii_space(c),
{
    c == ' ' || c == '\t' || c == '\n' || c == '\r'
}

} // verus!
