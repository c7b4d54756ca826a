//! Verified parsing of unsigned decimal numbers from feed text.

use vstd::prelude::*;

verus! {

/// An ASCII decimal digit.
pub open spec fn is_ascii_digit(c: char) -> bool {
    '0' <= c && c <= '9'
}

/// Every character of `s` is a decimal digit.
pub open spec fn all_digits(s: Seq<char>) -> bool {
    forall|i: int| 0 <= i < s.len() ==> is_ascii_digit(#[trigger] s[i])
}

/// The number a digit string denotes, most significant digit first.
pub open spec fn dec_value(s: Seq<char>) -> int
    decreases s.len(),
{
    if s.len() == 0 {
        0
    } else {
        dec_value(s.drop_last()) * 10 + (s.last() as int - 48)
    }
}

/// A digit string denotes a non-negative number.
pub proof fn lemma_dec_value_nonneg(s: Seq<char>)
    requires
        all_digits(s),
    ensures
        dec_value(s) >= 0,
    decreases s.len(),
{
    if s.len() > 0 {
        assert(all_digits(s.drop_last()));
        lemma_dec_value_nonneg(s.drop_last());
    }
}

/// Extending a digit string never shrinks its value.
pub proof fn lemma_dec_value_monotone(s: Seq<char>, k: int)
    requires
        0 <= k <= s.len(),
        all_digits(s),
    ensures
        dec_value(s) >= dec_value(s.take(k)),
    decreases s.len() - k,
{
    if k < s.len() {
        assert(all_digits(s.take(k))) by {
            assert(forall|i: int| 0 <= i < k ==> s.take(k)[i] == s[i]);
        }
        lemma_dec_value_nonneg(s.take(k));
        assert(s.take(k + 1).drop_last() =~= s.take(k));
        assert(s.take(k + 1).last() == s[k]);
        lemma_dec_value_monotone(s, k + 1);
    } else {
        assert(s.take(k) =~= s);
    }
}

/// A string of digits denoting a value that fits in 32 bits.
pub open spec fn parses_as_u32(s: Seq<char>) -> bool {
    s.len() >= 1 && all_digits(s) && dec_value(s) <= u32::MAX
}

/// A string of digits denoting a value that fits in 8 bits.
pub open spec fn parses_as_u8(s: Seq<char>) -> bool {
    s.len() >= 1 && all_digits(s) && dec_value(s) <= u8::MAX
}

/// Parses an unsigned 32-bit decimal number.
///
/// Returns the denoted value exactly when the whole string is one or more
/// decimal digits and the value fits; anything else — an empty string, a
/// stray character, a sign, a value past the range — is `None`.
pub fn parse_u32(s: &str) -> (r: Option<u32>)
    ensures
        r is Some <==> (s@.len() >= 1 && all_digits(s@) && dec_value(s@) <= u32::MAX),
        r matches Some(v) ==> v == dec_value(s@),
{
    let n = s.unicode_len();
    if n == 0 {
        return None;
    }
    let mut acc: u32 = 0;
    let mut i: usize = 0;
    while i < n
        invariant
            n == s@.len(),
            i <= n,
            all_digits(s@.take(i as int)),
            acc == dec_value(s@.take(i as int)),
        decreases n - i,
    {
        let c = s.get_char(i);
        let cu = c as u32;
        proof {
            assert(s@.take(i + 1).drop_last() =~= s@.take(i as int));
            assert(s@.take(i + 1).last() == s@[i as int]);
        }
        if cu < 48 || cu > 57 {
            assert(!is_ascii_digit(s@[i as int]));
            return None;
        }
        let d = cu - 48;
        if acc > (u32::MAX - d) / 10 {
            proof {
                assert(acc * 10 + d > u32::MAX) by (nonlinear_arith)
                    requires
                        acc > (u32::MAX - d) / 10,
                        d <= 9,
                ;
                if all_digits(s@) && dec_value(s@) <= u32::MAX {
                    lemma_dec_value_monotone(s@, i + 1);
                }
            }
            return None;
        }
        proof {
            assert(acc * 10 + d <= u32::MAX) by (nonlinear_arith)
                requires
                    acc <= (u32::MAX - d) / 10,
                    d <= 9,
            ;
        }
        acc = acc * 10 + d;
        i = i + 1;
    }
    proof {
        assert(s@.take(n as int) =~= s@);
    }
    Some(acc)
}

/// Parses an unsigned 8-bit decimal number, the same way.
pub fn parse_u8(s: &str) -> (r: Option<u8>)
    ensures
        r is Some <==> (s@.len() >= 1 && all_digits(s@) && dec_value(s@) <= u8::MAX),
        r matches Some(v) ==> v == dec_value(s@),
{
    match parse_u32(s) {
        Some(v) => {
            if v <= 255 {
                Some(v as u8)
            } else {
                None
            }
        },
        None => {
            proof {
                if s@.len() >= 1 && all_digits(s@) && dec_value(s@) <= u8::MAX {
                    assert(dec_value(s@) <= u32::MAX);
                }
            }
            None
        },
    }
}

} // verus!
