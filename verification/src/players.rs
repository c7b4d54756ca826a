//! The computable pieces of player-record handling: reading a height such
//! as `6' 2"` as a number of inches, and cutting the people array out of
//! the surrounding JSON envelope.

use vstd::prelude::*;

use crate::numbers::{dec_value, parse_u32, parses_as_u32};
use crate::split::{
    split_spec, split_str, strings_view, trim_end_char_spec, trim_end_matches_char, trim_spec,
    trim_str,
};

verus! {

/// The numbers hidden in a height's apostrophe-separated segments: each
/// segment that trims to a parsable number contributes its value, in order.
pub open spec fn parsed_heights(segs: Seq<Seq<char>>) -> Seq<int>
    decreases segs.len(),
{
    if segs.len() == 0 {
        Seq::empty()
    } else {
        parsed_heights(segs.drop_last()) + if parses_as_u32(trim_spec(segs.last())) {
            seq![dec_value(trim_spec(segs.last()))]
        } else {
            Seq::empty()
        }
    }
}

/// Feet-and-inches as inches: the first number counts twelvefold, the
/// second as it stands.
pub open spec fn height_value(ps: Seq<int>) -> int {
    if ps.len() == 0 {
        0
    } else if ps.len() == 1 {
        ps[0] * 12
    } else {
        ps[0] * 12 + ps[1]
    }
}

/// The integer views of a vector of parsed numbers.
pub open spec fn ints_view(s: Seq<u32>) -> Seq<int> {
    s.map_values(|x: u32| x as int)
}

/// Reads a height such as `6' 2"` as inches.
///
/// Succeeds exactly when at most two numbers appear around the apostrophes
/// and the total fits; a height listing three or more numbers, or one past
/// the range, is refused rather than guessed at.
pub fn height_in_inches(height: &str) -> (r: Option<u32>)
    ensures
        r is Some <==> parsed_heights(split_spec(height@, "'"@)).len() <= 2 && height_value(
            parsed_heights(split_spec(height@, "'"@)),
        ) <= u32::MAX,
        r matches Some(v) ==> v == height_value(parsed_heights(split_spec(height@, "'"@))),
{
    proof {
        reveal_strlit("'");
    }
    let segs = split_str(height, "'");
    assert(segs@.len() == strings_view(segs@).len());
    let ghost all = strings_view(segs@);
    let mut parsed: Vec<u32> = Vec::new();
    let n = segs.len();
    let mut i: usize = 0;
    while i < n
        invariant
            n == segs@.len(),
            i <= n,
            all == strings_view(segs@),
            all == split_spec(height@, "'"@),
            ints_view(parsed@) == parsed_heights(all.take(i as int)),
        decreases n - i,
    {
        proof {
            assert(all.take(i + 1).drop_last() =~= all.take(i as int));
            assert(all.take(i + 1).last() == segs@[i as int]@);
        }
        let t = trim_str(segs[i].as_str());
        match parse_u32(t.as_str()) {
            Some(v) => {
                parsed.push(v);
                proof {
                    assert(ints_view(parsed@) =~= ints_view(parsed@.drop_last()) + seq![v as int]);
                }
            },
            None => {
                proof {
                    assert(ints_view(parsed@) =~= parsed_heights(all.take(i + 1)));
                }
            },
        }
        i = i + 1;
    }
    proof {
        assert(all.take(n as int) =~= all);
    }
    let ghost ps = parsed_heights(all);
    assert(parsed@.len() == ints_view(parsed@).len());
    if parsed.len() > 2 {
        return None;
    }
    if parsed.len() == 0 {
        return Some(0);
    }
    let feet = parsed[0];
    proof {
        assert(feet * 12 <= u32::MAX <==> feet <= u32::MAX / 12) by (nonlinear_arith);
    }
    if feet > u32::MAX / 12 {
        return None;
    }
    let base = feet * 12;
    if parsed.len() == 1 {
        return Some(base);
    }
    let inches = parsed[1];
    if inches > u32::MAX - base {
        return None;
    }
    Some(base + inches)
}

/// What stands after the people marker in the player JSON envelope; empty
/// when the marker is missing.
pub open spec fn after_people_marker(raw: Seq<char>) -> Seq<char> {
    let parts = split_spec(raw, "\"people\" : [ "@);
    if parts.len() >= 2 {
        parts[1]
    } else {
        Seq::empty()
    }
}

/// The people array cut out of the envelope: what follows the marker,
/// with the closing brace and bracket trimmed away.
pub open spec fn people_json_spec(raw: Seq<char>) -> Seq<char> {
    trim_spec(trim_end_char_spec(trim_spec(trim_end_char_spec(after_people_marker(raw), '}')), ']'))
}

/// Cuts the people array out of the player JSON envelope; an envelope
/// without the marker yields the empty string.
pub fn people_json_slice(raw: &str) -> (r: String)
    ensures
        r@ == people_json_spec(raw@),
{
    proof {
        reveal_strlit("\"people\" : [ ");
    }
    let parts = split_str(raw, "\"people\" : [ ");
    assert(parts@.len() == strings_view(parts@).len());
    let body: String = if parts.len() >= 2 {
        parts[1].clone()
    } else {
        String::new()
    };
    let step1 = trim_end_matches_char(body.as_str(), '}');
    let step2 = trim_str(step1.as_str());
    let step3 = trim_end_matches_char(step2.as_str(), ']');
    trim_str(step3.as_str())
}

} // verus!
