//! Count tracker: the pure transition from one ball-strike count and a pitch
//! to the next count.
//!
//! A ball raises the ball count, a strike-class pitch raises the strike
//! count — unless its description marks an ordinary foul, which cannot be the
//! third strike. A foul tip carries a description of its own, is not in the
//! foul set, and can end the at-bat. In-play pitches and unrecognized codes
//! leave the count unchanged. The counters saturate at the top of their range
//! instead of overflowing on corrupt feeds.

use vstd::prelude::*;

use crate::events::PitchResult;
use crate::text::str_eq;

verus! {

/// The pitch descriptions exempt from the third strike: an ordinary foul
/// ball. "Foul Tip" is deliberately not among them.
pub open spec fn is_foul_exception(des: Seq<char>) -> bool {
    ||| des == "Foul"@
    ||| des == "Foul (Runner Going)"@
    ||| des == "Foul Pitchout"@
}

/// Ball count after a pitch: one more on a ball, unchanged otherwise.
pub open spec fn next_balls(balls: u8, result: PitchResult) -> u8 {
    if result is Ball && balls < 255 {
        (balls + 1) as u8
    } else {
        balls
    }
}

/// Strike count after a pitch: one more on a strike-class pitch, except that
/// a foul only raises the count below two strikes; unchanged otherwise.
pub open spec fn next_strikes(strikes: u8, result: PitchResult, des: Seq<char>) -> u8 {
    if result is Strike {
        if is_foul_exception(des) {
            if strikes < 2 {
                (strikes + 1) as u8
            } else {
                strikes
            }
        } else {
            if strikes < 255 {
                (strikes + 1) as u8
            } else {
                strikes
            }
        }
    } else {
        strikes
    }
}

/// Advances the ball-strike count by one pitch.
pub fn advance_count(balls: u8, strikes: u8, result: PitchResult, des: &str) -> (r: (u8, u8))
    ensures
        r.0 == next_balls(balls, result),
        r.1 == next_strikes(strikes, result, des@),
{
    match result {
        PitchResult::Ball => {
            if balls < 255 {
                (balls + 1, strikes)
            } else {
                (balls, strikes)
            }
        },
        PitchResult::Strike => {
            let foul = str_eq(des, "Foul") || str_eq(des, "Foul (Runner Going)") || str_eq(
                des,
                "Foul Pitchout",
            );
            if foul {
                if strikes < 2 {
                    (balls, strikes + 1)
                } else {
                    (balls, strikes)
                }
            } else {
                if strikes < 255 {
                    (balls, strikes + 1)
                } else {
                    (balls, strikes)
                }
            }
        },
        PitchResult::InPlay => (balls, strikes),
        PitchResult::Other => (balls, strikes),
    }
}

/// Law: one pitch never decreases either counter, and a foul never raises the
/// strike count past two.
pub proof fn lemma_count_monotonic(balls: u8, strikes: u8, result: PitchResult, des: Seq<char>)
    ensures
        next_balls(balls, result) >= balls,
        next_strikes(strikes, result, des) >= strikes,
        strikes <= 2 && is_foul_exception(des) ==> next_strikes(strikes, result, des) <= 2,
{
}

/// The strike count left by a run of strike-class pitches with the given
/// descriptions, oldest first.
pub open spec fn strikes_after_fouls(strikes: u8, fouls: Seq<Seq<char>>) -> u8
    decreases fouls.len(),
{
    if fouls.len() == 0 {
        strikes
    } else {
        next_strikes(
            strikes_after_fouls(strikes, fouls.drop_last()),
            PitchResult::Strike,
            fouls.last(),
        )
    }
}

/// Law: however many foul balls arrive in a row, the strike count never
/// passes two.
pub proof fn lemma_fouls_cap_strikes(strikes: u8, fouls: Seq<Seq<char>>)
    requires
        strikes <= 2,
        forall|i: int| 0 <= i < fouls.len() ==> is_foul_exception(#[trigger] fouls[i]),
    ensures
        strikes_after_fouls(strikes, fouls) <= 2,
    decreases fouls.len(),
{
    if fouls.len() > 0 {
        lemma_fouls_cap_strikes(strikes, fouls.drop_last());
    }
}

} // verus!
