//! Base-state tracker: the pure transition from one base-occupancy value and
//! a single runner-movement record to the next occupancy, the runs scored and
//! the out produced.
//!
//! Occupancy is a 3-bit value: bit 0 is first base, bit 1 second base,
//! bit 2 third base. A runner's movement subtracts the bit of the base it
//! left and adds the bit of the base it reached. Feeds are known to contain
//! inconsistencies, so an arithmetically impossible movement (leaving an
//! empty base, or pushing the value past 7) is handled permissively: the
//! occupancy is left unchanged rather than failing.

use vstd::prelude::*;

use crate::events::RunnerEvent;
use crate::text::str_eq;

verus! {

/// The occupancy bit a base label stands for: `"1B"` is 1, `"2B"` is 2,
/// `"3B"` is 4, and anything else (the empty label, the score marker, or a
/// malformed label) is 0.
pub open spec fn base_bit(label: Seq<char>) -> u8 {
    if label == "1B"@ {
        1
    } else if label == "2B"@ {
        2
    } else if label == "3B"@ {
        4
    } else {
        0
    }
}

/// The occupancy after a runner moves from the base with bit `sbit` to the
/// base with bit `ebit`: the §-formula `occ - sbit + ebit` whenever it is
/// meaningful (the start base is occupied and the result stays a 3-bit
/// value), and `occ` unchanged otherwise.
pub open spec fn runner_move(occ: u8, sbit: u8, ebit: u8) -> u8 {
    if occ & sbit == sbit && occ - sbit + ebit <= 7 {
        (occ - sbit + ebit) as u8
    } else {
        occ
    }
}

/// Runs scored by this movement: 1 when the runner crossed the plate.
pub open spec fn runner_runs(ev: RunnerEvent) -> u8 {
    if ev.scored {
        1
    } else {
        0
    }
}

/// Out produced by this movement: 1 when the runner left the bases without
/// scoring.
pub open spec fn runner_out(ev: RunnerEvent) -> u8 {
    if ev.end@.len() == 0 && !ev.scored {
        1
    } else {
        0
    }
}

/// Executable form of [`base_bit`].
pub fn label_bit(label: &str) -> (r: u8)
    ensures
        r == base_bit(label@),
{
    if str_eq(label, "1B") {
        1
    } else if str_eq(label, "2B") {
        2
    } else if str_eq(label, "3B") {
        4
    } else {
        0
    }
}

/// Applies one runner-movement record to a base-occupancy value.
///
/// Returns the new occupancy, the runs scored (0 or 1) and the out produced
/// (0 or 1). The function is total: an inconsistent movement leaves the
/// occupancy unchanged instead of failing.
pub fn apply_runner_event(occupancy: u8, ev: &RunnerEvent) -> (r: (u8, u8, u8))
    ensures
        r.0 == runner_move(occupancy, base_bit(ev.start@), base_bit(ev.end@)),
        r.1 == runner_runs(*ev),
        r.2 == runner_out(*ev),
{
    let sbit = label_bit(ev.start.as_str());
    let ebit = label_bit(ev.end.as_str());

    let new_occupancy = if occupancy & sbit == sbit {
        assert(occupancy & sbit == sbit ==> sbit <= occupancy) by (bit_vector);
        let moved = occupancy - sbit;
        if moved <= 7 - ebit {
            moved + ebit
        } else {
            occupancy
        }
    } else {
        occupancy
    };

    let runs: u8 = if ev.scored {
        1
    } else {
        0
    };
    let out: u8 = if ev.end.as_str().is_empty() && !ev.scored {
        1
    } else {
        0
    };

    (new_occupancy, runs, out)
}

/// Law: from a 3-bit occupancy, any runner movement — whatever its start and
/// end labels, well-formed or not — yields a 3-bit occupancy again.
pub proof fn lemma_runner_move_in_range(occ: u8, start: Seq<char>, end: Seq<char>)
    requires
        occ <= 7,
    ensures
        runner_move(occ, base_bit(start), base_bit(end)) <= 7,
{
    let sbit = base_bit(start);
    assert(occ & sbit == sbit ==> sbit <= occ) by (bit_vector);
}

/// Law: a degenerate movement whose start and end base agree leaves the
/// occupancy unchanged, whether or not that base is occupied.
pub proof fn lemma_degenerate_move_unchanged(occ: u8, label: Seq<char>)
    ensures
        runner_move(occ, base_bit(label), base_bit(label)) == occ,
{
    let b = base_bit(label);
    assert(occ & b == b ==> b <= occ) by (bit_vector);
}

} // verus!
