//! The event-stream reducers: one plate appearance, one half-inning, one
//! inning, and a whole game's worth of innings.
//!
//! The plate-appearance reducer walks the ordered event list left to right,
//! threading the ball-strike count and the base state through each pitch.
//! A baserunning record arrives *after* the pitch it belongs to, so it
//! retroactively patches the most recently emitted pitch's after-state and
//! decides whether the batter or the runner is responsible for the change.
//! After the walk, the final pitch is reconciled against the plate
//! appearance's authoritative terminal out count.
//!
//! The reducers are specified by a mathematical fold over the event
//! sequence: [`pa_run`] steps an accumulator one event at a time, and the
//! executable functions return exactly its result.

use vstd::prelude::*;

use crate::base_state::{apply_runner_event, base_bit, runner_move, runner_runs};
use crate::count::{advance_count, next_balls, next_strikes};
use crate::events::{
    Event, HalfInning, HalfInningItem, Inning, PitchEvent, PitchResult, PitchState,
    PlateAppearance, RunnerEvent,
};
use crate::text::{
    contains_seq, contains_seq_ci, starts_with_seq, str_contains, str_contains_ci, str_starts_with,
};

verus! {

/// Saturating byte addition: the sum, clamped at the top of the range.
pub open spec fn sat_add_u8(a: u8, b: u8) -> u8 {
    if a + b <= 255 {
        (a + b) as u8
    } else {
        255
    }
}

/// The batter offered at a pitch with this description: contact, a foul, a
/// swinging strike, or any bunt attempt.
pub open spec fn swing_of(des: Seq<char>) -> bool {
    ||| starts_with_seq(des, "In play"@)
    ||| starts_with_seq(des, "Foul"@)
    ||| starts_with_seq(des, "Swinging"@)
    ||| contains_seq(des, "Bunt"@)
}

/// The description marks independent baserunning — a steal attempt or a
/// pickoff — whose outcome is not credited or debited to the batter.
pub open spec fn is_baserunning_play(event: Seq<char>) -> bool {
    ||| contains_seq_ci(event, "stolen"@)
    ||| contains_seq_ci(event, "stealing"@)
    ||| contains_seq_ci(event, "pickoff"@)
    ||| contains_seq_ci(event, "picked off"@)
}

/// The reducer's in-flight state while walking one plate appearance:
/// the pitches emitted so far, the running count, and the base state.
pub ghost struct PaAccumulator {
    pub pitches: Seq<PitchState>,
    pub balls: u8,
    pub strikes: u8,
    pub base_state: u8,
}

/// The output record a pitch event contributes at the moment it is seen:
/// before-state from the accumulator, count advanced by this pitch,
/// after-state provisionally equal to the before-state, metadata
/// denormalized from the owning plate appearance.
pub open spec fn fresh_pitch_state(
    pa: PlateAppearance,
    p: PitchEvent,
    acc: PaAccumulator,
    outs_in: u8,
) -> PitchState {
    PitchState {
        balls_start: acc.balls,
        balls_end: next_balls(acc.balls, p.pitch_result),
        strikes_start: acc.strikes,
        strikes_end: next_strikes(acc.strikes, p.pitch_result, p.des@),
        outs_start: outs_in,
        outs_end: outs_in,
        runs_scored: 0,
        base_state_start: acc.base_state,
        base_state_end: acc.base_state,
        batter_responsible: true,
        swing: swing_of(p.des@),
        des: p.des,
        pitch_result: p.pitch_result,
        pitch_type: p.pitch_type,
        batter: pa.batter,
        pitcher: pa.pitcher,
        batter_stands: pa.batter_stands,
        pitcher_throws: pa.pitcher_throws,
        plate_appearance_num: pa.at_bat_num,
        plate_appearance_pitch_num: (acc.pitches.len() + 1) as usize,
        plate_appearance_des: pa.plate_app_des,
        plate_appearance_result: pa.plate_app_result,
    }
}

/// How a runner event retroactively rewrites the most recently emitted
/// pitch: the after-state takes the new occupancy, the run tally grows by
/// this runner's run, and responsibility follows the event's classification.
pub open spec fn patch_last_pitch(last: PitchState, r: RunnerEvent, new_base: u8) -> PitchState {
    PitchState {
        base_state_end: new_base,
        outs_end: new_base,
        runs_scored: sat_add_u8(last.runs_scored, runner_runs(r)),
        batter_responsible: !is_baserunning_play(r.event@),
        ..last
    }
}

/// One step of the plate-appearance fold.
pub open spec fn pa_step(
    pa: PlateAppearance,
    acc: PaAccumulator,
    ev: Event,
    outs_in: u8,
) -> PaAccumulator {
    match ev {
        Event::Pickoff(_) => acc,
        Event::Action(_) => acc,
        Event::Runner(r) => {
            let nb = runner_move(acc.base_state, base_bit(r.start@), base_bit(r.end@));
            if acc.pitches.len() > 0 {
                PaAccumulator {
                    pitches: acc.pitches.update(
                        acc.pitches.len() - 1,
                        patch_last_pitch(acc.pitches.last(), r, nb),
                    ),
                    base_state: nb,
                    ..acc
                }
            } else {
                PaAccumulator { base_state: nb, ..acc }
            }
        },
        Event::Pitch(p) => PaAccumulator {
            pitches: acc.pitches.push(fresh_pitch_state(pa, p, acc, outs_in)),
            balls: next_balls(acc.balls, p.pitch_result),
            strikes: next_strikes(acc.strikes, p.pitch_result, p.des@),
            ..acc
        },
    }
}

/// The accumulator a plate appearance starts from: a fresh count over the
/// inherited base state.
pub open spec fn pa_init(base_state_in: u8) -> PaAccumulator {
    PaAccumulator { pitches: Seq::empty(), balls: 0, strikes: 0, base_state: base_state_in }
}

/// The fold itself: the accumulator after the given prefix of the event
/// list.
pub open spec fn pa_run(
    pa: PlateAppearance,
    events: Seq<Event>,
    base_state_in: u8,
    outs_in: u8,
) -> PaAccumulator
    decreases events.len(),
{
    if events.len() == 0 {
        pa_init(base_state_in)
    } else {
        pa_step(pa, pa_run(pa, events.drop_last(), base_state_in, outs_in), events.last(), outs_in)
    }
}

/// Reconciliation after the walk: the final pitch's out count is forced to
/// the plate appearance's authoritative terminal value, and a final pitch
/// put in play is always the batter's responsibility, overriding any
/// misclassified trailing runner event.
pub open spec fn reconcile_last(pa: PlateAppearance, pitches: Seq<PitchState>) -> Seq<PitchState> {
    if pitches.len() == 0 {
        pitches
    } else {
        let last = pitches.last();
        let forced = PitchState {
            outs_end: pa.outs_end,
            batter_responsible: if last.pitch_result is InPlay {
                true
            } else {
                last.batter_responsible
            },
            ..last
        };
        pitches.update(pitches.len() - 1, forced)
    }
}

/// The pitches one plate appearance contributes, fully patched and
/// reconciled.
pub open spec fn pa_pitches(
    pa: PlateAppearance,
    base_state_in: u8,
    outs_in: u8,
) -> Seq<PitchState> {
    reconcile_last(pa, pa_run(pa, pa.events@, base_state_in, outs_in).pitches)
}

/// The base state one plate appearance hands to the next.
pub open spec fn pa_base_state_out(pa: PlateAppearance, base_state_in: u8, outs_in: u8) -> u8 {
    pa_run(pa, pa.events@, base_state_in, outs_in).base_state
}

/// Walks one plate appearance's ordered event list and produces one enriched
/// record per pitch, plus the base state left for the next plate appearance.
///
/// `base_state_in` and `outs_in` are the game state inherited from earlier
/// plate appearances of the same half-inning.
pub fn reduce_plate_appearance(pa: &PlateAppearance, base_state_in: u8, outs_in: u8) -> (r: (
    Vec<PitchState>,
    u8,
))
    ensures
        r.0@ == pa_pitches(*pa, base_state_in, outs_in),
        r.1 == pa_base_state_out(*pa, base_state_in, outs_in),
{
    let mut pitches: Vec<PitchState> = Vec::new();
    let mut balls: u8 = 0;
    let mut strikes: u8 = 0;
    let mut base_state: u8 = base_state_in;
    let n = pa.events.len();
    let mut i: usize = 0;
    while i < n
        invariant
            n == pa.events@.len(),
            i <= n,
            pitches@.len() <= i,
            pitches@ == pa_run(*pa, pa.events@.take(i as int), base_state_in, outs_in).pitches,
            balls == pa_run(*pa, pa.events@.take(i as int), base_state_in, outs_in).balls,
            strikes == pa_run(*pa, pa.events@.take(i as int), base_state_in, outs_in).strikes,
            base_state == pa_run(
                *pa,
                pa.events@.take(i as int),
                base_state_in,
                outs_in,
            ).base_state,
        decreases n - i,
    {
        proof {
            assert(pa.events@.take(i + 1).drop_last() =~= pa.events@.take(i as int));
            assert(pa.events@.take(i + 1).last() == pa.events@[i as int]);
        }
        match &pa.events[i] {
            Event::Pickoff(_) => {},
            Event::Action(_) => {},
            Event::Runner(r) => {
                let (nb, runs, _out) = apply_runner_event(base_state, r);
                if pitches.len() > 0 {
                    let mut last = pitches.pop().unwrap();
                    let ghost unpatched = last;
                    last.base_state_end = nb;
                    last.outs_end = nb;
                    last.runs_scored = if last.runs_scored <= 255 - runs {
                        last.runs_scored + runs
                    } else {
                        255
                    };
                    last.batter_responsible = !(str_contains_ci(r.event.as_str(), "stolen")
                        || str_contains_ci(r.event.as_str(), "stealing") || str_contains_ci(
                        r.event.as_str(),
                        "pickoff",
                    ) || str_contains_ci(r.event.as_str(), "picked off"));
                    proof {
                        assert(last == patch_last_pitch(unpatched, *r, nb));
                    }
                    pitches.push(last);
                    proof {
                        let prev = pa_run(
                            *pa,
                            pa.events@.take(i as int),
                            base_state_in,
                            outs_in,
                        ).pitches;
                        assert(pitches@ =~= prev.update(
                            prev.len() - 1,
                            patch_last_pitch(prev.last(), *r, nb),
                        ));
                    }
                }
                base_state = nb;
            },
            Event::Pitch(p) => {
                let (nballs, nstrikes) = advance_count(balls, strikes, p.pitch_result, p.des.as_str());
                let swing = str_starts_with(p.des.as_str(), "In play") || str_starts_with(
                    p.des.as_str(),
                    "Foul",
                ) || str_starts_with(p.des.as_str(), "Swinging") || str_contains(
                    p.des.as_str(),
                    "Bunt",
                );
                let pitch_type: Option<String> = match &p.pitch_type {
                    Some(t) => Some(t.clone()),
                    None => None,
                };
                let state = PitchState {
                    balls_start: balls,
                    balls_end: nballs,
                    strikes_start: strikes,
                    strikes_end: nstrikes,
                    outs_start: outs_in,
                    outs_end: outs_in,
                    runs_scored: 0,
                    base_state_start: base_state,
                    base_state_end: base_state,
                    batter_responsible: true,
                    swing,
                    des: p.des.clone(),
                    pitch_result: p.pitch_result,
                    pitch_type,
                    batter: pa.batter,
                    pitcher: pa.pitcher,
                    batter_stands: pa.batter_stands,
                    pitcher_throws: pa.pitcher_throws,
                    plate_appearance_num: pa.at_bat_num,
                    plate_appearance_pitch_num: pitches.len() + 1,
                    plate_appearance_des: pa.plate_app_des.clone(),
                    plate_appearance_result: pa.plate_app_result.clone(),
                };
                proof {
                    assert(state == fresh_pitch_state(
                        *pa,
                        *p,
                        pa_run(*pa, pa.events@.take(i as int), base_state_in, outs_in),
                        outs_in,
                    ));
                }
                pitches.push(state);
                balls = nballs;
                strikes = nstrikes;
            },
        }
        i = i + 1;
    }
    proof {
        assert(pa.events@.take(n as int) =~= pa.events@);
    }
    if pitches.len() > 0 {
        let mut last = pitches.pop().unwrap();
        let ghost unforced = last;
        last.outs_end = pa.outs_end;
        if matches!(last.pitch_result, PitchResult::InPlay) {
            last.batter_responsible = true;
        }
        pitches.push(last);
        proof {
            let run = pa_run(*pa, pa.events@, base_state_in, outs_in).pitches;
            assert(pitches@ =~= reconcile_last(*pa, run));
        }
    }
    (pitches, base_state)
}

/// The reducer's in-flight state while walking one half-inning: the pitches
/// emitted so far and the game state handed to the next plate appearance.
pub ghost struct HalfAccumulator {
    pub pitches: Seq<PitchState>,
    pub base_state: u8,
    pub outs: u8,
}

/// One step of the half-inning fold: a plate appearance contributes its
/// pitches and threads the base state on, with the out count taken from the
/// plate appearance's authoritative terminal value; a standalone action has
/// no effect.
pub open spec fn half_step(acc: HalfAccumulator, item: HalfInningItem) -> HalfAccumulator {
    match item {
        HalfInningItem::Action(_) => acc,
        HalfInningItem::PlateAppearance(pa) => HalfAccumulator {
            pitches: acc.pitches + pa_pitches(pa, acc.base_state, acc.outs),
            base_state: pa_base_state_out(pa, acc.base_state, acc.outs),
            outs: pa.outs_end,
        },
    }
}

/// The state every half-inning starts from: empty bases, nobody out.
pub open spec fn half_init() -> HalfAccumulator {
    HalfAccumulator { pitches: Seq::empty(), base_state: 0, outs: 0 }
}

/// The half-inning fold: the accumulator after the given prefix of the
/// half-inning's item list.
pub open spec fn half_run(items: Seq<HalfInningItem>) -> HalfAccumulator
    decreases items.len(),
{
    if items.len() == 0 {
        half_init()
    } else {
        half_step(half_run(items.drop_last()), items.last())
    }
}

/// The pitches one half-inning contributes.
pub open spec fn half_pitches(half: HalfInning) -> Seq<PitchState> {
    half_run(half.items@).pitches
}

/// The pitches one inning contributes: the top half, then the bottom half
/// when the home team batted.
pub open spec fn inning_pitches(inning: Inning) -> Seq<PitchState> {
    half_pitches(inning.top) + match inning.bottom {
        Some(bottom) => half_pitches(bottom),
        None => Seq::empty(),
    }
}

/// The pitches a whole game's innings contribute, in inning order.
pub open spec fn innings_pitches(innings: Seq<Inning>) -> Seq<PitchState>
    decreases innings.len(),
{
    if innings.len() == 0 {
        Seq::empty()
    } else {
        innings_pitches(innings.drop_last()) + inning_pitches(innings.last())
    }
}

/// Every pitch of the sequence carries a 3-bit occupancy before and after.
pub open spec fn pitch_bases_bounded(pitches: Seq<PitchState>) -> bool {
    forall|j: int|
        0 <= j < pitches.len() ==> (#[trigger] pitches[j]).base_state_start <= 7
            && pitches[j].base_state_end <= 7
}

/// The fold keeps the running occupancy and every emitted pitch's occupancy
/// within three bits.
proof fn lemma_pa_run_bases_bounded(
    pa: PlateAppearance,
    events: Seq<Event>,
    base_state_in: u8,
    outs_in: u8,
)
    requires
        base_state_in <= 7,
    ensures
        pa_run(pa, events, base_state_in, outs_in).base_state <= 7,
        pitch_bases_bounded(pa_run(pa, events, base_state_in, outs_in).pitches),
    decreases events.len(),
{
    if events.len() > 0 {
        lemma_pa_run_bases_bounded(pa, events.drop_last(), base_state_in, outs_in);
        let prev = pa_run(pa, events.drop_last(), base_state_in, outs_in);
        match events.last() {
            Event::Runner(r) => {
                crate::base_state::lemma_runner_move_in_range(prev.base_state, r.start@, r.end@);
            },
            _ => {},
        }
    }
}

/// Law: from a 3-bit occupancy, a plate appearance hands on a 3-bit
/// occupancy, and every pitch it produces records 3-bit occupancies before
/// and after — however inconsistent the feed's baserunning records are.
pub proof fn lemma_pa_occupancy_bounded(pa: PlateAppearance, base_state_in: u8, outs_in: u8)
    requires
        base_state_in <= 7,
    ensures
        pa_base_state_out(pa, base_state_in, outs_in) <= 7,
        pitch_bases_bounded(pa_pitches(pa, base_state_in, outs_in)),
{
    lemma_pa_run_bases_bounded(pa, pa.events@, base_state_in, outs_in);
}

/// The half-inning fold keeps the threaded occupancy and every pitch's
/// occupancy within three bits.
proof fn lemma_half_run_bases_bounded(items: Seq<HalfInningItem>)
    ensures
        half_run(items).base_state <= 7,
        pitch_bases_bounded(half_run(items).pitches),
    decreases items.len(),
{
    if items.len() > 0 {
        lemma_half_run_bases_bounded(items.drop_last());
        let prev = half_run(items.drop_last());
        match items.last() {
            HalfInningItem::PlateAppearance(pa) => {
                lemma_pa_occupancy_bounded(pa, prev.base_state, prev.outs);
            },
            _ => {},
        }
    }
}

/// Law: every pitch of a half-inning records 3-bit occupancies.
pub proof fn lemma_half_occupancy_bounded(half: HalfInning)
    ensures
        pitch_bases_bounded(half_pitches(half)),
{
    lemma_half_run_bases_bounded(half.items@);
}

/// Law: a plate appearance that produced any pitches has its final pitch
/// reconciled: the pitch's out count equals the plate appearance's
/// authoritative terminal value, and a final pitch put in play is charged
/// to the batter.
pub proof fn lemma_final_pitch_reconciled(pa: PlateAppearance, base_state_in: u8, outs_in: u8)
    requires
        pa_pitches(pa, base_state_in, outs_in).len() > 0,
    ensures
        pa_pitches(pa, base_state_in, outs_in).last().outs_end == pa.outs_end,
        pa_pitches(pa, base_state_in, outs_in).last().pitch_result is InPlay ==> pa_pitches(
            pa,
            base_state_in,
            outs_in,
        ).last().batter_responsible,
{
}

/// The number of pitch events in an event list.
pub open spec fn count_pitch_events(events: Seq<Event>) -> int
    decreases events.len(),
{
    if events.len() == 0 {
        0
    } else {
        count_pitch_events(events.drop_last()) + if events.last() is Pitch {
            1int
        } else {
            0int
        }
    }
}

/// The fold emits exactly one record per pitch event, numbered from one.
proof fn lemma_pa_run_one_state_per_pitch(
    pa: PlateAppearance,
    events: Seq<Event>,
    base_state_in: u8,
    outs_in: u8,
)
    requires
        events.len() <= usize::MAX,
    ensures
        pa_run(pa, events, base_state_in, outs_in).pitches.len() == count_pitch_events(events),
        forall|j: int|
            0 <= j < pa_run(pa, events, base_state_in, outs_in).pitches.len() ==> (
            #[trigger] pa_run(pa, events, base_state_in, outs_in).pitches[j]).plate_appearance_pitch_num
                == j + 1,
    decreases events.len(),
{
    if events.len() > 0 {
        lemma_pa_run_one_state_per_pitch(pa, events.drop_last(), base_state_in, outs_in);
        lemma_count_pitch_events_bounded(events.drop_last());
    }
}

/// There are no more pitch events than events.
proof fn lemma_count_pitch_events_bounded(events: Seq<Event>)
    ensures
        0 <= count_pitch_events(events) <= events.len(),
    decreases events.len(),
{
    if events.len() > 0 {
        lemma_count_pitch_events_bounded(events.drop_last());
    }
}

/// Law: a plate appearance produces exactly one record per pitch event, in
/// order, numbered from one — each pitch's state is emitted once and only
/// patched in place, never duplicated or dropped.
pub proof fn lemma_one_state_per_pitch(pa: PlateAppearance, base_state_in: u8, outs_in: u8)
    requires
        pa.events@.len() <= usize::MAX,
    ensures
        pa_pitches(pa, base_state_in, outs_in).len() == count_pitch_events(pa.events@),
        forall|j: int|
            0 <= j < pa_pitches(pa, base_state_in, outs_in).len() ==> (#[trigger] pa_pitches(
                pa,
                base_state_in,
                outs_in,
            )[j]).plate_appearance_pitch_num == j + 1,
{
    lemma_pa_run_one_state_per_pitch(pa, pa.events@, base_state_in, outs_in);
}

/// The pitches of a prefix of a half-inning stay in place as the rest of the
/// half-inning is reduced: later plate appearances only append.
pub proof fn lemma_half_run_prefix(items: Seq<HalfInningItem>, k: int)
    requires
        0 <= k <= items.len(),
    ensures
        half_run(items.take(k)).pitches.is_prefix_of(half_run(items).pitches),
    decreases items.len() - k,
{
    if k == items.len() {
        assert(items.take(k) =~= items);
    } else {
        lemma_half_run_prefix(items, k + 1);
        assert(items.take(k + 1).drop_last() =~= items.take(k));
        assert(items.take(k + 1).last() == items[k]);
        let shorter = half_run(items.take(k)).pitches;
        let longer = half_run(items.take(k + 1)).pitches;
        let whole = half_run(items).pitches;
        assert(shorter.is_prefix_of(longer));
        assert(shorter =~= whole.subrange(0, shorter.len() as int));
    }
}

/// Law: a half-inning starts from a fresh state. Its first plate appearance
/// is reduced with empty bases and nobody out — whatever the previous
/// half-inning left behind — and contributes exactly the leading pitches of
/// the half-inning's output.
pub proof fn lemma_half_inning_starts_fresh(half: HalfInning, pa: PlateAppearance)
    requires
        half.items@.len() > 0,
        half.items@[0] == HalfInningItem::PlateAppearance(pa),
    ensures
        half_run(half.items@.take(1)).pitches == pa_pitches(pa, 0, 0),
        pa_pitches(pa, 0, 0).is_prefix_of(half_pitches(half)),
{
    assert(half_run(Seq::<HalfInningItem>::empty()) == half_init());
    assert(half.items@.take(1).drop_last() =~= Seq::<HalfInningItem>::empty());
    assert(half.items@.take(1).last() == half.items@[0]);
    assert(half_run(half.items@.take(1)) == half_step(half_init(), half.items@[0]));
    assert(half_run(half.items@.take(1)).pitches =~= pa_pitches(pa, 0, 0));
    lemma_half_run_prefix(half.items@, 1);
}

/// Law: an inning's output is the concatenation of its two half-innings'
/// independent outputs — reducing the halves separately and concatenating
/// yields the same pitches, in the same order, as reducing the inning.
pub proof fn lemma_inning_round_trip(inning: Inning, bottom: HalfInning)
    requires
        inning.bottom == Some(bottom),
    ensures
        inning_pitches(inning) == half_pitches(inning.top) + half_pitches(bottom),
{
}

/// Law: an inning without a bottom half contributes exactly its top half's
/// pitches.
pub proof fn lemma_inning_top_only(inning: Inning)
    requires
        inning.bottom is None,
    ensures
        inning_pitches(inning) == half_pitches(inning.top),
{
    assert(inning_pitches(inning) =~= half_pitches(inning.top));
}

/// Walks one half-inning from empty bases and nobody out, reducing each
/// plate appearance in order and threading base state and outs between
/// them.
pub fn reduce_half_inning(half: &HalfInning) -> (r: Vec<PitchState>)
    ensures
        r@ == half_pitches(*half),
{
    let mut pitches: Vec<PitchState> = Vec::new();
    let mut base_state: u8 = 0;
    let mut outs: u8 = 0;
    let n = half.items.len();
    let mut i: usize = 0;
    while i < n
        invariant
            n == half.items@.len(),
            i <= n,
            pitches@ == half_run(half.items@.take(i as int)).pitches,
            base_state == half_run(half.items@.take(i as int)).base_state,
            outs == half_run(half.items@.take(i as int)).outs,
        decreases n - i,
    {
        proof {
            assert(half.items@.take(i + 1).drop_last() =~= half.items@.take(i as int));
            assert(half.items@.take(i + 1).last() == half.items@[i as int]);
        }
        match &half.items[i] {
            HalfInningItem::Action(_) => {},
            HalfInningItem::PlateAppearance(pa) => {
                let outs_end = pa.outs_end;
                let (mut produced, base_state_out) = reduce_plate_appearance(
                    pa,
                    base_state,
                    outs,
                );
                pitches.append(&mut produced);
                base_state = base_state_out;
                outs = outs_end;
            },
        }
        i = i + 1;
    }
    proof {
        assert(half.items@.take(n as int) =~= half.items@);
    }
    pitches
}

/// Reduces a full inning: the mandatory top half, then the bottom half when
/// present, each from its own fresh state.
pub fn reduce_inning(inning: &Inning) -> (r: Vec<PitchState>)
    ensures
        r@ == inning_pitches(*inning),
{
    let mut pitches = reduce_half_inning(&inning.top);
    match &inning.bottom {
        Some(bottom) => {
            let mut produced = reduce_half_inning(bottom);
            pitches.append(&mut produced);
        },
        None => {},
    }
    pitches
}

/// Reduces a game's innings in order; no state carries across innings.
pub fn reduce_innings(innings: &Vec<Inning>) -> (r: Vec<PitchState>)
    ensures
        r@ == innings_pitches(innings@),
{
    let mut pitches: Vec<PitchState> = Vec::new();
    let n = innings.len();
    let mut i: usize = 0;
    while i < n
        invariant
            n == innings@.len(),
            i <= n,
            pitches@ == innings_pitches(innings@.take(i as int)),
        decreases n - i,
    {
        proof {
            assert(innings@.take(i + 1).drop_last() =~= innings@.take(i as int));
            assert(innings@.take(i + 1).last() == innings@[i as int]);
        }
        let mut produced = reduce_inning(&innings[i]);
        pitches.append(&mut produced);
        i = i + 1;
    }
    proof {
        assert(innings@.take(n as int) =~= innings@);
    }
    pitches
}

} // verus!
