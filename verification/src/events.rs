//! Data model for the play-by-play event stream: the four event kinds that
//! interleave inside a plate appearance, the plate appearance itself, the
//! half-inning and inning containers, and the enriched per-pitch output
//! record.

use vstd::prelude::*;

verus! {

/// Classified result code of a single pitch, as reported by the feed.
///
/// `Ball` advances the ball count, `Strike` covers the called, swinging,
/// missed-bunt and foul variants (the description distinguishes fouls),
/// `InPlay` ends the plate appearance through contact, and `Other` is the
/// defensive default for any unrecognized code.
#[derive(Clone, Copy, Debug, PartialEq, Eq, Structural)]
pub enum PitchResult {
    Ball,
    Strike,
    InPlay,
    Other,
}

/// A single pitch as it arrives from the feed: its classified result code,
/// its free-text description, and the pitch-type tag when present.
pub struct PitchEvent {
    /// Free-text description of the pitch ("Ball", "Foul", "In play, out(s)", ...).
    pub des: String,
    /// Classified result code.
    pub pitch_result: PitchResult,
    /// Pitch-type tag ("FF", "SL", ...), absent in older records.
    pub pitch_type: Option<String>,
}

/// A baserunning record: one runner moving between bases, arriving in the
/// event stream after the pitch it belongs to.
pub struct RunnerEvent {
    /// Identity of the runner.
    pub id: u32,
    /// Starting base: `""`, `"1B"`, `"2B"` or `"3B"`.
    pub start: String,
    /// Ending base: `""`, `"1B"`, `"2B"` or `"3B"`; `""` together with the
    /// scored flag marks a run, `""` without it marks an out.
    pub end: String,
    /// Free-text description of the play ("Stolen Base 2B", "Single", ...).
    pub event: String,
    /// True when the runner crossed the plate on this movement.
    pub scored: bool,
}

/// An administrative entry (substitution, mound visit, challenge): carries a
/// count snapshot and a description but has no effect on game state here.
pub struct ActionEvent {
    /// Ball count at the time of the action.
    pub balls: u8,
    /// Strike count at the time of the action.
    pub strikes: u8,
    /// Outs at the time of the action.
    pub outs: u8,
    /// Free-text description of the action.
    pub des: String,
    /// Involved player.
    pub player: u32,
}

/// A pickoff throw: recognized structurally, no state effect.
pub struct PickoffEvent {
    /// Free-text description of the throw.
    pub des: String,
}

/// One entry of a plate appearance's ordered event list.
pub enum Event {
    Pitch(PitchEvent),
    Runner(RunnerEvent),
    Action(ActionEvent),
    Pickoff(PickoffEvent),
}

/// One batter's complete turn at bat: the ordered event list plus the
/// metadata that is denormalized onto every produced pitch.
pub struct PlateAppearance {
    /// Sequence number of the plate appearance within the game.
    pub at_bat_num: u16,
    /// Identity of the batter.
    pub batter: u32,
    /// Side the batter stands on ('L' or 'R').
    pub batter_stands: char,
    /// Identity of the pitcher.
    pub pitcher: u32,
    /// Hand the pitcher throws with; absent in some legacy records.
    pub pitcher_throws: Option<char>,
    /// Free-text description of the plate appearance's outcome.
    pub plate_app_des: String,
    /// Authoritative out count at the end of the plate appearance.
    pub outs_end: u8,
    /// Result classification of the plate appearance ("Single", "Walk", ...).
    pub plate_app_result: String,
    /// The ordered event list.
    pub events: Vec<Event>,
}

/// One top-level item of a half-inning: a full plate appearance or a
/// standalone administrative action.
pub enum HalfInningItem {
    PlateAppearance(PlateAppearance),
    Action(ActionEvent),
}

/// One team's turn on offense: the ordered top-level items.
pub struct HalfInning {
    /// Plate appearances and standalone actions, in chronological order.
    pub items: Vec<HalfInningItem>,
}

/// A full inning: the top half is always present, the bottom half is absent
/// when the home team does not bat.
pub struct Inning {
    /// Visiting team's turn on offense.
    pub top: HalfInning,
    /// Home team's turn on offense, when it took place.
    pub bottom: Option<HalfInning>,
}

/// The enriched output record, one per pitch: the complete before/after game
/// state around that pitch plus the originating pitch's own fields and the
/// owning plate appearance's metadata.
pub struct PitchState {
    /// Ball count before this pitch.
    pub balls_start: u8,
    /// Ball count after this pitch.
    pub balls_end: u8,
    /// Strike count before this pitch.
    pub strikes_start: u8,
    /// Strike count after this pitch.
    pub strikes_end: u8,
    /// Outs before this pitch.
    pub outs_start: u8,
    /// Outs after this pitch and the baserunning that followed it; on the
    /// final pitch of a plate appearance this is reconciled to the plate
    /// appearance's authoritative terminal out count.
    pub outs_end: u8,
    /// Runs scored on baserunning attributed to this pitch (clamped at the
    /// field's maximum on corrupt feeds).
    pub runs_scored: u8,
    /// Base occupancy before this pitch (bit 0 = first base, bit 1 = second,
    /// bit 2 = third).
    pub base_state_start: u8,
    /// Base occupancy after this pitch and the baserunning that followed it.
    pub base_state_end: u8,
    /// False when the state change after this pitch came from independent
    /// baserunning (stolen base, caught stealing, pickoff) rather than from
    /// the batter.
    pub batter_responsible: bool,
    /// True when the batter offered at the pitch.
    pub swing: bool,
    /// Description of the pitch, copied from the originating event.
    pub des: String,
    /// Result code of the pitch, copied from the originating event.
    pub pitch_result: PitchResult,
    /// Pitch-type tag, copied from the originating event.
    pub pitch_type: Option<String>,
    /// Batter, from the owning plate appearance.
    pub batter: u32,
    /// Pitcher, from the owning plate appearance.
    pub pitcher: u32,
    /// Batter's side, from the owning plate appearance.
    pub batter_stands: char,
    /// Pitcher's hand, from the owning plate appearance.
    pub pitcher_throws: Option<char>,
    /// Sequence number of the owning plate appearance.
    pub plate_appearance_num: u16,
    /// One-based position of this pitch within its plate appearance.
    pub plate_appearance_pitch_num: usize,
    /// Outcome description of the owning plate appearance.
    pub plate_appearance_des: String,
    /// Result classification of the owning plate appearance.
    pub plate_appearance_result: String,
}

} // verus!
