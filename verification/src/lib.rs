//! Pitch-by-pitch reconstruction of baseball game state.
//!
//! The heart of the library walks the ordered event stream of a half-inning
//! (pitches, baserunning events, administrative actions and pickoff throws)
//! and produces, for every pitch, the complete before/after game state:
//! ball-strike count, outs, base occupancy, runs scored, and whether the
//! batter or a baserunner is responsible for each state change. The
//! [`reduce`] module holds the reducers, specified against a mathematical
//! fold over the event sequence; [`base_state`] and [`count`] are the two
//! pure trackers underneath them.
//!
//! Around the core stand the computable parts of the feed's plumbing:
//! [`text`], [`split`] and [`numbers`] give exact string matching, splitting,
//! trimming and decimal parsing; [`boxscore`], [`links`], [`players`] and
//! [`umpires`] read the feed's semi-structured pages with them. Fetching,
//! decoding wire formats and caching stay outside the library.

pub mod base_state;
pub mod boxscore;
pub mod count;
pub mod events;
pub mod links;
pub mod numbers;
pub mod players;
pub mod reduce;
pub mod split;
pub mod text;
pub mod umpires;
