use gameday::base_state::{apply_runner_event, label_bit};
use gameday::count::advance_count;
use gameday::events::{PitchResult, RunnerEvent};
use gameday::text::{str_contains, str_contains_ci, str_eq, str_starts_with};

fn runner(start: &str, end: &str, event: &str, scored: bool) -> RunnerEvent {
    RunnerEvent {
        id: 500,
        start: start.to_string(),
        end: end.to_string(),
        event: event.to_string(),
        scored,
    }
}

#[test]
fn label_bits_for_each_base() {
    assert_eq!(label_bit(""), 0);
    assert_eq!(label_bit("1B"), 1);
    assert_eq!(label_bit("2B"), 2);
    assert_eq!(label_bit("3B"), 4);
    assert_eq!(label_bit("score"), 0);
    assert_eq!(label_bit("4B"), 0);
}

#[test]
fn runner_advances_between_bases() {
    assert_eq!(apply_runner_event(1, &runner("1B", "2B", "Stolen Base 2B", false)), (2, 0, 0));
    assert_eq!(apply_runner_event(3, &runner("2B", "3B", "Wild Pitch", false)), (5, 0, 0));
    assert_eq!(apply_runner_event(0, &runner("", "1B", "Walk", false)), (1, 0, 0));
}

#[test]
fn scoring_runner_leaves_bases_with_a_run() {
    assert_eq!(apply_runner_event(4, &runner("3B", "", "Sac Fly", true)), (0, 1, 0));
    assert_eq!(apply_runner_event(7, &runner("3B", "", "Home Run", true)), (3, 1, 0));
}

#[test]
fn runner_out_vacates_base_without_a_run() {
    assert_eq!(apply_runner_event(1, &runner("1B", "", "Caught Stealing 2B", false)), (0, 0, 1));
    assert_eq!(apply_runner_event(2, &runner("2B", "", "Picked off", false)), (0, 0, 1));
}

#[test]
fn inconsistent_movement_leaves_occupancy_unchanged() {
    // the start base is not occupied
    assert_eq!(apply_runner_event(0, &runner("1B", "2B", "Stolen Base 2B", false)).0, 0);
    assert_eq!(apply_runner_event(6, &runner("1B", "", "Forceout", false)).0, 6);
    // the movement would push the occupancy past 7
    assert_eq!(apply_runner_event(7, &runner("1B", "3B", "Error", false)).0, 7);
}

#[test]
fn degenerate_movement_is_idempotent() {
    for occupancy in 0..8u8 {
        for label in ["", "1B", "2B", "3B"] {
            let (next, _, _) =
                apply_runner_event(occupancy, &runner(label, label, "No Advance", false));
            assert_eq!(next, occupancy);
        }
    }
}

#[test]
fn malformed_labels_count_as_no_base() {
    assert_eq!(apply_runner_event(5, &runner("5B", "home", "Oddity", false)).0, 5);
}

#[test]
fn balls_advance_on_ball_only() {
    assert_eq!(advance_count(0, 0, PitchResult::Ball, "Ball"), (1, 0));
    assert_eq!(advance_count(3, 2, PitchResult::Ball, "Ball"), (4, 2));
    assert_eq!(advance_count(1, 1, PitchResult::InPlay, "In play, out(s)"), (1, 1));
    assert_eq!(advance_count(1, 1, PitchResult::Other, "Automatic Ball"), (1, 1));
}

#[test]
fn strikes_advance_on_strike_class_pitches() {
    assert_eq!(advance_count(0, 0, PitchResult::Strike, "Called Strike"), (0, 1));
    assert_eq!(advance_count(0, 1, PitchResult::Strike, "Swinging Strike"), (0, 2));
    assert_eq!(advance_count(0, 2, PitchResult::Strike, "Swinging Strike"), (0, 3));
}

#[test]
fn foul_cannot_be_the_third_strike() {
    assert_eq!(advance_count(0, 0, PitchResult::Strike, "Foul"), (0, 1));
    assert_eq!(advance_count(0, 1, PitchResult::Strike, "Foul"), (0, 2));
    assert_eq!(advance_count(0, 2, PitchResult::Strike, "Foul"), (0, 2));
    assert_eq!(advance_count(3, 2, PitchResult::Strike, "Foul (Runner Going)"), (3, 2));
    assert_eq!(advance_count(0, 2, PitchResult::Strike, "Foul Pitchout"), (0, 2));
}

#[test]
fn foul_tip_can_end_the_at_bat() {
    assert_eq!(advance_count(0, 2, PitchResult::Strike, "Foul Tip"), (0, 3));
    assert_eq!(advance_count(0, 2, PitchResult::Strike, "Foul Bunt"), (0, 3));
}

#[test]
fn repeated_fouls_never_pass_two_strikes() {
    let mut balls: u8 = 0;
    let mut strikes: u8 = 0;
    for _ in 0..50 {
        let (b, s) = advance_count(balls, strikes, PitchResult::Strike, "Foul");
        assert!(b >= balls && s >= strikes);
        balls = b;
        strikes = s;
        assert!(strikes <= 2);
    }
    assert_eq!(strikes, 2);
}

#[test]
fn exact_string_matching() {
    assert!(str_eq("Foul", "Foul"));
    assert!(!str_eq("Foul", "Foul Tip"));
    assert!(!str_eq("Foul Tip", "Foul"));
    assert!(str_eq("", ""));
}

#[test]
fn prefix_matching() {
    assert!(str_starts_with("In play, out(s)", "In play"));
    assert!(str_starts_with("Foul Tip", "Foul"));
    assert!(!str_starts_with("Ball In Dirt", "In play"));
    assert!(!str_starts_with("In", "In play"));
}

#[test]
fn substring_matching() {
    assert!(str_contains("Missed Bunt", "Bunt"));
    assert!(str_contains("Bunt Ground Out", "Bunt"));
    assert!(!str_contains("Ground Out", "Bunt"));
    assert!(!str_contains("Bun", "Bunt"));
    assert!(str_contains("anything", ""));
}

#[test]
fn case_insensitive_substring_matching() {
    assert!(str_contains_ci("Stolen Base 2B", "stolen"));
    assert!(str_contains_ci("CAUGHT STEALING 3B", "stealing"));
    assert!(str_contains_ci("Pickoff Attempt 1B", "pickoff"));
    assert!(str_contains_ci("Picked Off 1B", "picked off"));
    assert!(!str_contains_ci("Single", "stolen"));
    assert!(!str_contains_ci("sto len", "stolen"));
}

#[test]
fn occupancy_stays_in_range_for_every_movement() {
    for occupancy in 0..8u8 {
        for start in ["", "1B", "2B", "3B"] {
            for end in ["", "1B", "2B", "3B", "score"] {
                let (next, _, _) =
                    apply_runner_event(occupancy, &runner(start, end, "Any Event", false));
                assert!(next <= 7);
            }
        }
    }
}
