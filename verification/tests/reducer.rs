use gameday::events::{
    ActionEvent, Event, HalfInning, HalfInningItem, Inning, PickoffEvent, PitchEvent, PitchResult,
    PitchState, PlateAppearance, RunnerEvent,
};
use gameday::reduce::{reduce_half_inning, reduce_inning, reduce_innings, reduce_plate_appearance};

fn pitch(result: PitchResult, des: &str) -> Event {
    Event::Pitch(PitchEvent { des: des.to_string(), pitch_result: result, pitch_type: None })
}

fn runner(start: &str, end: &str, event: &str, scored: bool) -> Event {
    Event::Runner(RunnerEvent {
        id: 500,
        start: start.to_string(),
        end: end.to_string(),
        event: event.to_string(),
        scored,
    })
}

fn plate_appearance(events: Vec<Event>, outs_end: u8) -> PlateAppearance {
    PlateAppearance {
        at_bat_num: 1,
        batter: 100,
        batter_stands: 'R',
        pitcher: 200,
        pitcher_throws: Some('L'),
        plate_app_des: "test".to_string(),
        outs_end,
        plate_app_result: "test".to_string(),
        events,
    }
}

#[test]
fn four_balls_walk_the_batter() {
    let pa = plate_appearance(
        vec![
            pitch(PitchResult::Ball, "Ball"),
            pitch(PitchResult::Ball, "Ball"),
            pitch(PitchResult::Ball, "Ball"),
            pitch(PitchResult::Ball, "Ball"),
        ],
        0,
    );
    let (pitches, base_out) = reduce_plate_appearance(&pa, 0, 0);
    assert_eq!(pitches.len(), 4);
    for (i, p) in pitches.iter().enumerate() {
        assert_eq!(p.balls_start, i as u8);
        assert_eq!(p.balls_end, i as u8 + 1);
        assert_eq!(p.strikes_start, 0);
        assert_eq!(p.strikes_end, 0);
        assert_eq!(p.plate_appearance_pitch_num, i + 1);
    }
    assert_eq!(pitches[3].outs_end, 0);
    assert_eq!(base_out, 0);
}

#[test]
fn stolen_base_patches_previous_pitch() {
    let pa = plate_appearance(
        vec![
            pitch(PitchResult::Ball, "Ball"),
            runner("1B", "2B", "Stolen Base 2B", false),
            pitch(PitchResult::InPlay, "In play, out(s)"),
        ],
        1,
    );
    let (pitches, base_out) = reduce_plate_appearance(&pa, 1, 0);
    assert_eq!(pitches.len(), 2);
    assert_eq!(pitches[0].base_state_start, 1);
    assert_eq!(pitches[0].base_state_end, 2);
    assert!(!pitches[0].batter_responsible);
    assert_eq!(pitches[1].base_state_start, 2);
    assert_eq!(base_out, 2);
}

#[test]
fn in_play_final_pitch_overrides_responsibility() {
    let pa = plate_appearance(
        vec![
            pitch(PitchResult::InPlay, "In play, out(s)"),
            runner("1B", "", "Pickoff Attempt 1B", false),
        ],
        1,
    );
    let (pitches, _) = reduce_plate_appearance(&pa, 1, 0);
    assert_eq!(pitches.len(), 1);
    assert_eq!(pitches[0].outs_end, 1);
    assert!(pitches[0].batter_responsible);
}

#[test]
fn scoring_runner_adds_a_run() {
    let pa = plate_appearance(
        vec![
            pitch(PitchResult::InPlay, "In play, run(s)"),
            runner("3B", "", "Single", true),
            runner("", "1B", "Single", false),
        ],
        0,
    );
    let (pitches, base_out) = reduce_plate_appearance(&pa, 4, 0);
    assert_eq!(pitches.len(), 1);
    assert_eq!(pitches[0].runs_scored, 1);
    // the batter reached first, the runner on third scored
    assert_eq!(pitches[0].base_state_end, 1);
    // an ordinary hit keeps the batter responsible
    assert!(pitches[0].batter_responsible);
    assert_eq!(base_out, 1);
}

#[test]
fn runner_event_before_any_pitch_moves_base_state_only() {
    let pa = plate_appearance(
        vec![
            runner("1B", "2B", "Stolen Base 2B", false),
            pitch(PitchResult::Ball, "Ball"),
        ],
        0,
    );
    let (pitches, base_out) = reduce_plate_appearance(&pa, 1, 0);
    assert_eq!(pitches.len(), 1);
    assert_eq!(pitches[0].base_state_start, 2);
    assert_eq!(pitches[0].base_state_end, 2);
    assert!(pitches[0].batter_responsible);
    assert_eq!(base_out, 2);
}

#[test]
fn pickoff_and_action_events_are_inert() {
    let pa = plate_appearance(
        vec![
            pitch(PitchResult::Strike, "Called Strike"),
            Event::Pickoff(PickoffEvent { des: "Pickoff Attempt 1B".to_string() }),
            Event::Action(ActionEvent {
                balls: 0,
                strikes: 1,
                outs: 0,
                des: "Pitching Change".to_string(),
                player: 300,
            }),
            pitch(PitchResult::Strike, "Called Strike"),
        ],
        0,
    );
    let (pitches, base_out) = reduce_plate_appearance(&pa, 5, 0);
    assert_eq!(pitches.len(), 2);
    assert_eq!(pitches[0].strikes_end, 1);
    assert_eq!(pitches[1].strikes_start, 1);
    assert_eq!(pitches[1].strikes_end, 2);
    assert_eq!(pitches[1].base_state_start, 5);
    assert_eq!(base_out, 5);
}

#[test]
fn metadata_is_denormalized_onto_every_pitch() {
    let pa = PlateAppearance {
        at_bat_num: 17,
        batter: 123456,
        batter_stands: 'L',
        pitcher: 654321,
        pitcher_throws: None,
        plate_app_des: "Grounded out sharply.".to_string(),
        outs_end: 2,
        plate_app_result: "Groundout".to_string(),
        events: vec![
            pitch(PitchResult::Ball, "Ball"),
            pitch(PitchResult::InPlay, "In play, out(s)"),
        ],
    };
    let (pitches, _) = reduce_plate_appearance(&pa, 0, 1);
    assert_eq!(pitches.len(), 2);
    for p in &pitches {
        assert_eq!(p.batter, 123456);
        assert_eq!(p.pitcher, 654321);
        assert_eq!(p.batter_stands, 'L');
        assert_eq!(p.pitcher_throws, None);
        assert_eq!(p.plate_appearance_num, 17);
        assert_eq!(p.plate_appearance_des, "Grounded out sharply.");
        assert_eq!(p.plate_appearance_result, "Groundout");
        assert_eq!(p.outs_start, 1);
    }
    assert_eq!(pitches[0].des, "Ball");
    assert_eq!(pitches[1].des, "In play, out(s)");
    assert_eq!(pitches[1].outs_end, 2);
}

#[test]
fn swing_classification_follows_description() {
    let pa = plate_appearance(
        vec![
            pitch(PitchResult::Ball, "Ball"),
            pitch(PitchResult::Strike, "Foul"),
            pitch(PitchResult::Strike, "Swinging Strike"),
            pitch(PitchResult::Strike, "Missed Bunt"),
            pitch(PitchResult::InPlay, "In play, no out"),
        ],
        0,
    );
    let (pitches, _) = reduce_plate_appearance(&pa, 0, 0);
    assert!(!pitches[0].swing);
    assert!(pitches[1].swing);
    assert!(pitches[2].swing);
    assert!(pitches[3].swing);
    assert!(pitches[4].swing);
}

fn half_with_three_outs() -> HalfInning {
    HalfInning {
        items: vec![
            HalfInningItem::PlateAppearance(plate_appearance(
                vec![pitch(PitchResult::InPlay, "In play, out(s)")],
                1,
            )),
            HalfInningItem::PlateAppearance(plate_appearance(
                vec![pitch(PitchResult::InPlay, "In play, out(s)")],
                2,
            )),
            HalfInningItem::PlateAppearance(plate_appearance(
                vec![pitch(PitchResult::InPlay, "In play, out(s)")],
                3,
            )),
        ],
    }
}

#[test]
fn half_inning_threads_outs_between_plate_appearances() {
    let pitches = reduce_half_inning(&half_with_three_outs());
    assert_eq!(pitches.len(), 3);
    assert_eq!(pitches[0].outs_start, 0);
    assert_eq!(pitches[0].outs_end, 1);
    assert_eq!(pitches[1].outs_start, 1);
    assert_eq!(pitches[1].outs_end, 2);
    assert_eq!(pitches[2].outs_start, 2);
    assert_eq!(pitches[2].outs_end, 3);
}

#[test]
fn half_inning_boundary_resets_state() {
    // the top half ends with three outs and a runner stranded on second
    let top = HalfInning {
        items: vec![
            HalfInningItem::PlateAppearance(plate_appearance(
                vec![
                    pitch(PitchResult::InPlay, "In play, no out"),
                    runner("", "2B", "Double", false),
                ],
                0,
            )),
            HalfInningItem::PlateAppearance(plate_appearance(
                vec![pitch(PitchResult::InPlay, "In play, out(s)")],
                3,
            )),
        ],
    };
    let bottom = HalfInning {
        items: vec![HalfInningItem::PlateAppearance(plate_appearance(
            vec![pitch(PitchResult::Ball, "Ball")],
            0,
        ))],
    };
    let inning = Inning { top, bottom: Some(bottom) };
    let pitches = reduce_inning(&inning);
    assert_eq!(pitches.len(), 3);
    // the bottom half starts over: empty bases, nobody out
    assert_eq!(pitches[2].base_state_start, 0);
    assert_eq!(pitches[2].outs_start, 0);
}

#[test]
fn inning_concatenates_independent_halves() {
    let top = half_with_three_outs();
    let bottom = HalfInning {
        items: vec![HalfInningItem::PlateAppearance(plate_appearance(
            vec![
                pitch(PitchResult::Strike, "Called Strike"),
                pitch(PitchResult::Ball, "Ball"),
            ],
            0,
        ))],
    };
    let separate_top = reduce_half_inning(&top);
    let separate_bottom = reduce_half_inning(&bottom);
    let top2 = half_with_three_outs();
    let bottom2 = HalfInning {
        items: vec![HalfInningItem::PlateAppearance(plate_appearance(
            vec![
                pitch(PitchResult::Strike, "Called Strike"),
                pitch(PitchResult::Ball, "Ball"),
            ],
            0,
        ))],
    };
    let combined = reduce_inning(&Inning { top: top2, bottom: Some(bottom2) });
    assert_eq!(combined.len(), separate_top.len() + separate_bottom.len());
    let recombined: Vec<&PitchState> = separate_top.iter().chain(separate_bottom.iter()).collect();
    for (a, b) in combined.iter().zip(recombined.iter()) {
        assert_eq!(a.des, b.des);
        assert_eq!(a.balls_start, b.balls_start);
        assert_eq!(a.strikes_start, b.strikes_start);
        assert_eq!(a.outs_start, b.outs_start);
        assert_eq!(a.base_state_start, b.base_state_start);
        assert_eq!(a.plate_appearance_pitch_num, b.plate_appearance_pitch_num);
    }
}

#[test]
fn missing_bottom_half_reduces_top_only() {
    let inning = Inning { top: half_with_three_outs(), bottom: None };
    let pitches = reduce_inning(&inning);
    assert_eq!(pitches.len(), 3);
}

#[test]
fn standalone_actions_are_skipped_in_half_inning() {
    let half = HalfInning {
        items: vec![
            HalfInningItem::Action(ActionEvent {
                balls: 0,
                strikes: 0,
                outs: 0,
                des: "Offensive Substitution".to_string(),
                player: 400,
            }),
            HalfInningItem::PlateAppearance(plate_appearance(
                vec![pitch(PitchResult::Ball, "Ball")],
                0,
            )),
        ],
    };
    let pitches = reduce_half_inning(&half);
    assert_eq!(pitches.len(), 1);
}

#[test]
fn innings_concatenate_in_order() {
    let innings = vec![
        Inning { top: half_with_three_outs(), bottom: Some(half_with_three_outs()) },
        Inning { top: half_with_three_outs(), bottom: None },
    ];
    let pitches = reduce_innings(&innings);
    assert_eq!(pitches.len(), 9);
    // every pitch of every half-inning starts from a fresh out count
    assert_eq!(pitches[3].outs_start, 0);
    assert_eq!(pitches[6].outs_start, 0);
}

#[test]
fn two_scoring_runners_add_two_runs_to_one_pitch() {
    // runners on second and third; a double clears the bases
    let pa = plate_appearance(
        vec![
            pitch(PitchResult::InPlay, "In play, run(s)"),
            runner("3B", "", "Double", true),
            runner("2B", "", "Double", true),
            runner("", "2B", "Double", false),
        ],
        0,
    );
    let (pitches, base_out) = reduce_plate_appearance(&pa, 6, 0);
    assert_eq!(pitches.len(), 1);
    assert_eq!(pitches[0].runs_scored, 2);
    assert_eq!(pitches[0].base_state_start, 6);
    assert_eq!(pitches[0].base_state_end, 2);
    assert_eq!(base_out, 2);
}
