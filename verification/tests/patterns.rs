//! The pattern catalogue, stroke by stroke, against the documented
//! sequences (machine units: um and um/s).

use ossm_motion::pattern::{PatternExecutor, PatternInput, PatternMove};

fn input(depth_mm: i64, motion_length_mm: i64, velocity_mm_s: i64, sensation: i64) -> PatternInput {
    PatternInput {
        depth: depth_mm * 1000,
        motion_length: motion_length_mm * 1000,
        velocity: velocity_mm_s * 1000,
        sensation,
    }
}

fn take_moves(ex: &mut PatternExecutor, input: &PatternInput, n: usize) -> Vec<PatternMove> {
    let mut moves = Vec::new();
    for _ in 0..n {
        moves.push(ex.next_move(input));
    }
    moves
}

#[test]
fn simple_stroke_sequence() {
    let mut ex = PatternExecutor::new();
    ex.set_pattern(0);
    let input = input(100, 50, 200, 0);
    let moves = take_moves(&mut ex, &input, 4);
    let got: Vec<(i64, i64)> = moves.iter().map(|m| (m.position, m.velocity)).collect();
    assert_eq!(
        got,
        vec![(100_000, 200_000), (50_000, 200_000), (100_000, 200_000), (50_000, 200_000)]
    );
}

#[test]
fn teasing_pounding_positive_sensation() {
    let mut ex = PatternExecutor::new();
    ex.set_pattern(1);
    let input = input(100, 50, 200, 50);
    // cut = 200/5 = 40; f = scale(50, 0, 100, 1, 5) = 3; in stroke = 120
    let moves = take_moves(&mut ex, &input, 4);
    let got: Vec<(i64, i64)> = moves.iter().map(|m| (m.position, m.velocity)).collect();
    assert_eq!(
        got,
        vec![(100_000, 40_000), (50_000, 120_000), (100_000, 40_000), (50_000, 120_000)]
    );
}

#[test]
fn teasing_pounding_negative_sensation_boosts_out_stroke() {
    let mut ex = PatternExecutor::new();
    ex.set_pattern(1);
    let input = input(100, 50, 200, -50);
    let moves = take_moves(&mut ex, &input, 2);
    assert_eq!(moves[0].velocity, 120_000);
    assert_eq!(moves[1].velocity, 40_000);
}

#[test]
fn half_n_half_alternates_full_and_half_out_strokes() {
    let mut ex = PatternExecutor::new();
    ex.set_pattern(3);
    let input = input(100, 50, 200, 0);
    let moves = take_moves(&mut ex, &input, 6);
    let got: Vec<i64> = moves.iter().map(|m| m.position).collect();
    // out full, in, out to depth - length/2, in, out full, in
    assert_eq!(got, vec![100_000, 50_000, 75_000, 50_000, 100_000, 50_000]);
    // every stroke at the cut velocity when sensation is zero
    assert!(moves.iter().all(|m| m.velocity == 40_000));
}

#[test]
fn deeper_climbs_in_twelve_steps_at_zero_sensation() {
    let mut ex = PatternExecutor::new();
    ex.set_pattern(4);
    let input = input(120, 60, 200, 0);
    // N = scale(0, -100, 100, 2, 22) = 12, in base = 60
    let moves = take_moves(&mut ex, &input, 26);
    let out_targets: Vec<i64> = moves.iter().step_by(2).map(|m| m.position).collect();
    assert_eq!(
        out_targets,
        vec![
            65_000, 70_000, 75_000, 80_000, 85_000, 90_000, 95_000, 100_000, 105_000, 110_000,
            115_000, 120_000, 65_000,
        ]
    );
    let in_targets: Vec<i64> = moves.iter().skip(1).step_by(2).map(|m| m.position).collect();
    assert!(in_targets.iter().all(|&p| p == 60_000));
}

#[test]
fn deeper_resets_its_ladder_when_sensation_changes() {
    let mut ex = PatternExecutor::new();
    ex.set_pattern(4);
    let calm = input(120, 60, 200, 0);
    take_moves(&mut ex, &calm, 6);  // part way up the ladder
    let changed = input(120, 60, 200, 100);
    // N becomes scale(100, -100, 100, 2, 22) = 22; increment 60/22 mm
    let first_out = ex.next_move(&changed);
    assert_eq!(first_out.position, 60_000 + 60_000 / 22);
}

#[test]
fn stop_n_go_series_lengths_and_delays() {
    let mut ex = PatternExecutor::new();
    ex.set_pattern(5);
    let input = input(100, 50, 200, 0);
    // delay = scale(0, -100, 100, 100, 10000) = 5050, at the last in stroke
    // of each series; series lengths cycle 1,2,3,4,5,5,4,...
    let mut series_lengths = Vec::new();
    let mut strokes_in_series = 0u32;
    for _ in 0..60 {
        let out = ex.next_move(&input);
        assert_eq!(out.position, 100_000);
        assert_eq!(out.delay_ms, 0);
        let inm = ex.next_move(&input);
        assert_eq!(inm.position, 50_000);
        strokes_in_series += 1;
        if inm.delay_ms != 0 {
            assert_eq!(inm.delay_ms, 5050);
            series_lengths.push(strokes_in_series);
            strokes_in_series = 0;
        }
        assert_eq!(out.velocity, 200_000);
        assert_eq!(inm.velocity, 200_000);
    }
    assert_eq!(&series_lengths[..12], &[1, 2, 3, 4, 5, 5, 4, 3, 2, 1, 1, 2]);
}

#[test]
fn stop_n_go_restarts_on_sensation_change() {
    let mut ex = PatternExecutor::new();
    ex.set_pattern(5);
    let calm = input(100, 50, 200, 0);
    for _ in 0..6 {
        ex.next_move(&calm);
    }
    let changed = input(100, 50, 200, 100);
    // the series restarts at length one: the first in stroke ends it
    let _out = ex.next_move(&changed);
    let inm = ex.next_move(&changed);
    // delay = scale(100, -100, 100, 100, 10000) = 10000
    assert_eq!(inm.delay_ms, 10_000);
}

#[test]
fn torque_pattern_carries_scaled_torque() {
    let mut ex = PatternExecutor::new();
    ex.set_pattern(6);
    let zero = input(100, 50, 200, 0);
    let m = ex.next_move(&zero);
    // torque = scale(0, -100, 100, 0, 100) = 50
    assert_eq!(m.torque, 50);
    assert_eq!(m.position, 100_000);
    let full = input(100, 50, 200, 100);
    let m2 = ex.next_move(&full);
    assert_eq!(m2.torque, 100);
}

#[test]
fn executor_saturates_position_and_velocity() {
    let mut ex = PatternExecutor::new();
    ex.set_pattern(0);
    // motion length larger than depth: the in stroke would go below zero
    let input = input(50, 80, 200, 0);
    let out = ex.next_move(&input);
    assert_eq!(out.position, 50_000);
    let inm = ex.next_move(&input);
    assert_eq!(inm.position, 0);
    assert!(inm.velocity <= input.velocity && inm.velocity >= 0);
}

#[test]
fn unknown_or_empty_pattern_slots_fall_back_to_simple() {
    let mut ex = PatternExecutor::new();
    ex.set_pattern(2);  // a hole in the catalogue
    assert_eq!(ex.get_current_pattern_name(), "Simple Stroke");
    ex.set_pattern(99);  // out of range
    assert_eq!(ex.get_current_pattern_name(), "Simple Stroke");
    ex.set_pattern(4);
    assert_eq!(ex.get_current_pattern_name(), "Deeper");
}

#[test]
fn first_move_after_reset_is_the_out_stroke() {
    let mut ex = PatternExecutor::new();
    let input = input(100, 50, 200, 0);
    for idx in [0u32, 1, 3, 4, 5, 6] {
        ex.set_pattern(idx);
        ex.reset();
        let m = ex.next_move(&input);
        assert!(m.position > 50_000, "pattern {idx} did not start with an out stroke");
    }
}

#[test]
fn pattern_descriptions_are_exposed_per_slot() {
    let ex = PatternExecutor::new();
    assert_eq!(
        ex.get_pattern_description(1),
        Some("Same as the simple pattern. Sensation controls speed ratio of in and out strokes")
    );
    assert_eq!(
        ex.get_pattern_description(3),
        Some("Alternate between full and half strokes. Sensation controls speed ratio of in and out strokes")
    );
    assert_eq!(ex.get_pattern_description(0), Some(""));
    assert_eq!(ex.get_pattern_description(2), None);
    assert_eq!(ex.get_pattern_description(7), None);
}
