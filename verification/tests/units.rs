//! The linear rescaling and clamping helpers, and the round-trip error
//! bounds of the unit conversions.

use ossm_motion::motion_control::ControlSetpoint;
use ossm_motion::motion_state::{
    machine_motion_state, set_motion_depth_mm, set_motion_depth_pct,
    set_motion_sensation_neg_pos_100, set_motion_sensation_pct, set_motion_velocity_mm_s,
    set_motion_velocity_pct, MotionState,
};
use ossm_motion::units::{saturate_range, scale};

#[test]
fn scale_maps_linearly_with_truncation() {
    assert_eq!(scale(0, 0, 100, 0, 180_000), 0);
    assert_eq!(scale(100, 0, 100, 0, 180_000), 180_000);
    assert_eq!(scale(50, 0, 100, 1, 600_000), 300_000);
    assert_eq!(scale(0, -100, 100, 2, 22), 12);
    assert_eq!(scale(0, -100, 100, 100, 10_000), 5050);
    assert_eq!(scale(1, -100, 100, 100, 10_000), 5099);
}

#[test]
fn saturate_range_clamps_both_ends() {
    assert_eq!(saturate_range(5, 0, 10), 5);
    assert_eq!(saturate_range(-5, 0, 10), 0);
    assert_eq!(saturate_range(15, 0, 10), 10);
    assert_eq!(saturate_range(0, 0, 0), 0);
}

#[test]
fn sensation_percent_to_signed_round_trip_is_exact() {
    for pct in 0u32..=100 {
        let mut state = MotionState::new();
        set_motion_sensation_pct(&mut state, pct);
        let signed = machine_motion_state(&state).sensation;
        let mut back = MotionState::new();
        set_motion_sensation_neg_pos_100(&mut back, signed as i32);
        assert_eq!(back.sensation, pct);
    }
}

#[test]
fn sensation_signed_round_trip_loses_at_most_one() {
    for s in -100i32..=100 {
        let mut state = MotionState::new();
        set_motion_sensation_neg_pos_100(&mut state, s);
        let back = machine_motion_state(&state).sensation as i32;
        assert!(s - 1 <= back && back <= s, "sensation {s} came back as {back}");
    }
}

#[test]
fn depth_mm_round_trip_stays_within_one_percent_quantum() {
    for mm in 0u32..=180 {
        let mut state = MotionState::new();
        set_motion_depth_mm(&mut state, mm);
        let back_um = machine_motion_state(&state).depth;
        let um = (mm as i64) * 1000;
        assert!(um - 1800 < back_um && back_um <= um, "depth {mm} mm came back as {back_um} um");
    }
}

#[test]
fn depth_pct_round_trip_loses_at_most_one_percent() {
    for pct in 0u32..=100 {
        let mut state = MotionState::new();
        set_motion_depth_pct(&mut state, pct);
        let mm = (machine_motion_state(&state).depth / 1000) as u32;
        let mut back = MotionState::new();
        set_motion_depth_mm(&mut back, mm);
        let got = back.depth as i64;
        assert!(
            (pct as i64) - 1 <= got && got <= pct as i64,
            "depth {pct}% came back as {got}%"
        );
    }
}

#[test]
fn velocity_scaled_update_needs_no_setpoint_when_equal() {
    // re-scaling with an unchanged machine velocity keeps the cap
    let mut sp = ControlSetpoint::new();
    sp.set_max_velocity(40_000);
    sp.set_max_velocity_scaled(300_000, 300_000);
    assert_eq!(sp.max_velocity, 40_000);
}

#[test]
fn velocity_pct_round_trip_loses_at_most_one_percent() {
    for pct in 0u32..=100 {
        let mut state = MotionState::new();
        let mut sp = ControlSetpoint::new();
        set_motion_velocity_pct(&mut state, &mut sp, pct);
        let mm_s = (machine_motion_state(&state).velocity / 1000) as u32;
        let mut back = MotionState::new();
        let mut sp2 = ControlSetpoint::new();
        set_motion_velocity_mm_s(&mut back, &mut sp2, mm_s);
        let got = back.velocity as i64;
        assert!(
            (pct as i64) - 1 <= got && got <= pct as i64,
            "velocity {pct}% came back as {got}%"
        );
    }
}
