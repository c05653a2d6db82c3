//! The shared motion state: clamping setters, unit conversions, the JSON
//! wire form and its round trip.

use ossm_motion::motion_control::ControlSetpoint;
use ossm_motion::motion_state::{
    get_motion_state, machine_motion_state, set_motion_depth_mm, set_motion_depth_pct,
    set_motion_enabled, set_motion_length_mm, set_motion_length_pct, set_motion_pattern,
    set_motion_sensation_neg_pos_100, set_motion_sensation_pct, set_motion_velocity_mm_s,
    set_motion_velocity_pct, MachineMotionState, MotionState,
};
use ossm_motion::json::parse_state_json;

#[test]
fn percent_setters_clamp_to_one_hundred() {
    let mut state = MotionState::new();
    set_motion_depth_pct(&mut state, 150);
    assert_eq!(state.depth, 100);
    set_motion_length_pct(&mut state, 101);
    assert_eq!(state.motion_length, 100);
    set_motion_sensation_pct(&mut state, 33);
    assert_eq!(state.sensation, 33);
    set_motion_pattern(&mut state, 42);
    assert_eq!(state.pattern, 42);
    set_motion_enabled(&mut state, true);
    assert!(state.motion_enabled);
    let snap = get_motion_state(&state);
    assert_eq!(snap, state);
}

#[test]
fn default_state_rests_at_neutral_sensation() {
    let state = MotionState::new();
    assert_eq!(state.sensation, 50);
    assert_eq!(state.depth, 0);
    assert!(!state.motion_enabled);
    // neutral sensation projects to the middle of the signed range
    let machine = machine_motion_state(&state);
    assert_eq!(machine.sensation, 0);
}

#[test]
fn machine_projection_uses_the_calibration_constants() {
    let mut state = MotionState::new();
    set_motion_depth_pct(&mut state, 100);
    set_motion_length_pct(&mut state, 50);
    set_motion_velocity_pct(&mut state, &mut ControlSetpoint::new(), 50);
    set_motion_sensation_pct(&mut state, 100);
    let machine = machine_motion_state(&state);
    assert_eq!(machine.depth, 180_000);
    assert_eq!(machine.motion_length, 90_000);
    // scale(50, 0, 100, 1, 600000) = 1 + 50 * 599999 / 100
    assert_eq!(machine.velocity, 300_000);
    assert_eq!(machine.sensation, 100);
}

#[test]
fn velocity_percent_update_rescales_the_inflight_cap() {
    let mut state = MotionState::new();
    let mut sp = ControlSetpoint::new();
    set_motion_velocity_pct(&mut state, &mut sp, 50);
    // a pattern cut the cap to a fifth of the 300 mm/s machine velocity
    sp.set_max_velocity(60_000);
    // the remote raises the velocity to 100 %: the cut survives the change
    set_motion_velocity_pct(&mut state, &mut sp, 100);
    assert_eq!(state.velocity, 100);
    assert_eq!(sp.max_velocity, 120_000);
}

#[test]
fn millimetre_setters_convert_and_clamp() {
    let mut state = MotionState::new();
    set_motion_depth_mm(&mut state, 90);
    assert_eq!(state.depth, 50);
    set_motion_depth_mm(&mut state, 500);
    assert_eq!(state.depth, 100);
    set_motion_length_mm(&mut state, 180);
    assert_eq!(state.motion_length, 100);
    set_motion_length_mm(&mut state, 45);
    assert_eq!(state.motion_length, 25);
    let mut sp = ControlSetpoint::new();
    set_motion_velocity_mm_s(&mut state, &mut sp, 600);
    assert_eq!(state.velocity, 100);
    set_motion_velocity_mm_s(&mut state, &mut sp, 0);
    assert_eq!(state.velocity, 0);
    set_motion_sensation_neg_pos_100(&mut state, -100);
    assert_eq!(state.sensation, 0);
    set_motion_sensation_neg_pos_100(&mut state, 0);
    assert_eq!(state.sensation, 50);
    set_motion_sensation_neg_pos_100(&mut state, 100);
    assert_eq!(state.sensation, 100);
    set_motion_sensation_neg_pos_100(&mut state, 300);
    assert_eq!(state.sensation, 100);
}

#[test]
fn from_impl_matches_the_machine_projection() {
    let mut state = MotionState::new();
    set_motion_depth_pct(&mut state, 100);
    let via_from: MachineMotionState = state.into();
    let via_fn = machine_motion_state(&state);
    assert_eq!(via_from, via_fn);
}

#[test]
fn json_of_enabled_state() {
    let state = MotionState {
        depth: 50,
        motion_length: 60,
        velocity: 70,
        sensation: 50,
        pattern: 0,
        motion_enabled: true,
    };
    let json = state.as_json();
    assert_eq!(
        String::from_utf8(json).unwrap(),
        r#"{"state":"strokeEngine","depth":50,"stroke":60,"speed":70,"sensation":50,"pattern":0}"#
    );
}

#[test]
fn json_of_disabled_state() {
    let state = MotionState::new();
    let json = state.as_json();
    assert_eq!(
        String::from_utf8(json).unwrap(),
        r#"{"state":"menu","depth":0,"stroke":0,"speed":0,"sensation":50,"pattern":0}"#
    );
}

#[test]
fn json_round_trip_returns_the_original_state() {
    let states = [
        MotionState::new(),
        MotionState {
            depth: 100,
            motion_length: 33,
            velocity: 7,
            sensation: 0,
            pattern: 4,
            motion_enabled: true,
        },
        MotionState {
            depth: 0,
            motion_length: 100,
            velocity: 100,
            sensation: 100,
            pattern: 4_294_967_295,
            motion_enabled: false,
        },
    ];
    for state in states {
        let json = state.as_json();
        let parsed = parse_state_json(&json).expect("canonical form must parse");
        assert_eq!(parsed, state);
        assert_eq!(parsed.as_json(), json);
    }
}

#[test]
fn parser_rejects_broken_or_non_canonical_forms() {
    assert!(parse_state_json(b"").is_none());
    assert!(parse_state_json(b"{}").is_none());
    assert!(parse_state_json(br#"{"state":"menu","depth":01,"stroke":0,"speed":0,"sensation":50,"pattern":0}"#).is_none());
    assert!(parse_state_json(br#"{"state":"on","depth":0,"stroke":0,"speed":0,"sensation":50,"pattern":0}"#).is_none());
    assert!(parse_state_json(br#"{"state":"menu","depth":0,"stroke":0,"speed":0,"sensation":50,"pattern":0} "#).is_none());
    assert!(parse_state_json(br#"{"state":"menu","depth":0,"stroke":0,"speed":0,"sensation":50,"pattern":4294967296}"#).is_none());
}

#[test]
fn pattern_list_json_lists_every_occupied_slot() {
    let ex = ossm_motion::pattern::PatternExecutor::new();
    let json = ex.get_all_patterns_json();
    assert_eq!(
        String::from_utf8(json).unwrap(),
        r#"[{"name":"Simple Stroke","idx":0},{"name":"Teasing Pounding","idx":1},{"name":"Half'n'Half","idx":3},{"name":"Deeper","idx":4},{"name":"Stop'n'Go","idx":5},{"name":"Torque","idx":6}]"#
    );
    assert!(ex.get_all_patterns_json().len() <= 256);
}
