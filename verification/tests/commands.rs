//! The string command protocol and its acknowledgements.

use ossm_motion::command::{parse_command, process_command, CommandAction};
use ossm_motion::motion_control::ControlSetpoint;
use ossm_motion::motion_state::MotionState;

fn run(command: &[u8]) -> (MotionState, ControlSetpoint, Vec<u8>) {
    let mut state = MotionState::new();
    let mut sp = ControlSetpoint::new();
    let ack = process_command(command, &mut state, &mut sp);
    (state, sp, ack)
}

#[test]
fn set_commands_route_to_their_setters() {
    let (state, _, ack) = run(b"set:depth:80");
    assert_eq!(state.depth, 80);
    assert_eq!(ack, b"ok:set:depth:80");

    let (state, _, _) = run(b"set:stroke:33");
    assert_eq!(state.motion_length, 33);

    let (state, _, _) = run(b"set:sensation:90");
    assert_eq!(state.sensation, 90);

    let (state, _, _) = run(b"set:pattern:5");
    assert_eq!(state.pattern, 5);

    let (state, sp, _) = run(b"set:speed:50");
    assert_eq!(state.velocity, 50);
    assert!(sp.dirty);
}

#[test]
fn set_clamps_out_of_range_values() {
    let (state, _, ack) = run(b"set:depth:1000");
    assert_eq!(state.depth, 100);
    assert_eq!(ack, b"ok:set:depth:1000");
}

#[test]
fn go_commands_toggle_motion() {
    let (state, _, ack) = run(b"go:strokeEngine");
    assert!(state.motion_enabled);
    assert_eq!(ack, b"ok:go:strokeEngine");

    let (state, _, _) = run(b"go:simplePenetration");
    assert!(state.motion_enabled);

    let mut state = MotionState::new();
    let mut sp = ControlSetpoint::new();
    state.motion_enabled = true;
    let ack = process_command(b"go:menu", &mut state, &mut sp);
    assert!(!state.motion_enabled);
    assert_eq!(ack, b"ok:go:menu");
}

#[test]
fn invalid_commands_fail_and_change_nothing() {
    for bad in [
        b"bogus:depth:10".as_slice(),
        b"set:bogus:10",
        b"set:depth:abc",
        b"set:depth:",
        b"set:depth",
        b"go:bogus",
        b"go",
        b"set",
        b"",
        b"set:depth:4294967296",
    ] {
        let (state, sp, ack) = run(bad);
        assert_eq!(state, MotionState::new(), "state changed for {bad:?}");
        assert_eq!(sp.dirty, false, "setpoint touched for {bad:?}");
        let mut expected = b"fail:".to_vec();
        expected.extend_from_slice(bad);
        assert_eq!(ack, expected);
    }
}

#[test]
fn one_leading_plus_is_accepted_in_payloads() {
    let (state, _, ack) = run(b"set:depth:+7");
    assert_eq!(state.depth, 7);
    assert_eq!(ack, b"ok:set:depth:+7");
    // but only one, and not on its own
    let (state, _, _) = run(b"set:depth:++7");
    assert_eq!(state, MotionState::new());
    let (state, _, _) = run(b"set:depth:+");
    assert_eq!(state, MotionState::new());
}

#[test]
fn extra_segments_after_the_value_are_ignored() {
    let (state, _, ack) = run(b"set:depth:10:junk");
    assert_eq!(state.depth, 10);
    assert_eq!(ack, b"ok:set:depth:10:junk");
}

#[test]
fn overflowing_echo_is_replaced() {
    let mut long = b"set:depth:10".to_vec();
    long.extend_from_slice(&[b'0'; 60]);
    let (_, _, ack) = run(&long);
    assert_eq!(ack, b"fail:overflow");

    let mut long_ok = b"set:depth:1:".to_vec();
    long_ok.extend_from_slice(&[b'x'; 55]);
    let (_, _, ack) = run(&long_ok);
    assert_eq!(ack, b"ok:overflow");
}

#[test]
fn parse_command_classifies_actions() {
    assert_eq!(parse_command(b"set:speed:7"), CommandAction::SetSpeed(7));
    assert_eq!(parse_command(b"set:stroke:0"), CommandAction::SetStroke(0));
    assert_eq!(parse_command(b"set:depth:007"), CommandAction::SetDepth(7));
    assert_eq!(parse_command(b"go:menu"), CommandAction::GoDisable);
    assert_eq!(parse_command(b"go:strokeEngine"), CommandAction::GoEnable);
    assert_eq!(parse_command(b"nope"), CommandAction::Invalid);
}
