//! The motion orchestrator: retract on disable, pattern switching, pauses,
//! and the full loop against the motion-control stage.

use std::cell::Cell;
use std::rc::Rc;

use ossm_motion::motion_control::{ControlSetpoint, MotionControl};
use ossm_motion::motion_state::{
    set_motion_depth_pct, set_motion_enabled, set_motion_length_pct, set_motion_pattern,
    set_motion_velocity_pct, MotionState,
};
use ossm_motion::motor::{DummyMotor, Timer};
use ossm_motion::orchestrator::{MotionOrchestrator, StepAction};

#[derive(Clone)]
struct TestTimer {
    now_us: Rc<Cell<u64>>,
}

impl TestTimer {
    fn new() -> Self {
        TestTimer { now_us: Rc::new(Cell::new(0)) }
    }

    fn advance_ms(&self, ms: u64) {
        self.now_us.set(self.now_us.get() + ms * 1000);
    }
}

impl Timer for TestTimer {
    fn now_us(&self) -> u64 {
        self.now_us.get()
    }
}

#[test]
fn retract_on_disable_restores_the_velocity_cap() {
    let mut orch = MotionOrchestrator::new();
    let mut sp = ControlSetpoint::new();
    let mut state = MotionState::new();
    set_motion_depth_pct(&mut state, 100);
    set_motion_length_pct(&mut state, 50);
    set_motion_velocity_pct(&mut state, &mut sp, 50);  // machine velocity 300 mm/s
    set_motion_enabled(&mut state, true);

    // first step submits the first pattern move
    assert_eq!(orch.step(&state, &mut sp), StepAction::Submitted);
    assert!(sp.move_in_progress);

    // the user disables motion mid-move: the next submitted move is the
    // retract, at the retract velocity
    set_motion_enabled(&mut state, false);
    assert_eq!(orch.step(&state, &mut sp), StepAction::Retracting);
    assert_eq!(sp.target_position, 10_000);
    assert_eq!(sp.max_velocity, 150_000);
    assert!(sp.move_in_progress);

    // while the retract runs, the orchestrator waits
    assert_eq!(orch.step(&state, &mut sp), StepAction::Retracting);

    // once it completes, the cap is restored to the user velocity
    sp.move_in_progress = false;
    assert_eq!(orch.step(&state, &mut sp), StepAction::RetractComplete);
    assert_eq!(sp.max_velocity, 300_000);
    assert!(!sp.move_in_progress);
}

#[test]
fn pattern_switch_resets_and_retracts() {
    let mut orch = MotionOrchestrator::new();
    let mut sp = ControlSetpoint::new();
    let mut state = MotionState::new();
    set_motion_depth_pct(&mut state, 100);
    set_motion_length_pct(&mut state, 50);
    set_motion_velocity_pct(&mut state, &mut sp, 50);
    set_motion_enabled(&mut state, true);
    orch.step(&state, &mut sp);

    set_motion_pattern(&mut state, 4);
    assert_eq!(orch.step(&state, &mut sp), StepAction::Retracting);
    assert_eq!(sp.target_position, 10_000);
    assert_eq!(orch.prev_pattern, 4);
    assert_eq!(orch.pattern_executor.current_pattern, 4);
    sp.move_in_progress = false;
    assert_eq!(orch.step(&state, &mut sp), StepAction::RetractComplete);
}

#[test]
fn post_move_delays_are_slept_before_the_next_move() {
    let mut orch = MotionOrchestrator::new();
    let mut sp = ControlSetpoint::new();
    let mut state = MotionState::new();
    set_motion_depth_pct(&mut state, 100);
    set_motion_length_pct(&mut state, 50);
    set_motion_velocity_pct(&mut state, &mut sp, 50);
    set_motion_pattern(&mut state, 5);  // the pausing pattern
    set_motion_enabled(&mut state, true);

    // select the pattern (switch retracts first)
    assert_eq!(orch.step(&state, &mut sp), StepAction::Retracting);
    sp.move_in_progress = false;
    assert_eq!(orch.step(&state, &mut sp), StepAction::RetractComplete);

    // out stroke, then the in stroke that ends the one-stroke series
    assert_eq!(orch.step(&state, &mut sp), StepAction::Submitted);
    sp.move_in_progress = false;
    assert_eq!(orch.step(&state, &mut sp), StepAction::Submitted);
    sp.move_in_progress = false;

    // its pause is applied before the next move
    assert_eq!(orch.step(&state, &mut sp), StepAction::Sleep { delay_ms: 5050 });
    assert_eq!(orch.step(&state, &mut sp), StepAction::Submitted);
}

#[test]
fn disabled_and_in_flight_states_wait() {
    let mut orch = MotionOrchestrator::new();
    let mut sp = ControlSetpoint::new();
    let mut state = MotionState::new();
    assert_eq!(orch.step(&state, &mut sp), StepAction::Idle);
    set_motion_enabled(&mut state, true);
    set_motion_depth_pct(&mut state, 100);
    orch.step(&state, &mut sp);
    assert!(sp.move_in_progress);
    assert_eq!(orch.step(&state, &mut sp), StepAction::Waiting);
}

#[test]
fn full_loop_drives_the_motor_inside_the_envelope() {
    let timer = TestTimer::new();
    let mut mc = MotionControl::new(DummyMotor::new(), timer.clone());
    let mut orch = MotionOrchestrator::new();
    let mut sp = ControlSetpoint::new();
    let mut state = MotionState::new();
    set_motion_depth_pct(&mut state, 100);
    set_motion_length_pct(&mut state, 50);
    set_motion_velocity_pct(&mut state, &mut sp, 100);
    set_motion_enabled(&mut state, true);

    let mut submitted = 0u32;
    for _ in 0..5_000 {
        match orch.step(&state, &mut sp) {
            StepAction::Submitted => submitted += 1,
            StepAction::Sleep { .. } => continue,
            _ => {}
        }
        timer.advance_ms(10);
        mc.update_handler(&mut sp);
    }
    assert!(submitted >= 4, "only {submitted} moves were sequenced");
    assert!(!mc.motor.steps_written.is_empty());
    for &steps in &mc.motor.steps_written {
        assert!((-155_648..=-8_192).contains(&steps));
    }

    // disable: the machine retracts to the envelope minimum and stops
    set_motion_enabled(&mut state, false);
    for _ in 0..1_000 {
        orch.step(&state, &mut sp);
        timer.advance_ms(10);
        mc.update_handler(&mut sp);
    }
    assert_eq!(mc.planner.position, 10_000);
    assert!(!sp.move_in_progress);
    assert_eq!(orch.step(&state, &mut sp), StepAction::Idle);
}
