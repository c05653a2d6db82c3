//! The jerk-limited planner and the motion-control loop: convergence,
//! envelope saturation, velocity clamping and the torque encoding.

use std::cell::Cell;
use std::rc::Rc;

use ossm_motion::motion_control::{steps_of_um, ControlSetpoint, MotionControl};
use ossm_motion::motor::{DummyMotor, Motor, Timer};
use ossm_motion::planner::{Planner, PlannerResult};

/// A clock the test advances by hand.
#[derive(Clone)]
struct TestTimer {
    now_us: Rc<Cell<u64>>,
}

impl TestTimer {
    fn new() -> Self {
        TestTimer { now_us: Rc::new(Cell::new(0)) }
    }

    fn advance_ms(&self, ms: u64) {
        self.now_us.set(self.now_us.get() + ms * 1000);
    }
}

impl Timer for TestTimer {
    fn now_us(&self) -> u64 {
        self.now_us.get()
    }
}

#[test]
fn planner_reaches_target_and_steps_are_small() {
    let mut planner = Planner::new();
    planner.target = 100_000;
    planner.max_velocity = 300_000;
    let mut prev = planner.position;
    let mut ticks = 0;
    loop {
        match planner.tick() {
            PlannerResult::Working => {
                // no tick may move farther than one tick of full-speed travel
                assert!((planner.position - prev).abs() <= 6_000);
                prev = planner.position;
                ticks += 1;
                assert!(ticks < 1_000, "planner did not converge");
            }
            PlannerResult::Finished => break,
        }
    }
    assert_eq!(planner.position, 100_000);
    assert_eq!(planner.velocity, 0);
}

#[test]
fn planner_makes_progress_even_at_the_velocity_floor() {
    let mut planner = Planner::new();
    planner.target = planner.position + 5;
    planner.max_velocity = 1;
    for _ in 0..5 {
        assert!(matches!(planner.tick(), PlannerResult::Working));
    }
    assert!(matches!(planner.tick(), PlannerResult::Finished));
    assert_eq!(planner.position, planner.target);
}

#[test]
fn retract_from_full_depth_finishes_within_135_ticks() {
    let mut planner = Planner::new();
    planner.position = 190_000;
    planner.target = 10_000;
    planner.max_velocity = 150_000;
    let mut ticks = 0;
    while planner.position != planner.target {
        planner.tick();
        ticks += 1;
        assert!(ticks <= 135);
    }
    assert!(ticks <= 135);
}

#[test]
fn velocity_cap_is_clamped_into_the_admissible_band() {
    let mut sp = ControlSetpoint::new();
    sp.set_max_velocity(1_000_000);
    assert_eq!(sp.max_velocity, 600_000);
    sp.set_max_velocity(0);
    assert_eq!(sp.max_velocity, 1);
    sp.set_max_velocity(-5);
    assert_eq!(sp.max_velocity, 1);
    sp.set_max_velocity(250_000);
    assert_eq!(sp.max_velocity, 250_000);
    assert!(sp.dirty);
}

#[test]
fn torque_percentages_map_to_the_motor_encoding() {
    let mut sp = ControlSetpoint::new();
    sp.set_torque(0);
    assert_eq!(sp.torque, 120);
    sp.set_torque(100);
    assert_eq!(sp.torque, 600);
    sp.set_torque(50);
    assert_eq!(sp.torque, 360);
    sp.set_torque(150);
    assert_eq!(sp.torque, 600);
    sp.set_torque(-10);
    assert_eq!(sp.torque, 120);
}

#[test]
fn scaled_velocity_update_preserves_the_pattern_ratio() {
    let mut sp = ControlSetpoint::new();
    // a pattern cut the cap to a fifth of the 200 mm/s machine velocity
    sp.set_max_velocity(40_000);
    // the remote doubles the machine velocity: the cap doubles too
    sp.set_max_velocity_scaled(200_000, 400_000);
    assert_eq!(sp.max_velocity, 80_000);
}

#[test]
fn steps_conversion_matches_the_belt_kinematics() {
    assert_eq!(steps_of_um(190_000), -155_648);
    assert_eq!(steps_of_um(10_000), -8_192);
    assert_eq!(steps_of_um(0), 0);
}

#[test]
fn envelope_saturation_caps_the_emitted_steps() {
    let timer = TestTimer::new();
    let mut mc = MotionControl::new(DummyMotor::new(), timer.clone());
    let mut sp = ControlSetpoint::new();
    // force the planner beyond the travel envelope
    sp.set_max_velocity(600_000);
    sp.set_target_position(195_000);
    let mut saw_saturation = false;
    for _ in 0..2_000 {
        timer.advance_ms(10);
        let outcome = mc.update_handler(&mut sp);
        if let Some(pos) = outcome.emitted_position {
            assert!((10_000..=190_000).contains(&pos));
            if outcome.envelope_exceeded {
                saw_saturation = true;
                assert_eq!(pos, 190_000);
                assert_eq!(outcome.emitted_steps, Some(-155_648));
            }
        }
        if outcome.finished {
            break;
        }
    }
    assert!(saw_saturation, "the run never hit the envelope");
    assert!(!sp.move_in_progress);
    // the loop keeps working normally afterwards
    sp.set_target_position(100_000);
    timer.advance_ms(10);
    let outcome = mc.update_handler(&mut sp);
    assert!(outcome.emitted_position.is_some());
}

#[test]
fn every_emitted_step_stays_inside_the_envelope() {
    let timer = TestTimer::new();
    let mut mc = MotionControl::new(DummyMotor::new(), timer.clone());
    let mut sp = ControlSetpoint::new();
    sp.set_max_velocity(600_000);
    for target in [0i64, 250_000, 10_000, 195_000, 100_000] {
        sp.set_target_position(target);
        for _ in 0..2_000 {
            timer.advance_ms(10);
            if mc.update_handler(&mut sp).finished {
                break;
            }
        }
    }
    assert!(!mc.motor.steps_written.is_empty());
    for &steps in &mc.motor.steps_written {
        // all emitted positions are inside [MIN_MOVE, MAX_MOVE]
        assert!((-155_648..=-8_192).contains(&steps), "steps {steps} out of envelope");
    }
}

#[test]
fn velocity_cooldown_debounces_cap_changes() {
    let timer = TestTimer::new();
    let mut mc = MotionControl::new(DummyMotor::new(), timer.clone());
    let mut sp = ControlSetpoint::new();
    sp.set_target_position(100_000);
    sp.set_max_velocity(300_000);
    // within the cooldown window the planner keeps its previous cap
    timer.advance_ms(10);
    mc.update_handler(&mut sp);
    assert_eq!(mc.planner.max_velocity, 1);
    // after the cooldown has elapsed the stashed cap is applied
    timer.advance_ms(40);
    mc.update_handler(&mut sp);
    assert_eq!(mc.planner.max_velocity, 300_000);
}

#[test]
fn torque_changes_reach_the_motor_once() {
    let timer = TestTimer::new();
    let mut mc = MotionControl::new(DummyMotor::new(), timer.clone());
    let mut sp = ControlSetpoint::new();
    sp.set_torque(50);
    let outcome = mc.update_handler(&mut sp);
    assert_eq!(outcome.wrote_torque, Some(360));
    assert_eq!(mc.motor.outputs_written, vec![360]);
    // the same torque again is not re-written
    sp.set_torque(50);
    let outcome = mc.update_handler(&mut sp);
    assert_eq!(outcome.wrote_torque, None);
    assert_eq!(mc.motor.outputs_written, vec![360]);
}

#[test]
fn motor_trait_minimum_write_delay_is_exposed() {
    let motor = DummyMotor::new();
    assert_eq!(motor.min_consecutive_write_delay_us(), 1000);
}
