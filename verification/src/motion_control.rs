//! The periodic motion-control loop: a submission mailbox written from any
//! task, and the per-tick handler that consumes it, advances the jerk-limited
//! planner, saturates against the travel envelope and writes step targets to
//! the motor.

use vstd::prelude::*;

use crate::config::{
    MAX_MOVE_UM, MIN_MOVE_UM, MOTION_CONTROL_MAX_VELOCITY_UM_S, MOTION_CONTROL_MIN_VELOCITY_UM_S,
    MOTOR_MAX_OUTPUT, MOTOR_MIN_OUTPUT, MOTOR_STEPS_PER_REVOLUTION, POSITION_RANGE_UM,
    REVERSE_DIRECTION, UM_PER_REVOLUTION, VELOCITY_UPDATE_COOLDOWN_MS,
};
use crate::motor::{Motor, Timer};
use crate::planner::{Planner, PlannerResult};
use crate::units::{saturate_range, spec_saturate};

verus! {

/// A velocity clamped into the planner's admissible band.  Values at or
/// below zero deadlock the planner, so they are lifted to the floor rather
/// than rejected.
pub open spec fn spec_clamp_velocity(v: int) -> int {
    spec_saturate(
        v,
        MOTION_CONTROL_MIN_VELOCITY_UM_S as int,
        MOTION_CONTROL_MAX_VELOCITY_UM_S as int,
    )
}

/// Raw motor encoding of a torque percentage: clamp to [0, 100], rescale to
/// [MOTOR_MIN_OUTPUT, MOTOR_MAX_OUTPUT], then append a zero digit (the last
/// digit is the motor's alarm selector; zero means no alarm).
pub open spec fn spec_torque_raw(pct: int) -> int {
    let clamped = spec_saturate(pct, 0, 100);
    ((MOTOR_MIN_OUTPUT * 100 + clamped * (MOTOR_MAX_OUTPUT - MOTOR_MIN_OUTPUT)) * 10) / 100
}

/// Absolute motor steps for a position: scale by the belt kinematics and
/// flip the sign unless the direction is reversed.
pub open spec fn spec_steps_of_um(position_um: int) -> int {
    let s = position_um * MOTOR_STEPS_PER_REVOLUTION as int / UM_PER_REVOLUTION as int;
    if REVERSE_DIRECTION {
        s
    } else {
        -s
    }
}

/// Convert a position inside the machine's range to absolute motor steps.
pub fn steps_of_um(position_um: i64) -> (r: i32)
    requires
        0 <= position_um <= POSITION_RANGE_UM,
    ensures
        r == spec_steps_of_um(position_um as int),
{
    proof {
        assert(position_um * MOTOR_STEPS_PER_REVOLUTION <= 32768000000000 && position_um
            * MOTOR_STEPS_PER_REVOLUTION >= 0) by (nonlinear_arith)
            requires 0 <= position_um <= POSITION_RANGE_UM;
        vstd::arithmetic::div_mod::lemma_div_is_ordered(
            position_um * MOTOR_STEPS_PER_REVOLUTION,
            32768000000000,
            UM_PER_REVOLUTION as int,
        );
        assert(32768000000000int / 40000int == 819200000);
        broadcast use vstd::arithmetic::div_mod::lemma_div_pos_is_pos;

    }
    let steps = (position_um * MOTOR_STEPS_PER_REVOLUTION) / UM_PER_REVOLUTION;
    if REVERSE_DIRECTION {
        steps as i32
    } else {
        (-steps) as i32
    }
}

/// The motion-control submission mailbox: target position, velocity cap and
/// torque, a dirty flag set by any write and cleared by the control loop at
/// the start of a tick, and the move-in-progress flag.
pub struct ControlSetpoint {
    pub target_position: i64,
    pub max_velocity: i64,
    pub torque: u16,
    pub dirty: bool,
    pub move_in_progress: bool,
}

impl ControlSetpoint {
    /// The target stays within the machine's positional range and the
    /// velocity within the planner's admissible band.
    pub open spec fn wf(self) -> bool {
        &&& -POSITION_RANGE_UM <= self.target_position <= POSITION_RANGE_UM
        &&& MOTION_CONTROL_MIN_VELOCITY_UM_S <= self.max_velocity
            <= MOTION_CONTROL_MAX_VELOCITY_UM_S
    }

    /// A fresh mailbox: resting target at the envelope minimum, velocity at
    /// the floor, nothing submitted yet.
    pub fn new() -> (r: Self)
        ensures
            r == (ControlSetpoint {
                target_position: MIN_MOVE_UM,
                max_velocity: MOTION_CONTROL_MIN_VELOCITY_UM_S,
                torque: 0,
                dirty: false,
                move_in_progress: false,
            }),
            r.wf(),
    {
        ControlSetpoint {
            target_position: MIN_MOVE_UM,
            max_velocity: MOTION_CONTROL_MIN_VELOCITY_UM_S,
            torque: 0,
            dirty: false,
            move_in_progress: false,
        }
    }

    /// Submit a new target position: stores it, marks the mailbox dirty and
    /// arms the move-in-progress flag.
    pub fn set_target_position(&mut self, position_um: i64)
        requires
            old(self).wf(),
            -POSITION_RANGE_UM <= position_um <= POSITION_RANGE_UM,
        ensures
            final(self).wf(),
            final(self).target_position == position_um,
            final(self).dirty,
            final(self).move_in_progress,
            final(self).max_velocity == old(self).max_velocity,
            final(self).torque == old(self).torque,
    {
        self.target_position = position_um;
        self.dirty = true;
        self.move_in_progress = true;
    }

    /// Submit a new velocity cap, clamped into the planner's admissible
    /// band, and mark the mailbox dirty.
    pub fn set_max_velocity(&mut self, max_velocity_um_s: i64)
        requires
            old(self).wf(),
        ensures
            final(self).wf(),
            final(self).max_velocity == spec_clamp_velocity(max_velocity_um_s as int),
            final(self).dirty,
            final(self).target_position == old(self).target_position,
            final(self).torque == old(self).torque,
            final(self).move_in_progress == old(self).move_in_progress,
    {
        self.max_velocity = saturate_range(
            max_velocity_um_s,
            MOTION_CONTROL_MIN_VELOCITY_UM_S,
            MOTION_CONTROL_MAX_VELOCITY_UM_S,
        );
        self.dirty = true;
    }

    /// Re-scale the velocity cap proportionally: the remote changed the
    /// machine velocity from `current_velocity_um_s` to
    /// `new_max_velocity_um_s`, and the cap currently in the mailbox (which a
    /// pattern may have cut below the machine velocity) must keep its ratio
    /// to it rather than be clobbered.
    pub fn set_max_velocity_scaled(&mut self, current_velocity_um_s: i64, new_max_velocity_um_s: i64)
        requires
            old(self).wf(),
            1 <= current_velocity_um_s,
            0 <= new_max_velocity_um_s <= MOTION_CONTROL_MAX_VELOCITY_UM_S,
        ensures
            final(self).wf(),
            final(self).max_velocity == spec_clamp_velocity(
                new_max_velocity_um_s * old(self).max_velocity / current_velocity_um_s as int,
            ),
            final(self).dirty,
            final(self).target_position == old(self).target_position,
            final(self).torque == old(self).torque,
            final(self).move_in_progress == old(self).move_in_progress,
    {
        proof {
            assert(0 <= new_max_velocity_um_s * self.max_velocity
                <= MOTION_CONTROL_MAX_VELOCITY_UM_S * MOTION_CONTROL_MAX_VELOCITY_UM_S)
                by (nonlinear_arith)
                requires
                    0 <= new_max_velocity_um_s <= MOTION_CONTROL_MAX_VELOCITY_UM_S,
                    0 < self.max_velocity <= MOTION_CONTROL_MAX_VELOCITY_UM_S;
            broadcast use vstd::arithmetic::div_mod::lemma_div_pos_is_pos;

            vstd::arithmetic::div_mod::lemma_div_is_ordered(
                new_max_velocity_um_s * self.max_velocity,
                MOTION_CONTROL_MAX_VELOCITY_UM_S * MOTION_CONTROL_MAX_VELOCITY_UM_S,
                current_velocity_um_s as int,
            );
            assert(MOTION_CONTROL_MAX_VELOCITY_UM_S * MOTION_CONTROL_MAX_VELOCITY_UM_S as int
                / current_velocity_um_s as int <= MOTION_CONTROL_MAX_VELOCITY_UM_S
                * MOTION_CONTROL_MAX_VELOCITY_UM_S) by (nonlinear_arith)
                requires 1 <= current_velocity_um_s;
        }
        let scaled = (new_max_velocity_um_s * self.max_velocity) / current_velocity_um_s;
        self.set_max_velocity(scaled);
    }

    /// Submit a torque limit given in percent, converted to the motor's raw
    /// encoding, and mark the mailbox dirty.
    pub fn set_torque(&mut self, torque_pct: i64)
        requires
            old(self).wf(),
        ensures
            final(self).wf(),
            final(self).torque == spec_torque_raw(torque_pct as int),
            final(self).dirty,
            final(self).target_position == old(self).target_position,
            final(self).max_velocity == old(self).max_velocity,
            final(self).move_in_progress == old(self).move_in_progress,
    {
        let clamped = saturate_range(torque_pct, 0, 100);
        proof {
            assert(0 <= clamped * (MOTOR_MAX_OUTPUT - MOTOR_MIN_OUTPUT) <= 4800)
                by (nonlinear_arith)
                requires 0 <= clamped <= 100;
            broadcast use vstd::arithmetic::div_mod::lemma_div_pos_is_pos;

            vstd::arithmetic::div_mod::lemma_div_is_ordered(
                (MOTOR_MIN_OUTPUT * 100 + clamped * (MOTOR_MAX_OUTPUT - MOTOR_MIN_OUTPUT)) * 10,
                60000,
                100,
            );
        }
        let raw = ((MOTOR_MIN_OUTPUT * 100 + clamped * (MOTOR_MAX_OUTPUT - MOTOR_MIN_OUTPUT)) * 10)
            / 100;
        self.torque = raw as u16;
        self.dirty = true;
    }

    /// Snapshot of the move-in-progress flag.
    pub fn is_move_in_progress(&self) -> (r: bool)
        ensures
            r == self.move_in_progress,
    {
        self.move_in_progress
    }
}

/// What one control tick did: the torque pushed to the motor (if the
/// setpoint changed it), the envelope-saturated position and the step target
/// written to the motor (if the planner is working), whether the envelope
/// had to saturate the planner's output, and whether the move finished.
pub struct TickOutcome {
    pub wrote_torque: Option<u16>,
    pub emitted_position: Option<i64>,
    pub emitted_steps: Option<i32>,
    pub envelope_exceeded: bool,
    pub finished: bool,
}

/// The periodic motion-control loop: owns the motor, the time source and the
/// jerk-limited planner.
pub struct MotionControl<M: Motor, T: Timer> {
    pub motor: M,
    pub timer: T,
    pub planner: Planner,
    pub velocity_setpoint: i64,
    pub torque_setpoint: u16,
    pub last_velocity_update_us: u64,
    pub last_motor_write_us: u64,
}

impl<M: Motor, T: Timer> MotionControl<M, T> {
    /// The planner stays well formed and the stashed velocity setpoint stays
    /// within the planner's admissible band.
    pub open spec fn wf(self) -> bool {
        &&& self.planner.wf()
        &&& MOTION_CONTROL_MIN_VELOCITY_UM_S <= self.velocity_setpoint
            <= MOTION_CONTROL_MAX_VELOCITY_UM_S
    }

    /// The target the planner holds after the mailbox is consumed.
    pub open spec fn consumed_target(self, setpoint: ControlSetpoint) -> i64 {
        if setpoint.dirty {
            setpoint.target_position
        } else {
            self.planner.target
        }
    }

    /// The stashed velocity setpoint after the mailbox is consumed.
    pub open spec fn consumed_velocity(self, setpoint: ControlSetpoint) -> i64 {
        if setpoint.dirty {
            setpoint.max_velocity
        } else {
            self.velocity_setpoint
        }
    }

    /// Build the loop around a motor and a time source, resting at the
    /// envelope minimum with the velocity at its floor.
    pub fn new(motor: M, timer: T) -> (r: Self)
        ensures
            r.wf(),
            r.planner == (Planner {
                position: MIN_MOVE_UM,
                velocity: 0,
                accel: 0,
                target: MIN_MOVE_UM,
                max_velocity: MOTION_CONTROL_MIN_VELOCITY_UM_S,
            }),
            r.velocity_setpoint == MOTION_CONTROL_MIN_VELOCITY_UM_S,
            r.torque_setpoint == 0,
    {
        let now = timer.now_us();
        MotionControl {
            motor,
            timer,
            planner: Planner::new(),
            velocity_setpoint: MOTION_CONTROL_MIN_VELOCITY_UM_S,
            torque_setpoint: 0,
            last_velocity_update_us: now,
            last_motor_write_us: now,
        }
    }

    /// One control tick.  Consumes the mailbox if dirty (new target resets
    /// the trajectory; a new velocity is stashed and only applied outside the
    /// cooldown window; a new torque goes straight to the motor); then, if a
    /// move is in progress, advances the planner, saturates its output
    /// against the travel envelope, pads the inter-write interval and writes
    /// the step target to the motor.  A motor write error is dropped: the
    /// next tick retries with fresh output.
    pub fn update_handler(&mut self, setpoint: &mut ControlSetpoint) -> (r: TickOutcome)
        requires
            old(self).wf(),
            old(setpoint).wf(),
        ensures
            final(self).wf(),
            final(setpoint).wf(),
            final(setpoint).dirty == false,
            final(setpoint).target_position == old(setpoint).target_position,
            final(setpoint).max_velocity == old(setpoint).max_velocity,
            final(setpoint).torque == old(setpoint).torque,
            final(self).velocity_setpoint == old(self).consumed_velocity(*old(setpoint)),
            final(self).planner.target == old(self).consumed_target(*old(setpoint)),
            // the applied planner velocity is either kept or the consumed setpoint
            (final(self).planner.max_velocity == old(self).planner.max_velocity
                || final(self).planner.max_velocity == old(self).consumed_velocity(
                *old(setpoint))),
            // the cap is applied only outside the cooldown window: whenever it
            // changes, and the mailbox did not just restart the window by
            // stashing a new setpoint, the recorded reference time has
            // advanced by more than the cooldown since the last change
            (final(self).planner.max_velocity != old(self).planner.max_velocity
                && !(old(setpoint).dirty && old(setpoint).max_velocity != old(self).velocity_setpoint))
                ==> final(self).last_velocity_update_us as int
                > old(self).last_velocity_update_us as int
                + VELOCITY_UPDATE_COOLDOWN_MS as int * 1000,
            // torque reaches the motor exactly when the mailbox changed it
            r.wrote_torque == (if old(setpoint).dirty && old(setpoint).torque != old(self).torque_setpoint {
                Some(old(setpoint).torque)
            } else {
                None::<u16>
            }),
            final(self).torque_setpoint == (if old(setpoint).dirty {
                old(setpoint).torque
            } else {
                old(self).torque_setpoint
            }),
            // planner evolution: one tick from the consumed state
            old(setpoint).move_in_progress ==> final(self).planner == (Planner {
                target: old(self).consumed_target(*old(setpoint)),
                max_velocity: final(self).planner.max_velocity,
                ..old(self).planner
            }).tick_spec().0,
            !old(setpoint).move_in_progress ==> final(self).planner == (Planner {
                target: old(self).consumed_target(*old(setpoint)),
                ..old(self).planner
            }) && r.emitted_position is None && !r.finished,
            // move lifecycle
            r.finished <==> old(setpoint).move_in_progress && old(self).planner.position == old(
                self,
            ).consumed_target(*old(setpoint)),
            final(setpoint).move_in_progress == (old(setpoint).move_in_progress && !r.finished),
            r.finished ==> final(self).planner.position == final(self).planner.target,
            // every emitted position lies inside the travel envelope
            r.emitted_position is Some <==> old(setpoint).move_in_progress && !r.finished,
            r.emitted_position matches Some(pos) ==> {
                &&& pos == spec_saturate(final(self).planner.position as int, MIN_MOVE_UM as int,
                    MAX_MOVE_UM as int)
                &&& MIN_MOVE_UM <= pos <= MAX_MOVE_UM
                &&& r.emitted_steps matches Some(steps) && steps == spec_steps_of_um(pos as int)
                &&& r.envelope_exceeded == (final(self).planner.position != pos)
            },
    {
        let mut wrote_torque: Option<u16> = None;
        if setpoint.dirty {
            setpoint.dirty = false;
            if setpoint.target_position != self.planner.target {
                self.planner.target = setpoint.target_position;
            }
            if setpoint.max_velocity != self.velocity_setpoint {
                self.velocity_setpoint = setpoint.max_velocity;
                self.last_velocity_update_us = self.timer.now_us();
            }
            if setpoint.torque != self.torque_setpoint {
                self.torque_setpoint = setpoint.torque;
                // an error here is dropped; the torque is pushed again when
                // the mailbox next changes it
                let _ = self.motor.set_max_allowed_output(setpoint.torque);
                wrote_torque = Some(setpoint.torque);
            }
        }

        let mut emitted_position: Option<i64> = None;
        let mut emitted_steps: Option<i32> = None;
        let mut envelope_exceeded = false;
        let mut finished = false;

        if setpoint.move_in_progress {
            // Restrict how often the planner's velocity cap may change:
            // updating it too often makes the motion unstable.
            if self.velocity_setpoint != self.planner.max_velocity {
                let now = self.timer.now_us();
                let elapsed_ms = if now >= self.last_velocity_update_us {
                    (now - self.last_velocity_update_us) / 1000
                } else {
                    0
                };
                if elapsed_ms > VELOCITY_UPDATE_COOLDOWN_MS {
                    proof {
                        vstd::arithmetic::div_mod::lemma_fundamental_div_mod(
                            now as int - self.last_velocity_update_us as int,
                            1000,
                        );
                        vstd::arithmetic::div_mod::lemma_mod_bound(
                            now as int - self.last_velocity_update_us as int,
                            1000,
                        );
                    }
                    self.planner.max_velocity = self.velocity_setpoint;
                    self.last_velocity_update_us = now;
                }
            }

            let res = self.planner.tick();
            match res {
                PlannerResult::Working => {
                    let sat = saturate_range(self.planner.position, MIN_MOVE_UM, MAX_MOVE_UM);
                    envelope_exceeded = sat != self.planner.position;
                    let steps = steps_of_um(sat);

                    // Pad the interval between consecutive motor commands.
                    let now = self.timer.now_us();
                    let since = if now >= self.last_motor_write_us {
                        now - self.last_motor_write_us
                    } else {
                        0
                    };
                    let min_delay = self.motor.min_consecutive_write_delay_us();
                    if since < min_delay {
                        self.motor.delay(min_delay - since);
                    }

                    // An I/O error is dropped; the next tick retries.
                    let _ = self.motor.set_absolute_position(steps);
                    self.last_motor_write_us = self.timer.now_us();

                    emitted_position = Some(sat);
                    emitted_steps = Some(steps);
                }
                PlannerResult::Finished => {
                    setpoint.move_in_progress = false;
                    finished = true;
                }
            }
        }

        TickOutcome { wrote_torque, emitted_position, emitted_steps, envelope_exceeded, finished }
    }

    /// The current planner position, for diagnostics.
    pub fn current_position_um(&self) -> (r: i64)
        ensures
            r == self.planner.position,
    {
        self.planner.position
    }
}

} // verus!
