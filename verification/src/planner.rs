//! Discrete-time, jerk-limited, single-axis trajectory planner.
//!
//! The planner owns the current position, velocity and acceleration and
//! advances them one control tick at a time toward a target position.  Per
//! tick the acceleration ramps up under the jerk ceiling, the velocity ramps
//! up under the acceleration and is clamped by the per-move maximum velocity,
//! and the position advances by the distance the velocity covers in one tick
//! (never past the target, and by at least one micrometre, so that even the
//! smallest admissible maximum velocity makes progress).

use vstd::prelude::*;

use crate::config::{
    MAX_MOVE_UM, MIN_MOVE_UM, MOTION_CONTROL_MAX_ACCELERATION_UM_S2,
    MOTION_CONTROL_MAX_JERK_UM_S3, MOTION_CONTROL_MAX_VELOCITY_UM_S,
    MOTION_CONTROL_MIN_VELOCITY_UM_S, POSITION_RANGE_UM, RETRACT_VELOCITY_UM_S, TICKS_PER_SECOND,
};

verus! {

/// Outcome of one planner tick: still moving, or the target was already
/// reached when the tick began.
#[derive(Clone, Copy, PartialEq, Eq, Structural, Debug)]
pub enum PlannerResult {
    Working,
    Finished,
}

/// Planner state.  Positions in um, velocities in um/s, accelerations in
/// um/s^2.  `velocity` and `accel` are magnitudes; the direction of motion is
/// the sign of `target - position` each tick.
#[derive(Clone, Copy, PartialEq, Eq, Structural, Debug)]
pub struct Planner {
    pub position: i64,
    pub velocity: i64,
    pub accel: i64,
    pub target: i64,
    pub max_velocity: i64,
}

/// Acceleration gained in one tick under the jerk ceiling, in um/s^2.
pub open spec fn accel_ramp_per_tick() -> int {
    MOTION_CONTROL_MAX_JERK_UM_S3 as int / TICKS_PER_SECOND as int
}

/// Velocity gained in one tick once the acceleration ceiling is reached, in um/s.
pub open spec fn velocity_ramp_per_tick() -> int {
    MOTION_CONTROL_MAX_JERK_UM_S3 as int / TICKS_PER_SECOND as int / TICKS_PER_SECOND as int
}

/// Distance covered in one tick at velocity `v`, in um: at least one
/// micrometre, so a move always makes progress.
pub open spec fn step_of_velocity(v: int) -> int {
    vstd::math::max(v / TICKS_PER_SECOND as int, 1)
}

impl Planner {
    /// Well-formedness: every kinematic quantity within its machine limit.
    pub open spec fn wf(self) -> bool {
        &&& -POSITION_RANGE_UM <= self.position <= POSITION_RANGE_UM
        &&& -POSITION_RANGE_UM <= self.target <= POSITION_RANGE_UM
        &&& 0 <= self.velocity <= MOTION_CONTROL_MAX_VELOCITY_UM_S
        &&& 0 <= self.accel <= MOTION_CONTROL_MAX_ACCELERATION_UM_S2
        &&& MOTION_CONTROL_MIN_VELOCITY_UM_S <= self.max_velocity
            <= MOTION_CONTROL_MAX_VELOCITY_UM_S
    }

    /// The planner state and result after one tick, as a mathematical map.
    pub open spec fn tick_spec(self) -> (Planner, PlannerResult) {
        if self.position == self.target {
            (Planner { velocity: 0, accel: 0, ..self }, PlannerResult::Finished)
        } else {
            let accel2 = vstd::math::min(
                self.accel + accel_ramp_per_tick(),
                MOTION_CONTROL_MAX_ACCELERATION_UM_S2 as int,
            );
            let vel2 = vstd::math::min(
                self.velocity + accel2 / TICKS_PER_SECOND as int,
                self.max_velocity as int,
            );
            let dist = vstd::math::abs(self.target - self.position);
            let step = step_of_velocity(vel2);
            if step >= dist {
                (
                    Planner { position: self.target, velocity: 0, accel: 0, ..self },
                    PlannerResult::Working,
                )
            } else if self.target > self.position {
                (
                    Planner {
                        position: (self.position + step) as i64,
                        velocity: vel2 as i64,
                        accel: accel2 as i64,
                        ..self
                    },
                    PlannerResult::Working,
                )
            } else {
                (
                    Planner {
                        position: (self.position - step) as i64,
                        velocity: vel2 as i64,
                        accel: accel2 as i64,
                        ..self
                    },
                    PlannerResult::Working,
                )
            }
        }
    }

    /// A fresh planner resting at the home-side envelope minimum, with the
    /// velocity cap at its floor.
    pub fn new() -> (r: Planner)
        ensures
            r == (Planner {
                position: MIN_MOVE_UM,
                velocity: 0,
                accel: 0,
                target: MIN_MOVE_UM,
                max_velocity: MOTION_CONTROL_MIN_VELOCITY_UM_S,
            }),
            r.wf(),
    {
        Planner {
            position: MIN_MOVE_UM,
            velocity: 0,
            accel: 0,
            target: MIN_MOVE_UM,
            max_velocity: MOTION_CONTROL_MIN_VELOCITY_UM_S,
        }
    }

    /// Advance the trajectory by one control tick.
    pub fn tick(&mut self) -> (r: PlannerResult)
        requires
            old(self).wf(),
        ensures
            *final(self) == old(self).tick_spec().0,
            r == old(self).tick_spec().1,
            final(self).wf(),
            final(self).target == old(self).target,
            final(self).max_velocity == old(self).max_velocity,
            r == PlannerResult::Finished <==> old(self).position == old(self).target,
    {
        if self.position == self.target {
            self.velocity = 0;
            self.accel = 0;
            return PlannerResult::Finished;
        }

        let mut accel2 = self.accel + (MOTION_CONTROL_MAX_JERK_UM_S3 / TICKS_PER_SECOND);
        if accel2 > MOTION_CONTROL_MAX_ACCELERATION_UM_S2 {
            accel2 = MOTION_CONTROL_MAX_ACCELERATION_UM_S2;
        }
        let mut vel2 = self.velocity + accel2 / TICKS_PER_SECOND;
        if vel2 > self.max_velocity {
            vel2 = self.max_velocity;
        }

        let dist = if self.target > self.position {
            self.target - self.position
        } else {
            self.position - self.target
        };
        let mut step = vel2 / TICKS_PER_SECOND;
        if step < 1 {
            step = 1;
        }

        if step >= dist {
            self.position = self.target;
            self.velocity = 0;
            self.accel = 0;
        } else if self.target > self.position {
            self.position = self.position + step;
            self.velocity = vel2;
            self.accel = accel2;
        } else {
            self.position = self.position - step;
            self.velocity = vel2;
            self.accel = accel2;
        }
        PlannerResult::Working
    }
}

/// The planner after `n` ticks.
pub open spec fn planner_iterate(p: Planner, n: nat) -> Planner
    decreases n,
{
    if n == 0 {
        p
    } else {
        planner_iterate(p.tick_spec().0, (n - 1) as nat)
    }
}

/// One tick keeps the planner well formed and leaves the target and the
/// velocity cap alone.
pub proof fn lemma_tick_preserves_wf(p: Planner)
    requires
        p.wf(),
    ensures
        p.tick_spec().0.wf(),
        p.tick_spec().0.target == p.target,
        p.tick_spec().0.max_velocity == p.max_velocity,
{
}

/// No single tick moves the position by more than the distance one tick of
/// travel at the velocity ceiling covers, which in turn is far below the
/// discontinuity budget `MAX_JERK * T^2 + MAX_ACCELERATION * T`.
pub proof fn lemma_tick_position_step_bounded(p: Planner)
    requires
        p.wf(),
    ensures
        vstd::math::abs(p.tick_spec().0.position - p.position) <= vstd::math::max(
            MOTION_CONTROL_MAX_VELOCITY_UM_S as int / TICKS_PER_SECOND as int,
            1,
        ),
        vstd::math::abs(p.tick_spec().0.position - p.position)
            <= MOTION_CONTROL_MAX_JERK_UM_S3 as int / (TICKS_PER_SECOND as int
            * TICKS_PER_SECOND as int) + MOTION_CONTROL_MAX_ACCELERATION_UM_S2 as int
            / TICKS_PER_SECOND as int,
{
}

/// Ticks needed to close the velocity gap up to the cap.
pub open spec fn ramp_ticks(p: Planner) -> int {
    if p.velocity >= p.max_velocity {
        0
    } else {
        (p.max_velocity - p.velocity + velocity_ramp_per_tick() - 1) / velocity_ramp_per_tick()
    }
}

/// Ticks needed to cover the remaining distance at the cap.
pub open spec fn cruise_ticks(p: Planner) -> int {
    let dist = vstd::math::abs(p.target - p.position);
    let step = step_of_velocity(p.max_velocity as int);
    (dist + step - 1) / step
}

/// An upper bound on the ticks left until the position reaches the target:
/// zero once there, otherwise the ramp ticks plus the cruise ticks.
pub open spec fn ticks_to_target(p: Planner) -> int {
    if p.position == p.target {
        0
    } else {
        ramp_ticks(p) + cruise_ticks(p)
    }
}

/// Every tick taken away from the target strictly shrinks the tick budget:
/// either the velocity closes on the cap by at least the per-tick ramp, or it
/// is at the cap and the distance shrinks by a full cruise step.
pub proof fn lemma_tick_progress(p: Planner)
    requires
        p.wf(),
        p.position != p.target,
    ensures
        0 <= ticks_to_target(p.tick_spec().0) < ticks_to_target(p),
{
    broadcast use vstd::arithmetic::div_mod::lemma_div_is_ordered;
    broadcast use vstd::arithmetic::div_mod::lemma_div_pos_is_pos;
    broadcast use vstd::arithmetic::div_mod::lemma_div_plus_one;

    let q = p.tick_spec().0;
    let vr = velocity_ramp_per_tick();
    let accel2 = vstd::math::min(
        p.accel + accel_ramp_per_tick(),
        MOTION_CONTROL_MAX_ACCELERATION_UM_S2 as int,
    );
    let vel2 = vstd::math::min(
        p.velocity + accel2 / TICKS_PER_SECOND as int,
        p.max_velocity as int,
    );
    let dist = vstd::math::abs(p.target - p.position);
    let step = step_of_velocity(vel2);
    let cap_step = step_of_velocity(p.max_velocity as int);

    assert(vr == 10000);
    assert(dist >= 1);
    assert(cap_step >= 1);
    assert(cruise_ticks(p) >= 1) by {
        vstd::arithmetic::div_mod::lemma_div_is_ordered(cap_step, dist + cap_step - 1, cap_step);
        vstd::arithmetic::div_mod::lemma_div_by_self(cap_step);
    }
    assert(ramp_ticks(p) >= 0);

    if step >= dist {
        // Arrival: the budget drops to zero.
        assert(q.position == p.target);
        assert(ticks_to_target(q) == 0);
    } else {
        assert(q.position != q.target);
        // The distance shrinks by `step`, and `step <= cap_step` because the
        // velocity never exceeds the cap.
        let dist2 = vstd::math::abs(q.target - q.position);
        assert(dist2 == dist - step);
        assert(vel2 <= p.max_velocity);
        assert(step <= cap_step);
        if vel2 == p.max_velocity {
            // Cruise: a full cap step disappears from the distance.
            assert(ramp_ticks(q) == 0);
            assert(cruise_ticks(q) == (dist - cap_step + cap_step - 1) / cap_step);
            assert((dist - cap_step + cap_step - 1) / cap_step + 1 == (dist + cap_step - 1)
                / cap_step) by {
                vstd::arithmetic::div_mod::lemma_div_plus_one(dist - 1, cap_step);
                assert(dist - cap_step + cap_step - 1 == dist - 1);
                assert(dist + cap_step - 1 == cap_step + (dist - 1));
            }
            assert(cruise_ticks(q) == cruise_ticks(p) - 1);
            assert(ticks_to_target(q) < ticks_to_target(p));
        } else {
            // Ramp: the velocity gains at least one full ramp quantum.
            assert(accel2 >= accel_ramp_per_tick());
            assert(accel2 / TICKS_PER_SECOND as int >= vr) by {
                assert(accel_ramp_per_tick() / TICKS_PER_SECOND as int == vr);
            }
            assert(vel2 >= p.velocity + vr);
            assert(p.velocity < p.max_velocity);
            assert(ramp_ticks(p) == (p.max_velocity - p.velocity + vr - 1) / vr);
            assert(q.velocity == vel2);
            assert(q.velocity < q.max_velocity);
            assert(ramp_ticks(q) == (p.max_velocity - vel2 + vr - 1) / vr);
            assert(p.max_velocity - vel2 + vr - 1 <= p.max_velocity - p.velocity - 1);
            assert((p.max_velocity - p.velocity - 1) + vr == p.max_velocity - p.velocity + vr
                - 1);
            assert(((p.max_velocity - p.velocity - 1) + vr) / vr == (p.max_velocity - p.velocity
                - 1) / vr + 1);
            assert(ramp_ticks(q) <= ramp_ticks(p) - 1);
            assert(ramp_ticks(q) >= 0);
            assert(dist2 <= dist);
            assert(cruise_ticks(q) <= cruise_ticks(p));
            assert(ticks_to_target(q) < ticks_to_target(p));
        }
    }
}

/// After any `n >= ticks_to_target(p)` ticks the position rests at the
/// target: arrival is absorbing and the tick budget shrinks every tick.
pub proof fn lemma_planner_reaches_target(p: Planner, n: nat)
    requires
        p.wf(),
        n >= ticks_to_target(p),
    ensures
        planner_iterate(p, n).position == p.target,
        planner_iterate(p, n).wf(),
    decreases n,
{
    if n == 0 {
        assert(ticks_to_target(p) <= 0);
        if p.position != p.target {
            let cap_step = step_of_velocity(p.max_velocity as int);
            let dist = vstd::math::abs(p.target - p.position);
            vstd::arithmetic::div_mod::lemma_div_is_ordered(
                cap_step,
                dist + cap_step - 1,
                cap_step,
            );
            vstd::arithmetic::div_mod::lemma_div_by_self(cap_step);
            assert(cruise_ticks(p) >= 1);
            assert(ramp_ticks(p) >= 0) by {
                broadcast use vstd::arithmetic::div_mod::lemma_div_pos_is_pos;

            }
            assert(false);
        }
    } else {
        let q = p.tick_spec().0;
        lemma_tick_preserves_wf(p);
        if p.position == p.target {
            assert(q.position == q.target);
            assert(ticks_to_target(q) == 0);
            lemma_planner_reaches_target(q, (n - 1) as nat);
        } else {
            lemma_tick_progress(p);
            lemma_planner_reaches_target(q, (n - 1) as nat);
        }
        assert(planner_iterate(p, n) == planner_iterate(q, (n - 1) as nat));
    }
}

/// Retract bound: from anywhere inside the envelope, a move to the envelope
/// minimum at the retract velocity completes within 135 ticks (1.35 s), which
/// is the full-travel cruise time plus the ramp-up allowance.
pub proof fn lemma_retract_bounded_time(p: Planner)
    requires
        p.wf(),
        p.max_velocity == RETRACT_VELOCITY_UM_S,
        p.target == MIN_MOVE_UM,
        MIN_MOVE_UM <= p.position <= MAX_MOVE_UM,
    ensures
        planner_iterate(p, 135).position == MIN_MOVE_UM,
        planner_iterate(p, 135).wf(),
{
    broadcast use vstd::arithmetic::div_mod::lemma_div_is_ordered;

    if p.position != p.target {
        assert(cruise_ticks(p) <= 120) by {
            assert(vstd::math::abs(p.target - p.position) <= 180000);
            assert(step_of_velocity(RETRACT_VELOCITY_UM_S as int) == 1500);
            assert((180000 + 1500 - 1) / 1500 == 120);
        }
        assert(ramp_ticks(p) <= 15) by {
            if p.velocity < p.max_velocity {
                assert((RETRACT_VELOCITY_UM_S - p.velocity + velocity_ramp_per_tick() - 1)
                    / velocity_ramp_per_tick() <= (150000 + 10000 - 1) / 10000);
                assert((150000 + 10000 - 1) / 10000 == 15);
            }
        }
        assert(ticks_to_target(p) <= 135);
    }
    lemma_planner_reaches_target(p, 135);
}

} // verus!
