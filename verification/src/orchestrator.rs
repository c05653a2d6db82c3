//! The motion orchestrator: a cooperative loop that polls the shared motion
//! state, drives the pattern engine, sequences moves through the
//! motion-control mailbox, and handles retract and mode transitions.
//!
//! The loop body is a pure state machine here: the caller owns the cadence
//! (one call per tick) and performs the waiting that each returned action
//! asks for.

use vstd::prelude::*;

use crate::config::{
    MIN_MOVE_UM, MOTION_CONTROL_MIN_VELOCITY_UM_S, RETRACT_ON_MOTION_DISABLED,
    RETRACT_VELOCITY_UM_S,
};
use crate::motion_control::{spec_clamp_velocity, spec_torque_raw, ControlSetpoint};
use crate::motion_state::MotionState;
use crate::pattern::{PatternExecutor, PatternInput};
use crate::units::spec_saturate;

verus! {

/// Where the orchestrator stands across calls.
#[derive(Clone, Copy, PartialEq, Eq, Structural, Debug)]
pub enum OrchestratorPhase {
    /// Normal pattern sequencing.
    Normal,
    /// A retract move was submitted; the velocity cap to restore once it
    /// completes rides along.
    Retracting { resume_velocity: i64 },
}

/// What the caller should do after one orchestrator step.
#[derive(Clone, Copy, PartialEq, Eq, Structural, Debug)]
pub enum StepAction {
    /// Motion is disabled and nothing is pending: wait one tick.
    Idle,
    /// A retract move is under way: wait one tick.
    Retracting,
    /// The retract completed and the velocity cap was restored.
    RetractComplete,
    /// The previous move asked for a pause: wait this many ms.
    Sleep { delay_ms: u64 },
    /// A move is still in progress: wait one tick.
    Waiting,
    /// A new pattern move was submitted to the motion-control mailbox.
    Submitted,
}

/// The orchestrator's state between ticks.
pub struct MotionOrchestrator {
    pub pattern_executor: PatternExecutor,
    pub prev_motion_enabled: bool,
    pub prev_pattern: u32,
    /// Pause requested by the previous move, to be slept before the next.
    pub pending_delay_ms: u64,
    /// Velocity cap of the last submitted move; starts at a value no move
    /// can carry, so the first move always writes the cap.
    pub prev_velocity: i64,
    /// Torque of the last submitted move; same first-write sentinel.
    pub prev_torque: i64,
    pub phase: OrchestratorPhase,
}

/// A value outside every reachable move velocity and torque, forcing the
/// first submission to write both.
pub const NEVER_SUBMITTED: i64 = -1;

/// The velocity cap stashed in a retract phase (zero in the normal phase).
pub open spec fn spec_resume_velocity(phase: OrchestratorPhase) -> i64 {
    match phase {
        OrchestratorPhase::Normal => 0,
        OrchestratorPhase::Retracting { resume_velocity } => resume_velocity,
    }
}

impl MotionOrchestrator {
    pub open spec fn wf(self) -> bool {
        self.pattern_executor.wf()
    }

    /// A fresh orchestrator: the pattern catalogue at its first pattern,
    /// no move submitted yet.
    pub fn new() -> (r: Self)
        ensures
            r.wf(),
            r.pattern_executor.current_pattern == 0,
            r.prev_motion_enabled == false,
            r.prev_pattern == 0,
            r.pending_delay_ms == 0,
            r.prev_velocity == NEVER_SUBMITTED,
            r.prev_torque == NEVER_SUBMITTED,
            r.phase == OrchestratorPhase::Normal,
    {
        MotionOrchestrator {
            pattern_executor: PatternExecutor::new(),
            prev_motion_enabled: false,
            prev_pattern: 0,
            pending_delay_ms: 0,
            prev_velocity: NEVER_SUBMITTED,
            prev_torque: NEVER_SUBMITTED,
            phase: OrchestratorPhase::Normal,
        }
    }

    /// Submit the retract move and remember the velocity cap to restore.
    fn start_retract(&mut self, resume_velocity: i64, setpoint: &mut ControlSetpoint)
        requires
            old(self).wf(),
            old(setpoint).wf(),
        ensures
            final(self).wf(),
            final(setpoint).wf(),
            *final(self) == (MotionOrchestrator {
                phase: OrchestratorPhase::Retracting { resume_velocity },
                ..*old(self)
            }),
            *final(setpoint) == (ControlSetpoint {
                max_velocity: RETRACT_VELOCITY_UM_S,
                target_position: MIN_MOVE_UM,
                dirty: true,
                move_in_progress: true,
                ..*old(setpoint)
            }),
    {
        setpoint.set_max_velocity(RETRACT_VELOCITY_UM_S);
        setpoint.set_target_position(MIN_MOVE_UM);
        self.phase = OrchestratorPhase::Retracting { resume_velocity };
    }

    /// One orchestrator tick.
    ///
    /// In the retract phase: wait for the move to finish, then restore the
    /// velocity cap that was current when the retract began.  In the normal
    /// phase: on the enabled-to-disabled edge reset the pattern and retract
    /// to the envelope minimum; on a pattern change select and reset the new
    /// pattern and retract so it starts from the retracted position; when
    /// enabled and idle, sleep the pause the previous move asked for, then
    /// ask the pattern engine for the next move and submit it, writing the
    /// velocity cap and torque only when they changed.
    pub fn step(&mut self, snapshot: &MotionState, setpoint: &mut ControlSetpoint) -> (r:
        StepAction)
        requires
            old(self).wf(),
            old(setpoint).wf(),
            snapshot.wf(),
        ensures
            final(self).wf(),
            final(setpoint).wf(),
            // retract in flight: everything stays put
            (old(self).phase matches OrchestratorPhase::Retracting { .. } && old(setpoint).move_in_progress) ==> {
                &&& r == StepAction::Retracting
                &&& *final(self) == *old(self)
                &&& *final(setpoint) == *old(setpoint)
            },
            // retract completed: restore the stashed velocity cap
            (old(self).phase matches OrchestratorPhase::Retracting { .. } && !old(setpoint).move_in_progress) ==> {
                &&& r == StepAction::RetractComplete
                &&& *final(self) == (MotionOrchestrator {
                    phase: OrchestratorPhase::Normal,
                    ..*old(self)
                })
                &&& *final(setpoint) == (ControlSetpoint {
                    max_velocity: spec_clamp_velocity(
                        spec_resume_velocity(old(self).phase) as int,
                    ) as i64,
                    dirty: true,
                    ..*old(setpoint)
                })
            },
            // enabled-to-disabled edge: reset the pattern and retract
            (old(self).phase == OrchestratorPhase::Normal && !snapshot.motion_enabled && old(self).prev_motion_enabled) ==> {
                &&& r == StepAction::Retracting
                &&& *final(setpoint) == (ControlSetpoint {
                    max_velocity: RETRACT_VELOCITY_UM_S,
                    target_position: MIN_MOVE_UM,
                    dirty: true,
                    move_in_progress: true,
                    ..*old(setpoint)
                })
                &&& *final(self) == (MotionOrchestrator {
                    prev_motion_enabled: false,
                    phase: OrchestratorPhase::Retracting {
                        resume_velocity: snapshot.spec_machine().velocity,
                    },
                    pattern_executor: PatternExecutor {
                        patterns: final(self).pattern_executor.patterns,
                        current_pattern: old(self).pattern_executor.current_pattern,
                    },
                    ..*old(self)
                })
                &&& final(self).pattern_executor.patterns@ == old(self).pattern_executor.patterns@.update(
                    old(self).pattern_executor.current_pattern as int,
                    Some(old(self).pattern_executor.active().spec_reset()),
                )
            },
            // pattern switch: select, reset, retract
            (old(self).phase == OrchestratorPhase::Normal && !(!snapshot.motion_enabled && old(self).prev_motion_enabled) && snapshot.pattern != old(self).prev_pattern) ==> {
                &&& r == StepAction::Retracting
                &&& *final(setpoint) == (ControlSetpoint {
                    max_velocity: RETRACT_VELOCITY_UM_S,
                    target_position: MIN_MOVE_UM,
                    dirty: true,
                    move_in_progress: true,
                    ..*old(setpoint)
                })
                &&& final(self).prev_pattern == snapshot.pattern
                &&& final(self).prev_motion_enabled == snapshot.motion_enabled
                &&& final(self).phase == (OrchestratorPhase::Retracting {
                    resume_velocity: snapshot.spec_machine().velocity,
                })
                &&& final(self).pending_delay_ms == old(self).pending_delay_ms
                &&& final(self).prev_velocity == old(self).prev_velocity
                &&& final(self).prev_torque == old(self).prev_torque
                &&& final(self).pattern_executor.current_pattern == (
                if snapshot.pattern < crate::pattern::NUM_PATTERNS && old(self).pattern_executor.patterns@[snapshot.pattern as int] is Some {
                    snapshot.pattern as usize
                } else {
                    0usize
                })
                &&& final(self).pattern_executor.patterns@ == old(self).pattern_executor.patterns@.update(
                    final(self).pattern_executor.current_pattern as int,
                    Some(
                        old(self).pattern_executor.patterns@[final(self).pattern_executor.current_pattern as int]->Some_0.spec_reset(),
                    ),
                )
            },
            // quiet cases: disabled, waiting on a move, or sleeping a pause
            (old(self).phase == OrchestratorPhase::Normal && !(!snapshot.motion_enabled && old(self).prev_motion_enabled) && snapshot.pattern == old(self).prev_pattern) ==> {
                &&& !snapshot.motion_enabled ==> {
                    &&& r == StepAction::Idle
                    &&& *final(setpoint) == *old(setpoint)
                    &&& *final(self) == (MotionOrchestrator {
                        prev_motion_enabled: false,
                        ..*old(self)
                    })
                }
                &&& (snapshot.motion_enabled && old(setpoint).move_in_progress) ==> {
                    &&& r == StepAction::Waiting
                    &&& *final(setpoint) == *old(setpoint)
                    &&& *final(self) == (MotionOrchestrator {
                        prev_motion_enabled: true,
                        ..*old(self)
                    })
                }
                &&& (snapshot.motion_enabled && !old(setpoint).move_in_progress && old(self).pending_delay_ms > 0) ==> {
                    &&& r == (StepAction::Sleep { delay_ms: old(self).pending_delay_ms })
                    &&& *final(setpoint) == *old(setpoint)
                    &&& *final(self) == (MotionOrchestrator {
                        prev_motion_enabled: true,
                        pending_delay_ms: 0,
                        ..*old(self)
                    })
                }
                // a move is submitted
                &&& (snapshot.motion_enabled && !old(setpoint).move_in_progress && old(self).pending_delay_ms == 0) ==> {
                    let machine = snapshot.spec_machine();
                    let input = PatternInput {
                        depth: machine.depth,
                        motion_length: machine.motion_length,
                        velocity: machine.velocity,
                        sensation: machine.sensation,
                    };
                    let stepped = old(self).pattern_executor.active().spec_step(input);
                    let move_velocity = spec_saturate(
                        stepped.1.velocity as int,
                        0,
                        machine.velocity as int,
                    ) as i64;
                    let move_position = spec_saturate(
                        stepped.1.position as int,
                        0,
                        machine.depth as int,
                    ) as i64;
                    &&& r == StepAction::Submitted
                    &&& final(setpoint).target_position == move_position
                    &&& 0 <= final(setpoint).target_position <= machine.depth
                    &&& final(setpoint).move_in_progress
                    &&& final(setpoint).dirty
                    &&& final(setpoint).max_velocity == (if move_velocity != old(self).prev_velocity {
                        spec_clamp_velocity(move_velocity as int) as i64
                    } else {
                        old(setpoint).max_velocity
                    })
                    &&& final(setpoint).torque == (if stepped.1.torque != old(self).prev_torque {
                        spec_torque_raw(stepped.1.torque as int) as u16
                    } else {
                        old(setpoint).torque
                    })
                    &&& final(self).prev_velocity == move_velocity
                    &&& final(self).prev_torque == stepped.1.torque
                    &&& final(self).pending_delay_ms == stepped.1.delay_ms
                    &&& final(self).prev_pattern == old(self).prev_pattern
                    &&& final(self).prev_motion_enabled == true
                    &&& final(self).phase == OrchestratorPhase::Normal
                    &&& final(self).pattern_executor.current_pattern == old(self).pattern_executor.current_pattern
                    &&& final(self).pattern_executor.patterns@ == old(self).pattern_executor.patterns@.update(
                        old(self).pattern_executor.current_pattern as int,
                        Some(stepped.0),
                    )
                }
            },
    {
        match self.phase {
            OrchestratorPhase::Retracting { resume_velocity } => {
                if setpoint.is_move_in_progress() {
                    return StepAction::Retracting;
                }
                // Restore the velocity that was current when the retract began.
                setpoint.set_max_velocity(resume_velocity);
                self.phase = OrchestratorPhase::Normal;
                return StepAction::RetractComplete;
            },
            OrchestratorPhase::Normal => {},
        }

        let machine = crate::motion_state::machine_motion_state(snapshot);

        // Retract the machine if motion was disabled.
        if !machine.motion_enabled && self.prev_motion_enabled {
            self.prev_motion_enabled = false;
            if RETRACT_ON_MOTION_DISABLED {
                self.pattern_executor.reset();
                self.start_retract(machine.velocity, setpoint);
                return StepAction::Retracting;
            } else {
                // Stop in place instead: sink the velocity cap to its floor.
                setpoint.set_max_velocity(MOTION_CONTROL_MIN_VELOCITY_UM_S);
                return StepAction::Idle;
            }
        }

        if machine.motion_enabled && !self.prev_motion_enabled {
            // Coming back from a stop-in-place, restore the pattern's cap.
            if !RETRACT_ON_MOTION_DISABLED {
                setpoint.set_max_velocity(self.prev_velocity);
            }
        }
        self.prev_motion_enabled = machine.motion_enabled;

        if machine.pattern != self.prev_pattern {
            self.pattern_executor.set_pattern(machine.pattern);
            self.pattern_executor.reset();
            self.prev_pattern = machine.pattern;
            // Always start the pattern from the retracted position.
            self.start_retract(machine.velocity, setpoint);
            return StepAction::Retracting;
        }

        if !machine.motion_enabled {
            return StepAction::Idle;
        }

        if setpoint.is_move_in_progress() {
            return StepAction::Waiting;
        }

        // Apply the delay from the previous move before executing the next one.
        if self.pending_delay_ms > 0 {
            let delay_ms = self.pending_delay_ms;
            self.pending_delay_ms = 0;
            return StepAction::Sleep { delay_ms };
        }

        let input = PatternInput {
            depth: machine.depth,
            motion_length: machine.motion_length,
            velocity: machine.velocity,
            sensation: machine.sensation,
        };

        // A move with all the constraints met.
        let pattern_move = self.pattern_executor.next_move(&input);

        if pattern_move.velocity != self.prev_velocity {
            setpoint.set_max_velocity(pattern_move.velocity);
        }
        if pattern_move.torque != self.prev_torque {
            setpoint.set_torque(pattern_move.torque);
        }
        setpoint.set_target_position(pattern_move.position);

        self.prev_velocity = pattern_move.velocity;
        self.prev_torque = pattern_move.torque;
        self.pending_delay_ms = pattern_move.delay_ms;

        StepAction::Submitted
    }
}

} // verus!
