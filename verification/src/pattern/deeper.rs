//! Advance the out stroke through equal increments of the motion length,
//! then wrap.  The number of increments follows the sensation; the in stroke
//! always returns to the stroke base.

use vstd::prelude::*;

use crate::config::{MAX_SENSATION, MIN_SENSATION};
use crate::units::spec_scale;

use super::{PatternInput, PatternMove};

verus! {

/// Fewest increments a stroke is divided into.
pub const MIN_STEPS: i64 = 2;

/// Most increments a stroke is divided into.
pub const MAX_STEPS: i64 = 22;

/// A sensation value no remote can produce, so the first move always
/// recomputes the step count.
pub const UNSET_SENSATION: i64 = -420;

/// The step count for a sensation value: the sensation range mapped onto
/// `[MIN_STEPS, MAX_STEPS]`.
pub open spec fn spec_deeper_steps(sensation: int) -> int {
    spec_scale(sensation, MIN_SENSATION as int, MAX_SENSATION as int, MIN_STEPS as int,
        MAX_STEPS as int)
}

#[derive(Clone, Copy, PartialEq, Eq, Structural, Debug)]
pub struct Deeper {
    pub out_stroke: bool,
    pub num_steps: u64,
    pub current_step: u64,
    pub previous_sensation: i64,
}

impl Deeper {
    /// The step count stays in its band and the step cursor never runs more
    /// than one past it.
    pub open spec fn wf(self) -> bool {
        &&& MIN_STEPS <= self.num_steps <= MAX_STEPS
        &&& 1 <= self.current_step <= self.num_steps + 1
    }

    /// The state every reset returns to.
    pub open spec fn spec_reset(self) -> Deeper {
        Deeper {
            out_stroke: true,
            num_steps: spec_deeper_steps(0) as u64,
            current_step: 1,
            previous_sensation: UNSET_SENSATION,
        }
    }

    /// Next state and move.  A changed sensation recomputes the step count
    /// and restarts the ladder; the out stroke climbs one increment per
    /// cycle and wraps after the top one.
    pub open spec fn spec_step(self, input: PatternInput) -> (Deeper, PatternMove) {
        let num_steps = if input.sensation != self.previous_sensation {
            spec_deeper_steps(input.sensation as int)
        } else {
            self.num_steps as int
        };
        let current_step = if input.sensation != self.previous_sensation {
            1
        } else {
            self.current_step as int
        };
        let in_stroke_depth = input.depth - input.motion_length;
        if self.out_stroke {
            let wrapped = if current_step > num_steps {
                1
            } else {
                current_step
            };
            let increment = input.motion_length as int / num_steps;
            let position = in_stroke_depth + increment * wrapped;
            (
                Deeper {
                    out_stroke: false,
                    num_steps: num_steps as u64,
                    current_step: (wrapped + 1) as u64,
                    previous_sensation: input.sensation,
                },
                PatternMove {
                    velocity: input.velocity,
                    position: position as i64,
                    torque: 0,
                    delay_ms: 0,
                },
            )
        } else {
            (
                Deeper {
                    out_stroke: true,
                    num_steps: num_steps as u64,
                    current_step: current_step as u64,
                    previous_sensation: input.sensation,
                },
                PatternMove {
                    velocity: input.velocity,
                    position: in_stroke_depth as i64,
                    torque: 0,
                    delay_ms: 0,
                },
            )
        }
    }

    /// The freshly reset pattern, as a value.
    pub open spec fn initial() -> Deeper {
        Deeper {
            out_stroke: true,
            num_steps: spec_deeper_steps(0) as u64,
            current_step: 1,
            previous_sensation: UNSET_SENSATION,
        }
    }

    pub fn new() -> (r: Self)
        ensures
            r == Deeper::initial(),
            r.wf(),
    {
        let mut pattern = Self {
            out_stroke: false,
            num_steps: MIN_STEPS as u64,
            current_step: 1,
            previous_sensation: 0,
        };
        pattern.reset();
        pattern
    }

    pub fn get_name(&self) -> (r: &'static str)
        ensures
            r@ == "Deeper"@,
    {
        "Deeper"
    }

    /// Compute the step count for a sensation.
    fn steps_for(sensation: i64) -> (r: u64)
        requires
            MIN_SENSATION <= sensation <= MAX_SENSATION,
        ensures
            r == spec_deeper_steps(sensation as int),
            MIN_STEPS <= r <= MAX_STEPS,
    {
        proof {
            assert((sensation - MIN_SENSATION) * (MAX_STEPS - MIN_STEPS) <= 200 * 20)
                by (nonlinear_arith)
                requires MIN_SENSATION <= sensation <= MAX_SENSATION;
        }
        let r = crate::units::scale(sensation, MIN_SENSATION, MAX_SENSATION, MIN_STEPS, MAX_STEPS);
        proof {
            broadcast use vstd::arithmetic::div_mod::lemma_div_pos_is_pos;
            vstd::arithmetic::div_mod::lemma_div_is_ordered(
                (sensation - MIN_SENSATION) * (MAX_STEPS - MIN_STEPS),
                (200 * 20) as int,
                200,
            );
        }
        r as u64
    }

    pub fn reset(&mut self)
        ensures
            *final(self) == old(self).spec_reset(),
            *final(self) == Deeper::initial(),
            final(self).wf(),
    {
        self.out_stroke = true;
        self.num_steps = Self::steps_for(0);
        self.current_step = 1;
        self.previous_sensation = UNSET_SENSATION;
    }

    pub fn next_move(&mut self, input: &PatternInput) -> (r: PatternMove)
        requires
            input.wf(),
            old(self).wf(),
        ensures
            *final(self) == old(self).spec_step(*input).0,
            r == old(self).spec_step(*input).1,
            final(self).wf(),
    {
        if input.sensation != self.previous_sensation {
            self.num_steps = Self::steps_for(input.sensation);
            // Reset every time sensation changes
            self.current_step = 1;
            self.previous_sensation = input.sensation;
        }
        let in_stroke_depth = input.depth - input.motion_length;

        let new_move = if self.out_stroke {
            if self.current_step > self.num_steps {
                self.current_step = 1;
            }
            let increment = input.motion_length / (self.num_steps as i64);
            proof {
                broadcast use vstd::arithmetic::div_mod::lemma_div_pos_is_pos;

                assert(increment * self.num_steps <= input.motion_length) by {
                    vstd::arithmetic::div_mod::lemma_fundamental_div_mod(
                        input.motion_length as int,
                        self.num_steps as int,
                    );
                    vstd::arithmetic::div_mod::lemma_mod_bound(
                        input.motion_length as int,
                        self.num_steps as int,
                    );
                    vstd::arithmetic::mul::lemma_mul_is_commutative(
                        increment as int,
                        self.num_steps as int,
                    );
                }
                assert(increment * self.current_step <= input.motion_length) by (nonlinear_arith)
                    requires
                        0 <= input.motion_length,
                        1 <= self.current_step <= self.num_steps,
                        increment == input.motion_length as int / self.num_steps as int,
                        increment * self.num_steps <= input.motion_length,
                        0 <= increment,
                ;
                assert(0 <= increment * self.current_step) by (nonlinear_arith)
                    requires 0 <= increment, 1 <= self.current_step;
            }
            let out_stroke_depth = in_stroke_depth + increment * (self.current_step as i64);
            self.current_step += 1;
            PatternMove::new(input.velocity, out_stroke_depth)
        } else {
            PatternMove::new(input.velocity, in_stroke_depth)
        };
        self.out_stroke = !self.out_stroke;

        new_move
    }
}

} // verus!
