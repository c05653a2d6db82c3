//! Full-amplitude alternation at the input velocity where every move
//! carries a torque limit that follows the sensation.

use vstd::prelude::*;

use crate::config::{MAX_SENSATION, MIN_SENSATION};
use crate::units::spec_scale;

use super::{PatternInput, PatternMove};

verus! {

/// The torque for a sensation value: the sensation range mapped onto
/// `[0, 100]` percent.
pub open spec fn spec_torque_pct(sensation: int) -> int {
    spec_scale(sensation, MIN_SENSATION as int, MAX_SENSATION as int, 0, 100)
}

#[derive(Clone, Copy, PartialEq, Eq, Structural, Debug)]
pub struct Torque {
    pub out_stroke: bool,
}

impl Torque {
    pub open spec fn spec_reset(self) -> Torque {
        Torque { out_stroke: true }
    }

    pub open spec fn spec_step(self, input: PatternInput) -> (Torque, PatternMove) {
        let torque = spec_torque_pct(input.sensation as int);
        let position = if self.out_stroke {
            input.depth as int
        } else {
            input.depth - input.motion_length
        };
        (
            Torque { out_stroke: !self.out_stroke },
            PatternMove {
                velocity: input.velocity,
                position: position as i64,
                torque: torque as i64,
                delay_ms: 0,
            },
        )
    }

    pub fn new() -> (r: Self)
        ensures
            r == (Torque { out_stroke: true }),
    {
        let mut pattern = Self { out_stroke: false };
        pattern.reset();
        pattern
    }

    pub fn get_name(&self) -> (r: &'static str)
        ensures
            r@ == "Torque"@,
    {
        "Torque"
    }

    pub fn reset(&mut self)
        ensures
            *final(self) == old(self).spec_reset(),
    {
        self.out_stroke = true;
    }

    pub fn next_move(&mut self, input: &PatternInput) -> (r: PatternMove)
        requires
            input.wf(),
        ensures
            *final(self) == old(self).spec_step(*input).0,
            r == old(self).spec_step(*input).1,
    {
        proof {
            assert((input.sensation - MIN_SENSATION) * (100 - 0) <= i64::MAX as int)
                by (nonlinear_arith)
                requires MIN_SENSATION <= input.sensation <= MAX_SENSATION;
        }
        let torque = crate::units::scale(input.sensation, MIN_SENSATION, MAX_SENSATION, 0, 100);

        let new_move = if self.out_stroke {
            PatternMove::new_with_torque(input.velocity, input.depth, torque)
        } else {
            let in_stroke_depth = input.depth - input.motion_length;
            PatternMove::new_with_torque(input.velocity, in_stroke_depth, torque)
        };
        self.out_stroke = !self.out_stroke;

        new_move
    }
}

} // verus!
