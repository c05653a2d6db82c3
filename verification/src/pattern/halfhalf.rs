//! Alternate between full and half out-strokes.  Velocity selection works as
//! in the teasing pattern: sensation controls the speed ratio of the in and
//! out strokes.

use vstd::prelude::*;

use super::teasingpounding::{spec_teasing_velocities, teasing_velocities};
use super::{PatternInput, PatternMove};

verus! {

#[derive(Clone, Copy, PartialEq, Eq, Structural, Debug)]
pub struct HalfHalf {
    pub out_stroke: bool,
    pub half: bool,
}

impl HalfHalf {
    pub open spec fn spec_reset(self) -> HalfHalf {
        HalfHalf { out_stroke: true, half: false }
    }

    /// Next state and move: every second out stroke only goes to
    /// `depth - motion_length / 2`; the in stroke is always the full one.
    pub open spec fn spec_step(self, input: PatternInput) -> (HalfHalf, PatternMove) {
        let velocities = spec_teasing_velocities(input.velocity as int, input.sensation as int);
        if self.out_stroke {
            let out_stroke_depth = if self.half {
                input.depth - input.motion_length as int / 2
            } else {
                input.depth as int
            };
            (
                HalfHalf { out_stroke: false, half: !self.half },
                PatternMove {
                    velocity: velocities.0 as i64,
                    position: out_stroke_depth as i64,
                    torque: 0,
                    delay_ms: 0,
                },
            )
        } else {
            (
                HalfHalf { out_stroke: true, half: self.half },
                PatternMove {
                    velocity: velocities.1 as i64,
                    position: (input.depth - input.motion_length) as i64,
                    torque: 0,
                    delay_ms: 0,
                },
            )
        }
    }

    pub fn new() -> (r: Self)
        ensures
            r == (HalfHalf { out_stroke: true, half: false }),
    {
        let mut pattern = Self { out_stroke: false, half: false };
        pattern.reset();
        pattern
    }

    pub fn get_name(&self) -> (r: &'static str)
        ensures
            r@ == "Half'n'Half"@,
    {
        "Half'n'Half"
    }

    pub fn get_description(&self) -> (r: &'static str)
        ensures
            r@ == "Alternate between full and half strokes. Sensation controls speed ratio of in and out strokes"@,
    {
        "Alternate between full and half strokes. Sensation controls speed ratio of in and out strokes"
    }

    pub fn reset(&mut self)
        ensures
            *final(self) == old(self).spec_reset(),
    {
        self.out_stroke = true;
        self.half = false;
    }

    pub fn next_move(&mut self, input: &PatternInput) -> (r: PatternMove)
        requires
            input.wf(),
        ensures
            *final(self) == old(self).spec_step(*input).0,
            r == old(self).spec_step(*input).1,
    {
        let (out_stroke_velocity, in_stroke_velocity) = teasing_velocities(
            input.velocity,
            input.sensation,
        );

        let new_move = if self.out_stroke {
            let out_stroke_depth = if self.half {
                input.depth - input.motion_length / 2
            } else {
                input.depth
            };
            self.half = !self.half;
            PatternMove::new(out_stroke_velocity, out_stroke_depth)
        } else {
            let in_stroke_depth = input.depth - input.motion_length;
            PatternMove::new(in_stroke_velocity, in_stroke_depth)
        };
        self.out_stroke = !self.out_stroke;

        new_move
    }
}

} // verus!
