//! The basic stroke: alternate at full velocity between `depth` and
//! `depth - motion_length`.

use vstd::prelude::*;

use super::{PatternInput, PatternMove};

verus! {

#[derive(Clone, Copy, PartialEq, Eq, Structural, Debug)]
pub struct Simple {
    pub out_stroke: bool,
}

impl Simple {
    pub open spec fn spec_reset(self) -> Simple {
        Simple { out_stroke: true }
    }

    /// Next state and move: the full-depth stroke when going out, the
    /// in-stroke target otherwise, always at the input velocity.
    pub open spec fn spec_step(self, input: PatternInput) -> (Simple, PatternMove) {
        let position = if self.out_stroke {
            input.depth as int
        } else {
            input.depth - input.motion_length
        };
        (
            Simple { out_stroke: !self.out_stroke },
            PatternMove {
                velocity: input.velocity,
                position: position as i64,
                torque: 0,
                delay_ms: 0,
            },
        )
    }

    pub fn new() -> (r: Self)
        ensures
            r == (Simple { out_stroke: true }),
    {
        let mut pattern = Self { out_stroke: false };
        pattern.reset();
        pattern
    }

    pub fn get_name(&self) -> (r: &'static str)
        ensures
            r@ == "Simple Stroke"@,
    {
        "Simple Stroke"
    }

    pub fn reset(&mut self)
        ensures
            *final(self) == old(self).spec_reset(),
    {
        self.out_stroke = true;
    }

    pub fn next_move(&mut self, input: &PatternInput) -> (r: PatternMove)
        requires
            input.wf(),
        ensures
            *final(self) == old(self).spec_step(*input).0,
            r == old(self).spec_step(*input).1,
    {
        let new_move = if self.out_stroke {
            PatternMove::new(input.velocity, input.depth)
        } else {
            let in_stroke_depth = input.depth - input.motion_length;
            PatternMove::new(input.velocity, in_stroke_depth)
        };
        self.out_stroke = !self.out_stroke;

        new_move
    }
}

} // verus!
