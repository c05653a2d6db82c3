//! Full-geometry strokes with an asymmetric velocity: both half-strokes
//! default to a fifth of the input velocity; a positive sensation speeds the
//! in stroke back up by a factor that grows with the sensation, a negative
//! one speeds the out stroke.

use vstd::prelude::*;

use crate::config::MAX_SENSATION;

use super::{PatternInput, PatternMove};

verus! {

/// The velocity cut factor: strokes default to `velocity / TEASING_CUT`.
pub const TEASING_CUT: i64 = 5;

/// The velocities of the out and in half-strokes for a sensation value.
/// The boosted side runs at `cut * f` where
/// `f = scale(|sensation|, 0, 100, 1, TEASING_CUT)`, computed as one fused
/// ratio so no precision is lost to intermediate truncation.
pub open spec fn spec_teasing_velocities(velocity: int, sensation: int) -> (int, int) {
    let cut = velocity / TEASING_CUT as int;
    let boost = cut * (100 + (TEASING_CUT - 1) * vstd::math::abs(sensation)) / 100;
    if sensation > 0 {
        (cut, boost)
    } else if sensation < 0 {
        (boost, cut)
    } else {
        (cut, cut)
    }
}

/// Compute the pair `(out_stroke_velocity, in_stroke_velocity)`.
pub fn teasing_velocities(velocity: i64, sensation: i64) -> (r: (i64, i64))
    requires
        0 <= velocity,
        velocity * 100 <= i64::MAX as int,
        -MAX_SENSATION <= sensation <= MAX_SENSATION,
    ensures
        r.0 == spec_teasing_velocities(velocity as int, sensation as int).0,
        r.1 == spec_teasing_velocities(velocity as int, sensation as int).1,
{
    let cut_velocity = velocity / TEASING_CUT;
    let magnitude = if sensation < 0 {
        -sensation
    } else {
        sensation
    };
    proof {
        broadcast use vstd::arithmetic::div_mod::lemma_div_pos_is_pos;

        assert(cut_velocity * TEASING_CUT <= velocity) by {
            vstd::arithmetic::div_mod::lemma_fundamental_div_mod(
                velocity as int,
                TEASING_CUT as int,
            );
            vstd::arithmetic::div_mod::lemma_mod_division_less_than_divisor(
                velocity as int,
                TEASING_CUT as int,
            );
        }
        assert(cut_velocity * (100 + (TEASING_CUT - 1) * magnitude) <= velocity * 100)
            by (nonlinear_arith)
            requires
                0 <= magnitude <= 100,
                0 <= cut_velocity,
                TEASING_CUT == 5,
                cut_velocity * TEASING_CUT <= velocity,
        ;
        assert(0 <= cut_velocity * (100 + (TEASING_CUT - 1) * magnitude)) by (nonlinear_arith)
            requires 0 <= magnitude, 0 <= cut_velocity, TEASING_CUT == 5;
    }
    let boosted = cut_velocity * (100 + (TEASING_CUT - 1) * magnitude) / 100;

    if sensation > 0 {
        // Faster in move
        (cut_velocity, boosted)
    } else if sensation < 0 {
        // Faster out move
        (boosted, cut_velocity)
    } else {
        (cut_velocity, cut_velocity)
    }
}

#[derive(Clone, Copy, PartialEq, Eq, Structural, Debug)]
pub struct TeasingPounding {
    pub out_stroke: bool,
}

impl TeasingPounding {
    pub open spec fn spec_reset(self) -> TeasingPounding {
        TeasingPounding { out_stroke: true }
    }

    pub open spec fn spec_step(self, input: PatternInput) -> (TeasingPounding, PatternMove) {
        let velocities = spec_teasing_velocities(input.velocity as int, input.sensation as int);
        let m = if self.out_stroke {
            PatternMove {
                velocity: velocities.0 as i64,
                position: input.depth,
                torque: 0,
                delay_ms: 0,
            }
        } else {
            PatternMove {
                velocity: velocities.1 as i64,
                position: (input.depth - input.motion_length) as i64,
                torque: 0,
                delay_ms: 0,
            }
        };
        (TeasingPounding { out_stroke: !self.out_stroke }, m)
    }

    pub fn new() -> (r: Self)
        ensures
            r == (TeasingPounding { out_stroke: true }),
    {
        Self { out_stroke: true }
    }

    pub fn get_name(&self) -> (r: &'static str)
        ensures
            r@ == "Teasing Pounding"@,
    {
        "Teasing Pounding"
    }

    pub fn get_description(&self) -> (r: &'static str)
        ensures
            r@ == "Same as the simple pattern. Sensation controls speed ratio of in and out strokes"@,
    {
        "Same as the simple pattern. Sensation controls speed ratio of in and out strokes"
    }

    pub fn reset(&mut self)
        ensures
            *final(self) == old(self).spec_reset(),
    {
        self.out_stroke = true;
    }

    pub fn next_move(&mut self, input: &PatternInput) -> (r: PatternMove)
        requires
            input.wf(),
        ensures
            *final(self) == old(self).spec_step(*input).0,
            r == old(self).spec_step(*input).1,
    {
        let (out_stroke_velocity, in_stroke_velocity) = teasing_velocities(
            input.velocity,
            input.sensation,
        );

        let new_move = if self.out_stroke {
            PatternMove::new(out_stroke_velocity, input.depth)
        } else {
            let in_stroke_depth = input.depth - input.motion_length;
            PatternMove::new(in_stroke_velocity, in_stroke_depth)
        };
        self.out_stroke = !self.out_stroke;

        new_move
    }
}

} // verus!
