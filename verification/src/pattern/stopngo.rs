//! Full-amplitude alternation with a growing-then-shrinking series length:
//! the machine pauses after the last in stroke of each series, and the pause
//! length follows the sensation.

use vstd::prelude::*;

use crate::config::{MAX_SENSATION, MIN_SENSATION};
use crate::units::spec_scale;

use super::{PatternInput, PatternMove};

verus! {

/// Longest stroke series before the series length counts back down.
pub const MAX_STROKES: u64 = 5;

/// Shortest pause after a series, in ms.
pub const MIN_DELAY_MS: i64 = 100;

/// Longest pause after a series, in ms.
pub const MAX_DELAY_MS: i64 = 10000;

/// The pause after a series for a sensation value: the sensation range
/// mapped onto `[MIN_DELAY_MS, MAX_DELAY_MS]`.
pub open spec fn spec_stopngo_delay(sensation: int) -> int {
    spec_scale(sensation, MIN_SENSATION as int, MAX_SENSATION as int, MIN_DELAY_MS as int,
        MAX_DELAY_MS as int)
}

#[derive(Clone, Copy, PartialEq, Eq, Structural, Debug)]
pub struct StopNGo {
    pub out_stroke: bool,
    pub num_strokes: u64,
    pub current_stroke: u64,
    pub counting_up: bool,
    pub previous_sensation: i64,
}

impl StopNGo {
    /// The series length cycles within `[1, MAX_STROKES]` and the stroke
    /// counter stays within the series.
    pub open spec fn wf(self) -> bool {
        &&& 1 <= self.num_strokes <= MAX_STROKES
        &&& 1 <= self.current_stroke <= self.num_strokes
    }

    /// The state every reset returns to.
    pub open spec fn spec_reset(self) -> StopNGo {
        StopNGo {
            out_stroke: true,
            num_strokes: 1,
            current_stroke: 1,
            counting_up: true,
            previous_sensation: 0,
        }
    }

    /// The freshly reset pattern, as a value.
    pub open spec fn initial() -> StopNGo {
        StopNGo {
            out_stroke: true,
            num_strokes: 1,
            current_stroke: 1,
            counting_up: true,
            previous_sensation: 0,
        }
    }

    /// Next state and move.  A changed sensation restarts the series at
    /// length one.  The out stroke is plain; the in stroke counts the series
    /// and, on its last stroke, carries the pause and moves the series
    /// length one toward the current end of its cycle.
    pub open spec fn spec_step(self, input: PatternInput) -> (StopNGo, PatternMove) {
        let s = if input.sensation != self.previous_sensation {
            StopNGo {
                num_strokes: 1,
                current_stroke: 1,
                previous_sensation: input.sensation,
                ..self
            }
        } else {
            self
        };
        if s.out_stroke {
            (
                StopNGo { out_stroke: false, ..s },
                PatternMove {
                    velocity: input.velocity,
                    position: input.depth,
                    torque: 0,
                    delay_ms: 0,
                },
            )
        } else {
            let in_stroke_depth = input.depth - input.motion_length;
            if s.current_stroke == s.num_strokes {
                let delay = spec_stopngo_delay(input.sensation as int);
                // the series length walks its cycle; at an endpoint the
                // direction turns and the endpoint length repeats once
                let counting_up = if s.counting_up {
                    s.num_strokes != MAX_STROKES
                } else {
                    s.num_strokes == 1
                };
                let num_strokes = if s.counting_up && s.num_strokes != MAX_STROKES {
                    s.num_strokes + 1
                } else if !s.counting_up && s.num_strokes != 1 {
                    s.num_strokes - 1
                } else {
                    s.num_strokes as int
                };
                (
                    StopNGo {
                        out_stroke: true,
                        num_strokes: num_strokes as u64,
                        current_stroke: 1,
                        counting_up,
                        previous_sensation: s.previous_sensation,
                    },
                    PatternMove {
                        velocity: input.velocity,
                        position: in_stroke_depth as i64,
                        torque: 0,
                        delay_ms: delay as u64,
                    },
                )
            } else {
                (
                    StopNGo {
                        out_stroke: true,
                        current_stroke: (s.current_stroke + 1) as u64,
                        ..s
                    },
                    PatternMove {
                        velocity: input.velocity,
                        position: in_stroke_depth as i64,
                        torque: 0,
                        delay_ms: 0,
                    },
                )
            }
        }
    }

    pub fn new() -> (r: Self)
        ensures
            r == StopNGo::initial(),
            r.wf(),
    {
        let mut pattern = Self {
            out_stroke: false,
            num_strokes: 1,
            current_stroke: 1,
            counting_up: false,
            previous_sensation: 0,
        };
        pattern.reset();
        pattern
    }

    pub fn get_name(&self) -> (r: &'static str)
        ensures
            r@ == "Stop'n'Go"@,
    {
        "Stop'n'Go"
    }

    pub fn reset(&mut self)
        ensures
            *final(self) == old(self).spec_reset(),
            *final(self) == StopNGo::initial(),
            final(self).wf(),
    {
        self.out_stroke = true;
        self.num_strokes = 1;
        self.current_stroke = 1;
        self.counting_up = true;
        self.previous_sensation = 0;
    }

    pub fn next_move(&mut self, input: &PatternInput) -> (r: PatternMove)
        requires
            input.wf(),
            old(self).wf(),
        ensures
            *final(self) == old(self).spec_step(*input).0,
            r == old(self).spec_step(*input).1,
            final(self).wf(),
    {
        // Reset the strokes if sensation changes
        if input.sensation != self.previous_sensation {
            self.num_strokes = 1;
            self.current_stroke = 1;
            self.previous_sensation = input.sensation;
        }

        let new_move = if self.out_stroke {
            PatternMove::new(input.velocity, input.depth)
        } else {
            let in_stroke_depth = input.depth - input.motion_length;
            let mut delay_ms: u64 = 0;
            // On the last stroke
            if self.current_stroke == self.num_strokes {
                proof {
                    assert((input.sensation - MIN_SENSATION) * (MAX_DELAY_MS - MIN_DELAY_MS)
                        <= 200 * 9900) by (nonlinear_arith)
                        requires MIN_SENSATION <= input.sensation <= MAX_SENSATION;
                }
                let delay = crate::units::scale(
                    input.sensation,
                    MIN_SENSATION,
                    MAX_SENSATION,
                    MIN_DELAY_MS,
                    MAX_DELAY_MS,
                );
                proof {
                    broadcast use vstd::arithmetic::div_mod::lemma_div_pos_is_pos;

                    vstd::arithmetic::div_mod::lemma_div_is_ordered(
                        (input.sensation - MIN_SENSATION) * (MAX_DELAY_MS - MIN_DELAY_MS),
                        (200 * 9900) as int,
                        200,
                    );
                }
                delay_ms = delay as u64;

                // Walk the series length along its cycle; turning at an
                // endpoint repeats the endpoint length once
                if self.counting_up {
                    if self.num_strokes == MAX_STROKES {
                        self.counting_up = false;
                    } else {
                        self.num_strokes += 1;
                    }
                } else {
                    if self.num_strokes == 1 {
                        self.counting_up = true;
                    } else {
                        self.num_strokes -= 1;
                    }
                }

                self.current_stroke = 1;
            } else {
                self.current_stroke += 1;
            }
            PatternMove::new_with_delay(input.velocity, in_stroke_depth, delay_ms)
        };

        self.out_stroke = !self.out_stroke;

        new_move
    }
}

} // verus!
