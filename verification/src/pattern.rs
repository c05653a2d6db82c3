//! Stateful pattern generators and the executor that dispatches to the
//! active one and enforces the output constraints.
//!
//! Every pattern alternates between two half-strokes: `out` (toward `depth`)
//! and `in` (toward `depth - motion_length`).  The first move after a reset
//! is always the out stroke.

pub mod deeper;
pub mod halfhalf;
pub mod simple;
pub mod stopngo;
pub mod teasingpounding;
pub mod torque;

use vstd::prelude::*;

use crate::config::{
    MAX_SENSATION, MAX_TRAVEL_UM, MIN_SENSATION, MOTION_CONTROL_MAX_VELOCITY_UM_S,
};
use crate::units::{saturate_range, spec_saturate};

use deeper::Deeper;
use halfhalf::HalfHalf;
use simple::Simple;
use stopngo::StopNGo;
use teasingpounding::TeasingPounding;
use torque::Torque;

verus! {

/// Input to a pattern: the machine motion state, in machine units.
#[derive(Clone, Copy, PartialEq, Eq, Structural, Debug)]
pub struct PatternInput {
    /// The maximum depth, in um.
    pub depth: i64,
    /// The maximum length of the motion, in um.
    pub motion_length: i64,
    /// The maximum velocity, in um/s.
    pub velocity: i64,
    /// Sensation from -100 to 100.
    pub sensation: i64,
}

impl PatternInput {
    /// Machine-unit bounds, as the projection of the shared motion state
    /// guarantees them.
    pub open spec fn wf(self) -> bool {
        &&& 0 <= self.depth <= MAX_TRAVEL_UM
        &&& 0 <= self.motion_length <= MAX_TRAVEL_UM
        &&& 0 <= self.velocity <= MOTION_CONTROL_MAX_VELOCITY_UM_S
        &&& MIN_SENSATION <= self.sensation <= MAX_SENSATION
    }
}

/// One half-stroke command: target position, velocity cap, torque, and the
/// pause to apply after the move completes.
#[derive(Clone, Copy, PartialEq, Eq, Structural, Debug)]
pub struct PatternMove {
    /// The maximum velocity for the move, in um/s.
    pub velocity: i64,
    /// The position for the move, in um.
    pub position: i64,
    /// Torque for the move, in percent.
    pub torque: i64,
    /// How much to delay after this move, in ms.
    pub delay_ms: u64,
}

impl PatternMove {
    /// Create a new pattern move.
    pub fn new(velocity: i64, position: i64) -> (r: Self)
        ensures
            r == (PatternMove { velocity, position, torque: 0, delay_ms: 0 }),
    {
        Self { velocity, position, torque: 0, delay_ms: 0 }
    }

    /// Create a new pattern move that delays by this much after it is done.
    pub fn new_with_delay(velocity: i64, position: i64, delay_ms: u64) -> (r: Self)
        ensures
            r == (PatternMove { velocity, position, torque: 0, delay_ms }),
    {
        Self { velocity, position, torque: 0, delay_ms }
    }

    /// Create a new pattern move that carries a torque limit.
    pub fn new_with_torque(velocity: i64, position: i64, torque: i64) -> (r: Self)
        ensures
            r == (PatternMove { velocity, position, torque, delay_ms: 0 }),
    {
        Self { velocity, position, torque, delay_ms: 0 }
    }
}

/// The advertised name of a pattern, as characters.
pub open spec fn spec_pattern_name_chars(p: AvailablePatterns) -> Seq<char> {
    match p {
        AvailablePatterns::Simple(_) => "Simple Stroke"@,
        AvailablePatterns::TeasingPounding(_) => "Teasing Pounding"@,
        AvailablePatterns::HalfHalf(_) => "Half'n'Half"@,
        AvailablePatterns::Deeper(_) => "Deeper"@,
        AvailablePatterns::StopNGo(_) => "Stop'n'Go"@,
        AvailablePatterns::Torque(_) => "Torque"@,
    }
}

/// The explanatory string of a pattern, as characters (empty where the
/// pattern offers none).
pub open spec fn spec_pattern_description_chars(p: AvailablePatterns) -> Seq<char> {
    match p {
        AvailablePatterns::TeasingPounding(_) => "Same as the simple pattern. Sensation controls speed ratio of in and out strokes"@,
        AvailablePatterns::HalfHalf(_) => "Alternate between full and half strokes. Sensation controls speed ratio of in and out strokes"@,
        _ => ""@,
    }
}

/// The closed set of patterns the executor can hold.
#[derive(Clone, Copy, PartialEq, Eq, Structural, Debug)]
pub enum AvailablePatterns {
    Simple(Simple),
    TeasingPounding(TeasingPounding),
    HalfHalf(HalfHalf),
    Deeper(Deeper),
    StopNGo(StopNGo),
    Torque(Torque),
}

impl AvailablePatterns {
    /// Internal invariant of the held pattern.
    pub open spec fn wf(self) -> bool {
        match self {
            AvailablePatterns::Deeper(p) => p.wf(),
            AvailablePatterns::StopNGo(p) => p.wf(),
            _ => true,
        }
    }

    /// The held pattern after a reset.
    pub open spec fn spec_reset(self) -> AvailablePatterns {
        match self {
            AvailablePatterns::Simple(p) => AvailablePatterns::Simple(p.spec_reset()),
            AvailablePatterns::TeasingPounding(p) => AvailablePatterns::TeasingPounding(
                p.spec_reset(),
            ),
            AvailablePatterns::HalfHalf(p) => AvailablePatterns::HalfHalf(p.spec_reset()),
            AvailablePatterns::Deeper(p) => AvailablePatterns::Deeper(p.spec_reset()),
            AvailablePatterns::StopNGo(p) => AvailablePatterns::StopNGo(p.spec_reset()),
            AvailablePatterns::Torque(p) => AvailablePatterns::Torque(p.spec_reset()),
        }
    }

    /// The held pattern's next state and move.
    pub open spec fn spec_step(self, input: PatternInput) -> (AvailablePatterns, PatternMove) {
        match self {
            AvailablePatterns::Simple(p) => {
                let s = p.spec_step(input);
                (AvailablePatterns::Simple(s.0), s.1)
            },
            AvailablePatterns::TeasingPounding(p) => {
                let s = p.spec_step(input);
                (AvailablePatterns::TeasingPounding(s.0), s.1)
            },
            AvailablePatterns::HalfHalf(p) => {
                let s = p.spec_step(input);
                (AvailablePatterns::HalfHalf(s.0), s.1)
            },
            AvailablePatterns::Deeper(p) => {
                let s = p.spec_step(input);
                (AvailablePatterns::Deeper(s.0), s.1)
            },
            AvailablePatterns::StopNGo(p) => {
                let s = p.spec_step(input);
                (AvailablePatterns::StopNGo(s.0), s.1)
            },
            AvailablePatterns::Torque(p) => {
                let s = p.spec_step(input);
                (AvailablePatterns::Torque(s.0), s.1)
            },
        }
    }

    /// Return the held pattern to its initial phase.
    pub fn reset(&mut self)
        ensures
            *final(self) == old(self).spec_reset(),
            final(self).wf(),
    {
        match self {
            AvailablePatterns::Simple(p) => p.reset(),
            AvailablePatterns::TeasingPounding(p) => p.reset(),
            AvailablePatterns::HalfHalf(p) => p.reset(),
            AvailablePatterns::Deeper(p) => p.reset(),
            AvailablePatterns::StopNGo(p) => p.reset(),
            AvailablePatterns::Torque(p) => p.reset(),
        }
    }

    /// Advance the held pattern and produce its next move.
    pub fn next_move(&mut self, input: &PatternInput) -> (r: PatternMove)
        requires
            input.wf(),
            old(self).wf(),
        ensures
            *final(self) == old(self).spec_step(*input).0,
            r == old(self).spec_step(*input).1,
            final(self).wf(),
    {
        match self {
            AvailablePatterns::Simple(p) => p.next_move(input),
            AvailablePatterns::TeasingPounding(p) => p.next_move(input),
            AvailablePatterns::HalfHalf(p) => p.next_move(input),
            AvailablePatterns::Deeper(p) => p.next_move(input),
            AvailablePatterns::StopNGo(p) => p.next_move(input),
            AvailablePatterns::Torque(p) => p.next_move(input),
        }
    }

    /// Stable human-readable identifier of the held pattern.
    pub fn get_name(&self) -> (r: &'static str)
        ensures
            r@ == spec_pattern_name_chars(*self),
    {
        match self {
            AvailablePatterns::Simple(p) => p.get_name(),
            AvailablePatterns::TeasingPounding(p) => p.get_name(),
            AvailablePatterns::HalfHalf(p) => p.get_name(),
            AvailablePatterns::Deeper(p) => p.get_name(),
            AvailablePatterns::StopNGo(p) => p.get_name(),
            AvailablePatterns::Torque(p) => p.get_name(),
        }
    }

    /// Optional explanatory string of the held pattern (empty where the
    /// pattern offers none).
    pub fn get_description(&self) -> (r: &'static str)
        ensures
            r@ == spec_pattern_description_chars(*self),
    {
        match self {
            AvailablePatterns::TeasingPounding(p) => p.get_description(),
            AvailablePatterns::HalfHalf(p) => p.get_description(),
            _ => "",
        }
    }
}

/// Number of slots in the pattern catalogue.  Holes are permitted so that
/// the external pattern indices stay stable across firmware versions.
pub const NUM_PATTERNS: usize = 7;

/// Dispatches to the active pattern and enforces the uniform output
/// constraints: the emitted position is saturated to `[0, depth]` and the
/// emitted velocity cap to `[0, velocity]`, so a pattern cannot violate the
/// user limits even if buggy.
pub struct PatternExecutor {
    pub patterns: Vec<Option<AvailablePatterns>>,
    pub current_pattern: usize,
}

impl PatternExecutor {
    /// The catalogue has its fixed size, the fallback slot and the active
    /// slot are occupied, and every held pattern keeps its own invariant.
    pub open spec fn wf(self) -> bool {
        &&& self.patterns@.len() == NUM_PATTERNS
        &&& self.current_pattern < NUM_PATTERNS
        &&& self.patterns@[0] is Some
        &&& self.patterns@[self.current_pattern as int] is Some
        &&& forall|i: int|
            0 <= i < self.patterns@.len() ==> ((#[trigger] self.patterns@[i]) matches Some(p)
                ==> p.wf())
    }

    /// The active pattern.
    pub open spec fn active(self) -> AvailablePatterns {
        self.patterns@[self.current_pattern as int]->Some_0
    }

    /// Build the catalogue.  The two empty slots keep historical indices
    /// stable; the torque pattern's index is implementation-defined, it sits
    /// in the last slot here.
    pub fn new() -> (r: Self)
        ensures
            r.wf(),
            r.current_pattern == 0,
            r.patterns@.len() == NUM_PATTERNS,
            r.patterns@[0] == Some(AvailablePatterns::Simple(Simple { out_stroke: true })),
            r.patterns@[1] == Some(
                AvailablePatterns::TeasingPounding(TeasingPounding { out_stroke: true }),
            ),
            r.patterns@[2] is None,
            r.patterns@[3] == Some(
                AvailablePatterns::HalfHalf(HalfHalf { out_stroke: true, half: false }),
            ),
            r.patterns@[4] == Some(AvailablePatterns::Deeper(Deeper::initial())),
            r.patterns@[5] == Some(AvailablePatterns::StopNGo(StopNGo::initial())),
            r.patterns@[6] == Some(AvailablePatterns::Torque(Torque { out_stroke: true })),
    {
        let mut patterns: Vec<Option<AvailablePatterns>> = Vec::new();
        patterns.push(Some(AvailablePatterns::Simple(Simple::new())));
        patterns.push(Some(AvailablePatterns::TeasingPounding(TeasingPounding::new())));
        patterns.push(None);
        patterns.push(Some(AvailablePatterns::HalfHalf(HalfHalf::new())));
        patterns.push(Some(AvailablePatterns::Deeper(Deeper::new())));
        patterns.push(Some(AvailablePatterns::StopNGo(StopNGo::new())));
        patterns.push(Some(AvailablePatterns::Torque(Torque::new())));
        Self { patterns, current_pattern: 0 }
    }

    /// Select the pattern at `pattern_index` if that slot exists and is
    /// occupied; otherwise fall back to the first pattern.
    pub fn set_pattern(&mut self, pattern_index: u32)
        requires
            old(self).wf(),
        ensures
            final(self).wf(),
            final(self).patterns == old(self).patterns,
            final(self).current_pattern == (
            if pattern_index < NUM_PATTERNS && old(self).patterns@[pattern_index as int] is Some {
                pattern_index as usize
            } else {
                0usize
            }),
    {
        let mut selected: usize = 0;
        if pattern_index < NUM_PATTERNS as u32 {
            let idx = pattern_index as usize;
            if self.patterns[idx].is_some() {
                selected = idx;
            }
            // an empty slot is an unimplemented pattern: fall back
        }
        // an out-of-range index is unknown: fall back
        self.current_pattern = selected;
    }

    /// Return the active pattern to its initial phase.
    pub fn reset(&mut self)
        requires
            old(self).wf(),
        ensures
            final(self).wf(),
            final(self).current_pattern == old(self).current_pattern,
            final(self).patterns@ == old(self).patterns@.update(
                old(self).current_pattern as int,
                Some(old(self).active().spec_reset()),
            ),
    {
        let cur = self.current_pattern;
        let mut p = self.patterns[cur];
        match &mut p {
            Some(pattern) => pattern.reset(),
            None => {},
        }
        self.patterns.set(cur, p);
    }

    /// Ask the active pattern for its next move, then apply the uniform
    /// output constraints.
    pub fn next_move(&mut self, input: &PatternInput) -> (r: PatternMove)
        requires
            old(self).wf(),
            input.wf(),
        ensures
            final(self).wf(),
            final(self).current_pattern == old(self).current_pattern,
            final(self).patterns@ == old(self).patterns@.update(
                old(self).current_pattern as int,
                Some(old(self).active().spec_step(*input).0),
            ),
            r.position == spec_saturate(
                old(self).active().spec_step(*input).1.position as int,
                0,
                input.depth as int,
            ),
            r.velocity == spec_saturate(
                old(self).active().spec_step(*input).1.velocity as int,
                0,
                input.velocity as int,
            ),
            r.torque == old(self).active().spec_step(*input).1.torque,
            r.delay_ms == old(self).active().spec_step(*input).1.delay_ms,
            0 <= r.position <= input.depth,
            0 <= r.velocity <= input.velocity,
    {
        let cur = self.current_pattern;
        let mut p = self.patterns[cur];
        let mut next_move = match &mut p {
            Some(pattern) => pattern.next_move(input),
            None => PatternMove::new(0, 0),  // unreachable: the active slot is occupied
        };
        self.patterns.set(cur, p);

        // Verify that all constraints have been met and saturate if not.
        next_move.position = saturate_range(next_move.position, 0, input.depth);
        next_move.velocity = saturate_range(next_move.velocity, 0, input.velocity);

        next_move
    }

    /// Name of the active pattern.
    pub fn get_current_pattern_name(&self) -> (r: &'static str)
        requires
            self.wf(),
        ensures
            r@ == spec_pattern_name_chars(self.active()),
    {
        match &self.patterns[self.current_pattern] {
            Some(pattern) => pattern.get_name(),
            None => "",  // unreachable: the active slot is occupied
        }
    }

    /// Explanatory string of the pattern at `idx`: `None` for an empty or
    /// out-of-range slot.
    pub fn get_pattern_description(&self, idx: u32) -> (r: Option<&'static str>)
        requires
            self.wf(),
        ensures
            r is Some <==> idx < NUM_PATTERNS && self.patterns@[idx as int] is Some,
            r matches Some(d) ==> d@ == spec_pattern_description_chars(
                self.patterns@[idx as int]->Some_0,
            ),
    {
        if idx >= NUM_PATTERNS as u32 {
            return None;
        }
        match &self.patterns[idx as usize] {
            Some(pattern) => Some(pattern.get_description()),
            None => None,
        }
    }
}

} // verus!
