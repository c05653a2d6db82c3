//! The shared motion state: the process-wide mailbox of current user intent,
//! in percentage units, with its projection into machine units.

use vstd::prelude::*;

use crate::config::{
    MAX_SENSATION, MAX_TRAVEL_UM, MIN_SENSATION, MOTION_CONTROL_MAX_VELOCITY_UM_S,
    MOTION_CONTROL_MIN_VELOCITY_UM_S, UM_PER_MM,
};
use crate::motion_control::ControlSetpoint;
use crate::units::{saturate_range, scale, spec_saturate, spec_scale};

verus! {

/// Motion state representation in percent.
#[derive(Clone, Copy, PartialEq, Eq, Structural, Debug)]
pub struct MotionState {
    /// Depth in %.
    pub depth: u32,
    /// The length of the motion in %.
    pub motion_length: u32,
    /// Maximum velocity in %.
    pub velocity: u32,
    /// Sensation in % (50 is the neutral midpoint of the signed range).
    pub sensation: u32,
    /// Pattern index.
    pub pattern: u32,
    /// Whether or not to enable the motion.
    pub motion_enabled: bool,
}

/// Motion state representation in machine values, e.g. um instead of %.
#[derive(Clone, Copy, PartialEq, Eq, Structural, Debug)]
pub struct MachineMotionState {
    /// Depth in um.
    pub depth: i64,
    /// The length of the motion in um.
    pub motion_length: i64,
    /// Maximum velocity in um/s.
    pub velocity: i64,
    /// Sensation from -100 to 100.
    pub sensation: i64,
    /// Pattern index.
    pub pattern: u32,
    /// Whether or not to enable the motion.
    pub motion_enabled: bool,
}

/// A depth or motion-length percentage projected to um.
pub open spec fn spec_travel_um_of_pct(pct: int) -> int {
    spec_scale(pct, 0, 100, 0, MAX_TRAVEL_UM as int)
}

/// A velocity percentage projected to um/s.
pub open spec fn spec_velocity_um_s_of_pct(pct: int) -> int {
    spec_scale(
        pct,
        0,
        100,
        MOTION_CONTROL_MIN_VELOCITY_UM_S as int,
        MOTION_CONTROL_MAX_VELOCITY_UM_S as int,
    )
}

/// A sensation percentage projected to the signed range.
pub open spec fn spec_sensation_of_pct(pct: int) -> int {
    spec_scale(pct, 0, 100, MIN_SENSATION as int, MAX_SENSATION as int)
}

/// The percentage a depth given in mm is stored as.
pub open spec fn spec_depth_pct_of_mm(mm: int) -> int {
    spec_scale(
        spec_saturate(mm * UM_PER_MM as int, 0, MAX_TRAVEL_UM as int),
        0,
        MAX_TRAVEL_UM as int,
        0,
        100,
    )
}

/// The percentage a motion length given in mm is stored as.
pub open spec fn spec_length_pct_of_mm(mm: int) -> int {
    spec_saturate(
        spec_scale(mm * UM_PER_MM as int, 0, MAX_TRAVEL_UM as int, 0, 100),
        0,
        100,
    )
}

/// The percentage a velocity given in mm/s is stored as.
pub open spec fn spec_velocity_pct_of_mm_s(mm_s: int) -> int {
    spec_saturate(
        spec_scale(
            vstd::math::max(mm_s * UM_PER_MM as int, MOTION_CONTROL_MIN_VELOCITY_UM_S as int),
            MOTION_CONTROL_MIN_VELOCITY_UM_S as int,
            MOTION_CONTROL_MAX_VELOCITY_UM_S as int,
            0,
            100,
        ),
        0,
        100,
    )
}

/// The percentage a signed sensation is stored as.
pub open spec fn spec_sensation_pct_of_signed(sensation: int) -> int {
    spec_scale(
        spec_saturate(sensation, MIN_SENSATION as int, MAX_SENSATION as int),
        MIN_SENSATION as int,
        MAX_SENSATION as int,
        0,
        100,
    )
}

impl MotionState {
    /// Every percentage is within its range.
    pub open spec fn wf(self) -> bool {
        &&& self.depth <= 100
        &&& self.motion_length <= 100
        &&& self.velocity <= 100
        &&& self.sensation <= 100
    }

    /// The machine-unit projection of this state.
    pub open spec fn spec_machine(self) -> MachineMotionState {
        MachineMotionState {
            depth: spec_travel_um_of_pct(self.depth as int) as i64,
            motion_length: spec_travel_um_of_pct(self.motion_length as int) as i64,
            velocity: spec_velocity_um_s_of_pct(self.velocity as int) as i64,
            sensation: spec_sensation_of_pct(self.sensation as int) as i64,
            pattern: self.pattern,
            motion_enabled: self.motion_enabled,
        }
    }

    /// The power-on state: everything at zero but the sensation, which rests
    /// at the neutral midpoint of its signed range.
    pub fn new() -> (r: Self)
        ensures
            r == (MotionState {
                depth: 0,
                motion_length: 0,
                velocity: 0,
                sensation: 50,
                pattern: 0,
                motion_enabled: false,
            }),
            r.wf(),
    {
        MotionState {
            depth: 0,
            motion_length: 0,
            velocity: 0,
            sensation: 50,
            pattern: 0,
            motion_enabled: false,
        }
    }
}

/// Project a depth or motion-length percentage to um.
pub fn travel_um_of_pct(pct: u32) -> (r: i64)
    requires
        pct <= 100,
    ensures
        r == spec_travel_um_of_pct(pct as int),
        0 <= r <= MAX_TRAVEL_UM,
{
    proof {
        broadcast use vstd::arithmetic::div_mod::lemma_div_pos_is_pos;

        assert((pct as i64) * MAX_TRAVEL_UM <= 100 * MAX_TRAVEL_UM) by (nonlinear_arith)
            requires pct <= 100;
        vstd::arithmetic::div_mod::lemma_div_is_ordered(
            (pct as i64) * MAX_TRAVEL_UM,
            (100 * MAX_TRAVEL_UM) as int,
            100,
        );
    }
    scale(pct as i64, 0, 100, 0, MAX_TRAVEL_UM)
}

/// Project a velocity percentage to um/s.
pub fn velocity_um_s_of_pct(pct: u32) -> (r: i64)
    requires
        pct <= 100,
    ensures
        r == spec_velocity_um_s_of_pct(pct as int),
        MOTION_CONTROL_MIN_VELOCITY_UM_S <= r <= MOTION_CONTROL_MAX_VELOCITY_UM_S,
{
    let span = MOTION_CONTROL_MAX_VELOCITY_UM_S - MOTION_CONTROL_MIN_VELOCITY_UM_S;
    proof {
        broadcast use vstd::arithmetic::div_mod::lemma_div_pos_is_pos;

        assert((pct as i64) * span <= 100 * span) by (nonlinear_arith)
            requires pct <= 100, span > 0;
        vstd::arithmetic::div_mod::lemma_div_is_ordered(
            (pct as i64) * span,
            (100 * span) as int,
            100,
        );
        vstd::arithmetic::div_mod::lemma_div_multiples_vanish(span as int, 100);
    }
    scale(
        pct as i64,
        0,
        100,
        MOTION_CONTROL_MIN_VELOCITY_UM_S,
        MOTION_CONTROL_MAX_VELOCITY_UM_S,
    )
}

/// Project a sensation percentage to the signed range.
pub fn sensation_of_pct(pct: u32) -> (r: i64)
    requires
        pct <= 100,
    ensures
        r == spec_sensation_of_pct(pct as int),
        MIN_SENSATION <= r <= MAX_SENSATION,
{
    proof {
        broadcast use vstd::arithmetic::div_mod::lemma_div_pos_is_pos;

        assert((pct as i64) * 200 <= 20000) by (nonlinear_arith)
            requires pct <= 100;
        vstd::arithmetic::div_mod::lemma_div_is_ordered((pct as i64) * 200, 20000, 100);
    }
    scale(pct as i64, 0, 100, MIN_SENSATION, MAX_SENSATION)
}

/// Project a well-formed percentage snapshot into machine units, with the
/// ranges the projection guarantees.
pub fn machine_motion_state(state: &MotionState) -> (r: MachineMotionState)
    requires
        state.wf(),
    ensures
        r == state.spec_machine(),
        0 <= r.depth <= MAX_TRAVEL_UM,
        0 <= r.motion_length <= MAX_TRAVEL_UM,
        MOTION_CONTROL_MIN_VELOCITY_UM_S <= r.velocity <= MOTION_CONTROL_MAX_VELOCITY_UM_S,
        MIN_SENSATION <= r.sensation <= MAX_SENSATION,
        r.pattern == state.pattern,
        r.motion_enabled == state.motion_enabled,
{
    MachineMotionState {
        depth: travel_um_of_pct(state.depth),
        motion_length: travel_um_of_pct(state.motion_length),
        velocity: velocity_um_s_of_pct(state.velocity),
        sensation: sensation_of_pct(state.sensation),
        pattern: state.pattern,
        motion_enabled: state.motion_enabled,
    }
}

impl From<MotionState> for MachineMotionState {
    /// Project a percentage snapshot into machine units.
    fn from(value: MotionState) -> (r: Self) {
        let depth = travel_um_of_pct(if value.depth > 100 {
            100
        } else {
            value.depth
        });
        let motion_length = travel_um_of_pct(if value.motion_length > 100 {
            100
        } else {
            value.motion_length
        });
        let velocity = velocity_um_s_of_pct(if value.velocity > 100 {
            100
        } else {
            value.velocity
        });
        let sensation = sensation_of_pct(if value.sensation > 100 {
            100
        } else {
            value.sensation
        });
        MachineMotionState {
            depth,
            motion_length,
            velocity,
            sensation,
            pattern: value.pattern,
            motion_enabled: value.motion_enabled,
        }
    }
}

impl vstd::std_specs::convert::FromSpecImpl<MotionState> for MachineMotionState {
    open spec fn obeys_from_spec() -> bool {
        true
    }

    open spec fn from_spec(t: MotionState) -> MachineMotionState {
        MotionState {
            depth: if t.depth > 100 {
                100
            } else {
                t.depth
            },
            motion_length: if t.motion_length > 100 {
                100
            } else {
                t.motion_length
            },
            velocity: if t.velocity > 100 {
                100
            } else {
                t.velocity
            },
            sensation: if t.sensation > 100 {
                100
            } else {
                t.sensation
            },
            pattern: t.pattern,
            motion_enabled: t.motion_enabled,
        }.spec_machine()
    }
}

/// Set the motion depth in %.
pub fn set_motion_depth_pct(state: &mut MotionState, depth: u32)
    ensures
        final(state).depth == spec_saturate(depth as int, 0, 100),
        *final(state) == (MotionState { depth: final(state).depth, ..*old(state) }),
{
    let mut depth = depth;
    if depth > 100 {
        depth = 100;
    }
    state.depth = depth;
}

/// Set the motion length in %.
pub fn set_motion_length_pct(state: &mut MotionState, length: u32)
    ensures
        final(state).motion_length == spec_saturate(length as int, 0, 100),
        *final(state) == (MotionState {
            motion_length: final(state).motion_length,
            ..*old(state)
        }),
{
    let mut length = length;
    if length > 100 {
        length = 100;
    }
    state.motion_length = length;
}

/// Set the motion velocity in %.  Besides storing the clamped percentage,
/// this re-scales the motion-control velocity cap by the ratio between the
/// machine velocities implied by the old and the new percentage, so that an
/// in-flight pattern move keeps the velocity cut its pattern chose rather
/// than being clobbered to the raw new percentage.
pub fn set_motion_velocity_pct(state: &mut MotionState, setpoint: &mut ControlSetpoint, velocity: u32)
    requires
        old(state).wf(),
        old(setpoint).wf(),
    ensures
        final(state).wf(),
        final(setpoint).wf(),
        final(state).velocity == spec_saturate(velocity as int, 0, 100),
        *final(state) == (MotionState { velocity: final(state).velocity, ..*old(state) }),
        final(setpoint).max_velocity == crate::motion_control::spec_clamp_velocity(
            spec_velocity_um_s_of_pct(spec_saturate(velocity as int, 0, 100)) * old(
                setpoint,
            ).max_velocity / spec_velocity_um_s_of_pct(old(state).velocity as int),
        ),
        final(setpoint).dirty,
        final(setpoint).target_position == old(setpoint).target_position,
        final(setpoint).move_in_progress == old(setpoint).move_in_progress,
{
    let mut velocity = velocity;
    if velocity > 100 {
        velocity = 100;
    }

    let current_motion_velocity = velocity_um_s_of_pct(state.velocity);
    let new_motion_velocity = velocity_um_s_of_pct(velocity);

    // Update the motion-control cap immediately, without waiting for the
    // pattern to send the next move.
    setpoint.set_max_velocity_scaled(current_motion_velocity, new_motion_velocity);

    state.velocity = velocity;
}

/// Set the motion sensation in %.
pub fn set_motion_sensation_pct(state: &mut MotionState, sensation: u32)
    ensures
        final(state).sensation == spec_saturate(sensation as int, 0, 100),
        *final(state) == (MotionState { sensation: final(state).sensation, ..*old(state) }),
{
    let mut sensation = sensation;
    if sensation > 100 {
        sensation = 100;
    }
    state.sensation = sensation;
}

/// Set the pattern index.  It is validated when it is read.
pub fn set_motion_pattern(state: &mut MotionState, index: u32)
    ensures
        *final(state) == (MotionState { pattern: index, ..*old(state) }),
        old(state).wf() ==> final(state).wf(),
{
    state.pattern = index;
}

/// Set whether the motion is enabled.
pub fn set_motion_enabled(state: &mut MotionState, enabled: bool)
    ensures
        *final(state) == (MotionState { motion_enabled: enabled, ..*old(state) }),
        old(state).wf() ==> final(state).wf(),
{
    state.motion_enabled = enabled;
}

/// Snapshot the motion state.
pub fn get_motion_state(state: &MotionState) -> (r: MotionState)
    ensures
        r == *state,
{
    *state
}

/// Set the motion depth in mm.
pub fn set_motion_depth_mm(state: &mut MotionState, depth_mm: u32)
    ensures
        final(state).depth == spec_depth_pct_of_mm(depth_mm as int),
        final(state).depth <= 100,
        old(state).wf() ==> final(state).wf(),
        *final(state) == (MotionState { depth: final(state).depth, ..*old(state) }),
{
    let depth_um = saturate_range((depth_mm as i64) * UM_PER_MM, 0, MAX_TRAVEL_UM);
    proof {
        broadcast use vstd::arithmetic::div_mod::lemma_div_pos_is_pos;

        assert(depth_um * 100 <= MAX_TRAVEL_UM * 100) by (nonlinear_arith)
            requires depth_um <= MAX_TRAVEL_UM;
        vstd::arithmetic::div_mod::lemma_div_is_ordered(
            depth_um * 100,
            (MAX_TRAVEL_UM * 100) as int,
            MAX_TRAVEL_UM as int,
        );
        vstd::arithmetic::div_mod::lemma_div_multiples_vanish(100, MAX_TRAVEL_UM as int);
    }
    let depth_pct = scale(depth_um, 0, MAX_TRAVEL_UM, 0, 100) as u32;

    set_motion_depth_pct(state, depth_pct);
}

/// Set the motion length in mm.
pub fn set_motion_length_mm(state: &mut MotionState, length_mm: u32)
    ensures
        final(state).motion_length == spec_length_pct_of_mm(length_mm as int),
        final(state).motion_length <= 100,
        old(state).wf() ==> final(state).wf(),
        *final(state) == (MotionState {
            motion_length: final(state).motion_length,
            ..*old(state)
        }),
{
    let length_um = (length_mm as i64) * UM_PER_MM;
    proof {
        broadcast use vstd::arithmetic::div_mod::lemma_div_pos_is_pos;

        assert(length_um * 100 <= (u32::MAX as int) * (UM_PER_MM as int) * 100)
            by (nonlinear_arith)
            requires 0 <= length_um <= (u32::MAX as int) * (UM_PER_MM as int);
        vstd::arithmetic::div_mod::lemma_div_is_ordered(
            length_um * 100,
            (u32::MAX as int) * (UM_PER_MM as int) * 100,
            MAX_TRAVEL_UM as int,
        );
    }
    let length_pct_wide = scale(length_um, 0, MAX_TRAVEL_UM, 0, 100);
    let length_pct = if length_pct_wide > u32::MAX as i64 {
        u32::MAX
    } else {
        length_pct_wide as u32
    };

    set_motion_length_pct(state, length_pct);
}

/// Set the motion velocity in mm/s.
pub fn set_motion_velocity_mm_s(
    state: &mut MotionState,
    setpoint: &mut ControlSetpoint,
    velocity_mm_s: u32,
)
    requires
        old(state).wf(),
        old(setpoint).wf(),
    ensures
        final(state).wf(),
        final(setpoint).wf(),
        final(state).velocity == spec_velocity_pct_of_mm_s(velocity_mm_s as int),
{
    let velocity_um = (velocity_mm_s as i64) * UM_PER_MM;
    // A velocity below the planner floor maps to the zero percentage offset.
    let base = if velocity_um < MOTION_CONTROL_MIN_VELOCITY_UM_S {
        MOTION_CONTROL_MIN_VELOCITY_UM_S
    } else {
        velocity_um
    };
    let span = MOTION_CONTROL_MAX_VELOCITY_UM_S - MOTION_CONTROL_MIN_VELOCITY_UM_S;
    proof {
        broadcast use vstd::arithmetic::div_mod::lemma_div_pos_is_pos;

        assert((base - MOTION_CONTROL_MIN_VELOCITY_UM_S) * 100 <= (u32::MAX as int) * (
        UM_PER_MM as int) * 100) by (nonlinear_arith)
            requires
                0 <= base - MOTION_CONTROL_MIN_VELOCITY_UM_S <= (u32::MAX as int) * (
                UM_PER_MM as int),
        ;
        vstd::arithmetic::div_mod::lemma_div_is_ordered(
            (base - MOTION_CONTROL_MIN_VELOCITY_UM_S) * 100,
            (u32::MAX as int) * (UM_PER_MM as int) * 100,
            span as int,
        );
    }
    let velocity_pct_wide = scale(
        base,
        MOTION_CONTROL_MIN_VELOCITY_UM_S,
        MOTION_CONTROL_MAX_VELOCITY_UM_S,
        0,
        100,
    );
    let velocity_pct = if velocity_pct_wide > u32::MAX as i64 {
        u32::MAX
    } else {
        velocity_pct_wide as u32
    };

    set_motion_velocity_pct(state, setpoint, velocity_pct);
}

/// Set the motion sensation in a range from -100 to 100.
pub fn set_motion_sensation_neg_pos_100(state: &mut MotionState, sensation: i32)
    ensures
        final(state).sensation == spec_sensation_pct_of_signed(sensation as int),
        final(state).sensation <= 100,
        old(state).wf() ==> final(state).wf(),
        *final(state) == (MotionState { sensation: final(state).sensation, ..*old(state) }),
{
    let clamped = saturate_range(sensation as i64, MIN_SENSATION, MAX_SENSATION);
    proof {
        broadcast use vstd::arithmetic::div_mod::lemma_div_pos_is_pos;

        assert((clamped - MIN_SENSATION) * 100 <= 20000) by (nonlinear_arith)
            requires clamped - MIN_SENSATION <= 200;
        vstd::arithmetic::div_mod::lemma_div_is_ordered(
            (clamped - MIN_SENSATION) * 100,
            20000,
            200,
        );
    }
    let sensation_pct = scale(clamped, MIN_SENSATION, MAX_SENSATION, 0, 100) as u32;

    set_motion_sensation_pct(state, sensation_pct);
}

} // verus!
