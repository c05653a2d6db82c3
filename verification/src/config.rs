//! Compile-time configuration of the machine: travel envelope, kinematic
//! limits, belt/pulley geometry and protocol buffer capacities.
//!
//! Positions are micrometres (um) from the home position; velocities are
//! micrometres per second; accelerations um/s^2; jerks um/s^3.

use vstd::prelude::*;

verus! {

/// Micrometres in a millimetre (the fixed-point scale of this crate).
pub const UM_PER_MM: i64 = 1000;

// ---- User parameters ----

/// The minimum allowed move forward from the homing position.
pub const MIN_MOVE_UM: i64 = 10 * UM_PER_MM;

/// The maximum allowed move forward from the homing position.
pub const MAX_MOVE_UM: i64 = 190 * UM_PER_MM;

/// The max total travel distance of the machine.
pub const MAX_TRAVEL_UM: i64 = MAX_MOVE_UM - MIN_MOVE_UM;

/// Retract the machine when motion is disabled if true, or just stop it if false.
pub const RETRACT_ON_MOTION_DISABLED: bool = true;

/// The velocity at which the machine retracts when it is turned off
/// or switching to a different pattern, in um/s: a quarter of the
/// motion-control velocity ceiling.
pub const RETRACT_VELOCITY_UM_S: i64 = 150 * UM_PER_MM;

/// Change this if the machine is going the wrong way.
pub const REVERSE_DIRECTION: bool = false;

// ---- Critical parameters ----

/// How often the motion control loop runs, in milliseconds.
pub const MOTION_CONTROL_LOOP_UPDATE_INTERVAL_MS: u64 = 10;

/// Motion-control ticks in one second.
pub const TICKS_PER_SECOND: i64 = 100;

/// Planner velocity floor in um/s; has to be larger than 0 because a zero
/// maximum velocity deadlocks the planner.
pub const MOTION_CONTROL_MIN_VELOCITY_UM_S: i64 = 1;

/// Planner velocity ceiling in um/s (600 mm/s).
pub const MOTION_CONTROL_MAX_VELOCITY_UM_S: i64 = 600 * UM_PER_MM;

/// Planner acceleration ceiling in um/s^2 (30000 mm/s^2).
pub const MOTION_CONTROL_MAX_ACCELERATION_UM_S2: i64 = 30000 * UM_PER_MM;

/// Planner jerk ceiling in um/s^3 (100000 mm/s^3).
pub const MOTION_CONTROL_MAX_JERK_UM_S3: i64 = 100000 * UM_PER_MM;

/// Minimum time between two applied planner velocity changes, in
/// milliseconds.  Jerk-limited planners become unstable under rapid
/// max-velocity churn; this debounces.
pub const VELOCITY_UPDATE_COOLDOWN_MS: u64 = 30;

/// Turn the machine off after no remote heartbeat was received for this long.
pub const MAX_NO_REMOTE_HEARTBEAT_MS: u64 = 8000;

/// Min raw output in torque mode.
pub const MOTOR_MIN_OUTPUT: i64 = 12;

/// Max raw output in torque mode.
pub const MOTOR_MAX_OUTPUT: i64 = 60;

// ---- Belt kinematics ----

/// Encoder resolution: steps in one motor revolution.
pub const MOTOR_STEPS_PER_REVOLUTION: i64 = 32768;

/// Teeth on the drive pulley.
pub const PULLEY_TOOTH_COUNT: i64 = 20;

/// Belt pitch in millimetres.
pub const BELT_PITCH_MM: i64 = 2;

/// Micrometres travelled in one motor revolution.
pub const UM_PER_REVOLUTION: i64 = PULLEY_TOOTH_COUNT * BELT_PITCH_MM * UM_PER_MM;

// ---- Protocol buffer capacities ----

/// Longest accepted remote command, and longest acknowledgement, in bytes.
pub const MAX_COMMAND_LENGTH: usize = 64;

/// Longest serialised motion state, in bytes.
pub const MAX_STATE_LENGTH: usize = 128;

/// Longest serialised pattern list, in bytes.
pub const MAX_PATTERN_LENGTH: usize = 256;

// ---- Sensation range ----

/// Most negative sensation value.
pub const MIN_SENSATION: i64 = -100;

/// Most positive sensation value.
pub const MAX_SENSATION: i64 = 100;

/// Positions handed to the motion-control loop are kept within this many
/// micrometres of home, a machine limit that keeps every step computation
/// far from overflow.
pub const POSITION_RANGE_UM: i64 = 1000 * UM_PER_MM;

} // verus!
