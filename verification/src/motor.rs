//! The narrow capability set the motion-control loop needs from a motor and
//! from a time source, together with do-nothing implementations for bench
//! runs and tests.

use vstd::prelude::*;

verus! {

/// Abstract contract over the physical motor.  Concrete drivers (an RS-485
/// servo, a simulator stub) implement this; the core never references their
/// details, and nothing is assumed of what the hardware does with a command.
pub trait Motor {
    /// Driver-specific error for a failed command.
    type Error;

    /// Lower bound on the time between successive motor commands, in us.
    fn min_consecutive_write_delay_us(&self) -> u64;

    /// Submit an absolute target, in motor steps.
    fn set_absolute_position(&mut self, steps: i32) -> Result<(), Self::Error>;

    /// Submit a torque/current limit in the motor's raw encoding.
    fn set_max_allowed_output(&mut self, output: u16) -> Result<(), Self::Error>;

    /// Blocking wait, provided by the motor so the control loop does not
    /// need a timer of its own to pad the inter-write interval.
    fn delay(&mut self, duration_us: u64);
}

/// Abstract time source with microsecond resolution.  Nothing is assumed of
/// the values it returns; the control loop guards every subtraction.
pub trait Timer {
    fn now_us(&self) -> u64;
}

/// Sink for per-tick planner diagnostics.
pub trait DebugOut {
    fn new_position(&mut self, position_um: i64);

    fn new_velocity(&mut self, velocity_um_s: i64);

    fn new_acceleration(&mut self, acceleration_um_s2: i64);

    fn new_jerk(&mut self, jerk_um_s3: i64);
}

/// A diagnostics sink that drops everything.
pub struct DummyDebugOut {}

impl DummyDebugOut {
    pub fn new() -> (r: Self) {
        Self {  }
    }
}

impl DebugOut for DummyDebugOut {
    fn new_position(&mut self, position_um: i64) {
    }

    fn new_velocity(&mut self, velocity_um_s: i64) {
    }

    fn new_acceleration(&mut self, acceleration_um_s2: i64) {
    }

    fn new_jerk(&mut self, jerk_um_s3: i64) {
    }
}

/// A motor that records every command it is given: the simulator's stand-in
/// for the real drive, and the test bench's window into what the control
/// loop emits.
pub struct DummyMotor {
    /// Every absolute step target received, oldest first.
    pub steps_written: Vec<i32>,
    /// Every raw output (torque) limit received, oldest first.
    pub outputs_written: Vec<u16>,
}

impl DummyMotor {
    pub fn new() -> (r: Self)
        ensures
            r.steps_written@ == Seq::<i32>::empty(),
            r.outputs_written@ == Seq::<u16>::empty(),
    {
        Self { steps_written: Vec::new(), outputs_written: Vec::new() }
    }
}

impl Motor for DummyMotor {
    type Error = ();

    fn min_consecutive_write_delay_us(&self) -> u64 {
        1000
    }

    fn set_absolute_position(&mut self, steps: i32) -> Result<(), ()> {
        self.steps_written.push(steps);
        Ok(())
    }

    fn set_max_allowed_output(&mut self, output: u16) -> Result<(), ()> {
        self.outputs_written.push(output);
        Ok(())
    }

    fn delay(&mut self, duration_us: u64) {
    }
}

} // verus!
