//! Lifecycle states of a motor, as marker types.

use vstd::prelude::*;

verus! {

/// Ready for commands.
#[derive(Debug, Clone, Copy, Default)]
pub struct Idle;

/// Running a move.
#[derive(Debug, Clone, Copy)]
pub struct Moving;

/// Running a homing sequence.
#[derive(Debug, Clone, Copy)]
pub struct Homing;

/// Stopped by an error; needs recovery.
#[derive(Debug, Clone, Copy)]
pub struct Fault;

/// Implemented by the lifecycle states only.
pub trait Sealed {}

impl Sealed for Idle {}

impl Sealed for Moving {}

impl Sealed for Homing {}

impl Sealed for Fault {}

/// A motor lifecycle state.
pub trait MotorState: Sealed {}

impl MotorState for Idle {}

impl MotorState for Moving {}

impl MotorState for Homing {}

impl MotorState for Fault {}

/// Name of a lifecycle state.
pub trait StateName {
    /// The state's name.
    fn name() -> &'static str;
}

impl StateName for Idle {
    fn name() -> &'static str {
        "Idle"
    }
}

impl StateName for Moving {
    fn name() -> &'static str {
        "Moving"
    }
}

impl StateName for Homing {
    fn name() -> &'static str {
        "Homing"
    }
}

impl StateName for Fault {
    fn name() -> &'static str {
        "Fault"
    }
}

} // verus!
