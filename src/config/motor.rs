//! Physical description of one motor.

use vstd::prelude::*;

use super::limits::SoftLimits;
use super::units::{div_toward_zero, Degrees, DegreesPerSec, DegreesPerSecSquared, Microsteps};

verus! {

/// A gear ratio of one, in millionths.
pub const GEAR_RATIO_ONE: i64 = 1_000_000;

/// Physical description of a motor.
#[derive(Debug, Clone)]
pub struct MotorConfig {
    /// Human-readable name.
    pub name: String,
    /// Full steps per motor revolution (200 for a 1.8° motor).
    pub steps_per_revolution: u16,
    /// Microstep divisor.
    pub microsteps: Microsteps,
    /// Output:input gear ratio, in millionths (5_000_000 is a 5:1 reduction).
    pub gear_ratio: i64,
    /// Greatest angular velocity.
    pub max_velocity: DegreesPerSec,
    /// Greatest angular acceleration.
    pub max_acceleration: DegreesPerSecSquared,
    /// Whether the DIR pin's levels are swapped.
    pub invert_direction: bool,
    /// Soft limits, if any.
    pub limits: Option<SoftLimits>,
    /// Backlash to take up on a change of direction, if any.
    pub backlash_compensation: Option<Degrees>,
}

/// Gear ratio used when a description gives none: one, in millionths.
pub fn default_gear_ratio() -> (r: i64)
    ensures
        r == GEAR_RATIO_ONE,
{
    GEAR_RATIO_ONE
}

/// Steps per output revolution: `base · divisor · gear ratio`, rounded toward
/// zero and brought into the range of `u32` (a negative ratio gives zero).
pub open spec fn output_steps_per_rev(base: int, divisor: int, gear_millionths: int) -> int {
    let x = div_toward_zero(base * divisor * gear_millionths, GEAR_RATIO_ONE as int);
    if x < 0 {
        0
    } else if x > u32::MAX {
        u32::MAX as int
    } else {
        x
    }
}

impl MotorConfig {
    /// Steps per output revolution; see [`output_steps_per_rev`].
    pub fn total_steps_per_revolution(&self) -> (r: u32)
        ensures
            r == output_steps_per_rev(
                self.steps_per_revolution as int,
                self.microsteps@,
                self.gear_ratio as int,
            ),
    {
        let base = self.steps_per_revolution as i128;
        let divisor = self.microsteps.value() as i128;
        let gear = self.gear_ratio as i128;
        assert(0 <= base * divisor <= 0x1_0000 * 0x1_0000) by (nonlinear_arith)
            requires
                0 <= base <= 0xffff,
                0 <= divisor <= 0xffff,
        ;
        assert(-0x1_0000_0000 * 0x8000_0000_0000_0000 <= base * divisor * gear
            <= 0x1_0000_0000 * 0x8000_0000_0000_0000) by (nonlinear_arith)
            requires
                0 <= base * divisor <= 0x1_0000 * 0x1_0000,
                i64::MIN <= gear <= i64::MAX,
        ;
        let p = base * divisor * gear;
        let x: i128 = if p >= 0 {
            p / (GEAR_RATIO_ONE as i128)
        } else {
            -((-p) / (GEAR_RATIO_ONE as i128))
        };
        if x < 0 {
            0
        } else if x > u32::MAX as i128 {
            u32::MAX
        } else {
            x as u32
        }
    }
}

} // verus!
