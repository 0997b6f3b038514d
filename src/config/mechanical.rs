//! Mechanical constraints derived from a motor's description.

use vstd::prelude::*;

use super::limits::{SoftLimits, StepLimits};
use super::motor::{output_steps_per_rev, MotorConfig};
use super::units::{
    angle_of_steps, clamp_to_u32, rate_to_steps, step_rate_of, steps_of_angle, Degrees, DegreesPerSec,
    DegreesPerSecSquared, Steps,
};
use crate::motion::profile::NANOS_PER_SEC_SCALED;

verus! {

/// Pulse interval at `velocity` thousandths of a step per second, in
/// nanoseconds: `1e9 / v`, which is `1e12 / V`, saturated to `u32`, or
/// `u32::MAX` at rest.
pub open spec fn interval_at_velocity(velocity: int) -> int {
    if velocity > 0 {
        clamp_to_u32(NANOS_PER_SEC_SCALED as int / velocity)
    } else {
        u32::MAX as int
    }
}

/// Nanoseconds in a second times microdegrees in a turn.
pub const NANO_MICRODEGREE_TURN: u128 = 360_000_000_000_000_000;

/// Least pulse interval, in nanoseconds, of an angular velocity in
/// microdegrees per second at `steps_per_rev` steps per turn: `1e9` over the
/// exact step rate `velocity · steps_per_rev / 360°`, rounded down and
/// saturated to `u32`; `u32::MAX` when that rate is not positive.
pub open spec fn min_interval_of(velocity: int, steps_per_rev: int) -> int {
    if velocity * steps_per_rev <= 0 {
        u32::MAX as int
    } else {
        clamp_to_u32(NANO_MICRODEGREE_TURN as int / (velocity * steps_per_rev))
    }
}

/// See [`min_interval_of`].
fn min_interval(velocity: i64, steps_per_rev: u32) -> (r: u32)
    ensures
        r == min_interval_of(velocity as int, steps_per_rev as int),
{
    if velocity <= 0 || steps_per_rev == 0 {
        assert(velocity * steps_per_rev <= 0) by (nonlinear_arith)
            requires
                velocity <= 0 || steps_per_rev == 0,
                steps_per_rev >= 0,
        ;
        return u32::MAX;
    }
    assert(0 < velocity * steps_per_rev <= 0x8000_0000_0000_0000 * 0x1_0000_0000) by (nonlinear_arith)
        requires
            0 < velocity <= i64::MAX,
            0 < steps_per_rev <= u32::MAX,
    ;
    let p = (velocity as u128) * (steps_per_rev as u128);
    let q = NANO_MICRODEGREE_TURN / p;
    if q > u32::MAX as u128 {
        u32::MAX
    } else {
        q as u32
    }
}

/// Parameters computed once from a motor's description and used for all
/// motion planning.
#[derive(Debug, Clone)]
pub struct MechanicalConstraints {
    /// Steps per output revolution.
    pub steps_per_revolution: u32,
    /// Greatest velocity, in thousandths of a step per second.
    pub max_velocity_steps_per_sec: u32,
    /// Greatest acceleration, in thousandths of a step per second squared.
    pub max_acceleration_steps_per_sec2: u32,
    /// Least pulse interval (at greatest velocity), in nanoseconds.
    pub min_step_interval_ns: u32,
    /// Soft limits in steps, if any.
    pub limits: Option<StepLimits>,
    /// Greatest angular velocity.
    pub max_velocity: DegreesPerSec,
    /// Greatest angular acceleration.
    pub max_acceleration: DegreesPerSecSquared,
}

impl MechanicalConstraints {
    /// Whether these are the constraints of a motor with `base` full steps
    /// per revolution, microstep divisor `divisor`, gear ratio `gear` (in
    /// millionths), greatest velocity and acceleration `velocity` and
    /// `acceleration`, and soft limits `limits`.
    pub open spec fn derived_from_parts(
        self,
        base: u16,
        divisor: int,
        gear: i64,
        velocity: DegreesPerSec,
        acceleration: DegreesPerSecSquared,
        limits: Option<SoftLimits>,
    ) -> bool {
        let spr = output_steps_per_rev(base as int, divisor, gear as int);
        &&& self.steps_per_revolution == spr
        &&& self.max_velocity_steps_per_sec == step_rate_of(velocity.0 as int, spr)
        &&& self.max_acceleration_steps_per_sec2 == step_rate_of(acceleration.0 as int, spr)
        &&& self.min_step_interval_ns == min_interval_of(velocity.0 as int, spr)
        &&& match limits {
            None => self.limits is None,
            Some(l) => self.limits == Some(
                StepLimits {
                    min_steps: steps_of_angle(l.min.0 as int, spr) as i64,
                    max_steps: steps_of_angle(l.max.0 as int, spr) as i64,
                    policy: l.policy,
                },
            ),
        }
        &&& self.max_velocity == velocity
        &&& self.max_acceleration == acceleration
    }

    /// Whether these are the constraints of `config`.
    pub open spec fn derived_from(self, config: MotorConfig) -> bool {
        self.derived_from_parts(
            config.steps_per_revolution,
            config.microsteps@,
            config.gear_ratio,
            config.max_velocity,
            config.max_acceleration,
            config.limits,
        )
    }

    /// The constraints of a motor's description.
    pub fn from_config(config: &MotorConfig) -> (r: Self)
        ensures
            r.derived_from(*config),
    {
        let steps_per_revolution = config.total_steps_per_revolution();
        let max_velocity_steps_per_sec = rate_to_steps(config.max_velocity.0, steps_per_revolution);
        let max_acceleration_steps_per_sec2 = rate_to_steps(
            config.max_acceleration.0,
            steps_per_revolution,
        );
        let min_step_interval_ns = min_interval(config.max_velocity.0, steps_per_revolution);
        let limits = match &config.limits {
            Some(l) => Some(StepLimits::from_soft_limits(l, steps_per_revolution)),
            None => None,
        };
        MechanicalConstraints {
            steps_per_revolution,
            max_velocity_steps_per_sec,
            max_acceleration_steps_per_sec2,
            min_step_interval_ns,
            limits,
            max_velocity: config.max_velocity,
            max_acceleration: config.max_acceleration,
        }
    }

    /// Step count of an angle.
    pub fn degrees_to_steps(&self, degrees: Degrees) -> (r: i64)
        ensures
            r == steps_of_angle(degrees.0 as int, self.steps_per_revolution as int),
    {
        Steps::from_degrees(degrees, self.steps_per_revolution).0
    }

    /// Angle of a step count.
    pub fn steps_to_degrees(&self, steps: i64) -> (r: Degrees)
        ensures
            r.0 == angle_of_steps(steps as int, self.steps_per_revolution as int),
    {
        Steps(steps).to_degrees(self.steps_per_revolution)
    }

    /// Angular velocity in thousandths of a step per second.
    pub fn velocity_to_steps(&self, velocity: DegreesPerSec) -> (r: u32)
        ensures
            r == step_rate_of(velocity.0 as int, self.steps_per_revolution as int),
    {
        rate_to_steps(velocity.0, self.steps_per_revolution)
    }

    /// Angular acceleration in thousandths of a step per second squared.
    pub fn acceleration_to_steps(&self, acceleration: DegreesPerSecSquared) -> (r: u32)
        ensures
            r == step_rate_of(acceleration.0 as int, self.steps_per_revolution as int),
    {
        rate_to_steps(acceleration.0, self.steps_per_revolution)
    }

    /// Pulse interval at `velocity` thousandths of a step per second.
    pub fn velocity_to_interval_ns(&self, velocity: u32) -> (r: u32)
        ensures
            r == interval_at_velocity(velocity as int),
    {
        if velocity > 0 {
            let q = NANOS_PER_SEC_SCALED / velocity as u64;
            if q > u32::MAX as u64 {
                u32::MAX
            } else {
                q as u32
            }
        } else {
            u32::MAX
        }
    }

    /// Where the soft limits send a target; any target when there are none.
    pub fn check_limits(&self, steps: i64) -> (r: Option<i64>)
        ensures
            match self.limits {
                None => r == Some(steps),
                Some(l) => (r is None <==> l.spec_apply(steps as int) is None) && (r matches Some(
                    s,
                ) ==> l.spec_apply(steps as int) == Some(s as int)),
            },
    {
        match &self.limits {
            Some(limits) => limits.apply(steps),
            None => Some(steps),
        }
    }
}

} // verus!
