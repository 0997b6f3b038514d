//! Checks of a configuration before use.

use vstd::prelude::*;

use super::limits::LimitPolicy;
use super::motor::MotorConfig;
use super::system::{has_name, SystemConfig};
use super::trajectory::{percent_ok, TrajectoryConfig, WaypointTrajectory, MAX_PERCENT};
use crate::error::{ConfigError, Error, TrajectoryError};

verus! {

/// Outcome of the checks of one motor, in order: a positive gear ratio,
/// velocity and acceleration, and soft limits with `min < max`.
pub open spec fn motor_check(config: MotorConfig) -> Result<(), Error> {
    if config.gear_ratio <= 0 {
        Err(Error::Config(ConfigError::InvalidGearRatio(config.gear_ratio)))
    } else if config.max_velocity.0 <= 0 {
        Err(Error::Config(ConfigError::InvalidMaxVelocity(config.max_velocity.0)))
    } else if config.max_acceleration.0 <= 0 {
        Err(Error::Config(ConfigError::InvalidMaxAcceleration(config.max_acceleration.0)))
    } else if config.limits matches Some(l) && l.min.0 >= l.max.0 {
        let l = config.limits->Some_0;
        Err(Error::Config(ConfigError::InvalidSoftLimits { min: l.min.0, max: l.max.0 }))
    } else {
        Ok(())
    }
}

/// The motor of a configuration named `name`.
pub open spec fn motor_named(config: SystemConfig, name: Seq<char>) -> MotorConfig {
    let i = choose|i: int| 0 <= i < config@.motors.len() && (#[trigger] config@.motors[i]).0@ == name;
    config@.motors[i].1
}

/// Outcome of the checks of trajectory `name`, in order: its motor exists,
/// its percentages lie in 1..=200, and a motor with rejecting soft limits
/// accepts its target.
pub open spec fn trajectory_check(name: String, t: TrajectoryConfig, config: SystemConfig) -> Result<
    (),
    Error,
> {
    if !has_name(config@.motors, t.motor@) {
        Err(Error::Trajectory(TrajectoryError::MotorNotFound { trajectory: name, motor: t.motor }))
    } else if !percent_ok(t.velocity_percent as int) {
        Err(Error::Config(ConfigError::InvalidVelocityPercent(t.velocity_percent)))
    } else if !percent_ok(t.acceleration_percent as int) {
        Err(Error::Config(ConfigError::InvalidAccelerationPercent(t.acceleration_percent)))
    } else if (match motor_named(config, t.motor@).limits {
        Some(l) => !(l.min.0 <= t.target_degrees.0 <= l.max.0) && l.policy == LimitPolicy::Reject,
        None => false,
    }) {
        let l = motor_named(config, t.motor@).limits->Some_0;
        Err(
            Error::Trajectory(
                TrajectoryError::TargetExceedsLimits {
                    target: t.target_degrees.0,
                    min: l.min.0,
                    max: l.max.0,
                },
            ),
        )
    } else {
        Ok(())
    }
}

/// Outcome of the checks of sequence `name`, in order: its motor exists,
/// it has a waypoint, and its velocity percent lies in 1..=200.
pub open spec fn sequence_check(name: String, s: WaypointTrajectory, config: SystemConfig) -> Result<
    (),
    Error,
> {
    if !has_name(config@.motors, s.motor@) {
        Err(Error::Trajectory(TrajectoryError::MotorNotFound { trajectory: name, motor: s.motor }))
    } else if s.waypoints@.len() == 0 {
        Err(Error::Trajectory(TrajectoryError::EmptyWaypoints))
    } else if !percent_ok(s.velocity_percent as int) {
        Err(Error::Config(ConfigError::InvalidVelocityPercent(s.velocity_percent)))
    } else {
        Ok(())
    }
}

/// The first failure among the first `n` motors, if any.
pub open spec fn motors_outcome(config: SystemConfig, n: int) -> Result<(), Error>
    decreases n,
{
    if n <= 0 {
        Ok(())
    } else {
        match motors_outcome(config, n - 1) {
            Err(e) => Err(e),
            Ok(_) => motor_check(config@.motors[n - 1].1),
        }
    }
}

/// The first failure among all motors and the first `n` trajectories.
pub open spec fn trajectories_outcome(config: SystemConfig, n: int) -> Result<(), Error>
    decreases n,
{
    if n <= 0 {
        motors_outcome(config, config@.motors.len() as int)
    } else {
        match trajectories_outcome(config, n - 1) {
            Err(e) => Err(e),
            Ok(_) => trajectory_check(
                config@.trajectories[n - 1].0,
                config@.trajectories[n - 1].1,
                config,
            ),
        }
    }
}

/// The first failure among all motors and trajectories and the first `n`
/// sequences.
pub open spec fn config_outcome(config: SystemConfig, n: int) -> Result<(), Error>
    decreases n,
{
    if n <= 0 {
        trajectories_outcome(config, config@.trajectories.len() as int)
    } else {
        match config_outcome(config, n - 1) {
            Err(e) => Err(e),
            Ok(_) => sequence_check(config@.sequences[n - 1].0, config@.sequences[n - 1].1, config),
        }
    }
}

/// Checks every motor, then every trajectory, then every sequence, and
/// reports the first failure.
pub fn validate_config(config: &SystemConfig) -> (r: Result<(), Error>)
    ensures
        r == config_outcome(*config, config@.sequences.len() as int),
{
    let motors = config.motors();
    let mut i: usize = 0;
    while i < motors.len()
        invariant
            0 <= i <= config@.motors.len(),
            motors@ == config@.motors,
            motors_outcome(*config, i as int) is Ok,
        decreases config@.motors.len() - i,
    {
        let r = validate_motor(motors[i].0.as_str(), &motors[i].1);
        if r.is_err() {
            assert(motors_outcome(*config, i + 1) == r);
            assert(motors_outcome(*config, config@.motors.len() as int) == r) by {
                lemma_motors_outcome_sticks(*config, i + 1, config@.motors.len() as int);
            }
            proof {
                lemma_trajectories_outcome_sticks(*config, 0, config@.trajectories.len() as int);
                lemma_config_outcome_sticks(*config, 0, config@.sequences.len() as int);
            }
            return r;
        }
        i = i + 1;
    }
    let trajectories = config.trajectories();
    let mut j: usize = 0;
    while j < trajectories.len()
        invariant
            0 <= j <= config@.trajectories.len(),
            trajectories@ == config@.trajectories,
            trajectories_outcome(*config, j as int) is Ok,
        decreases config@.trajectories.len() - j,
    {
        let r = validate_trajectory(&trajectories[j].0, &trajectories[j].1, config);
        if r.is_err() {
            assert(trajectories_outcome(*config, j + 1) == r);
            proof {
                lemma_trajectories_outcome_sticks(*config, j + 1, config@.trajectories.len() as int);
                lemma_config_outcome_sticks(*config, 0, config@.sequences.len() as int);
            }
            return r;
        }
        j = j + 1;
    }
    let sequences = config.sequences();
    let mut k: usize = 0;
    while k < sequences.len()
        invariant
            0 <= k <= config@.sequences.len(),
            sequences@ == config@.sequences,
            config_outcome(*config, k as int) is Ok,
        decreases config@.sequences.len() - k,
    {
        let r = validate_sequence(&sequences[k].0, &sequences[k].1, config);
        if r.is_err() {
            assert(config_outcome(*config, k + 1) == r);
            proof {
                lemma_config_outcome_sticks(*config, k + 1, config@.sequences.len() as int);
            }
            return r;
        }
        k = k + 1;
    }
    Ok(())
}

proof fn lemma_motors_outcome_sticks(config: SystemConfig, m: int, n: int)
    requires
        0 <= m <= n,
        motors_outcome(config, m) is Err,
    ensures
        motors_outcome(config, n) == motors_outcome(config, m),
    decreases n - m,
{
    if m < n {
        lemma_motors_outcome_sticks(config, m, n - 1);
    }
}

proof fn lemma_trajectories_outcome_sticks(config: SystemConfig, m: int, n: int)
    requires
        0 <= m <= n,
        trajectories_outcome(config, m) is Err,
    ensures
        trajectories_outcome(config, n) == trajectories_outcome(config, m),
    decreases n - m,
{
    if m < n {
        lemma_trajectories_outcome_sticks(config, m, n - 1);
    }
}

proof fn lemma_config_outcome_sticks(config: SystemConfig, m: int, n: int)
    requires
        0 <= m <= n,
        config_outcome(config, m) is Err,
    ensures
        config_outcome(config, n) == config_outcome(config, m),
    decreases n - m,
{
    if m < n {
        lemma_config_outcome_sticks(config, m, n - 1);
    }
}

/// Checks one motor; see [`motor_check`].
pub fn validate_motor(_name: &str, config: &MotorConfig) -> (r: Result<(), Error>)
    ensures
        r == motor_check(*config),
{
    if config.gear_ratio <= 0 {
        return Err(Error::Config(ConfigError::InvalidGearRatio(config.gear_ratio)));
    }
    if config.max_velocity.0 <= 0 {
        return Err(Error::Config(ConfigError::InvalidMaxVelocity(config.max_velocity.0)));
    }
    if config.max_acceleration.0 <= 0 {
        return Err(Error::Config(ConfigError::InvalidMaxAcceleration(config.max_acceleration.0)));
    }
    match &config.limits {
        Some(limits) => {
            if !limits.is_valid() {
                return Err(
                    Error::Config(
                        ConfigError::InvalidSoftLimits { min: limits.min.0, max: limits.max.0 },
                    ),
                );
            }
        },
        None => {},
    }
    Ok(())
}

/// Checks trajectory `name` against `config`; see [`trajectory_check`].
pub fn validate_trajectory(name: &String, traj: &TrajectoryConfig, config: &SystemConfig) -> (r:
    Result<(), Error>)
    ensures
        r == trajectory_check(*name, *traj, *config),
{
    let motor = match config.motor(traj.motor.as_str()) {
        Some(m) => m,
        None => {
            return Err(
                Error::Trajectory(
                    TrajectoryError::MotorNotFound {
                        trajectory: name.clone(),
                        motor: traj.motor.clone(),
                    },
                ),
            );
        },
    };
    if traj.velocity_percent == 0 || traj.velocity_percent > MAX_PERCENT {
        return Err(Error::Config(ConfigError::InvalidVelocityPercent(traj.velocity_percent)));
    }
    if traj.acceleration_percent == 0 || traj.acceleration_percent > MAX_PERCENT {
        return Err(
            Error::Config(ConfigError::InvalidAccelerationPercent(traj.acceleration_percent)),
        );
    }
    match &motor.limits {
        Some(limits) => {
            if !limits.contains(traj.target_degrees) && limits.policy == LimitPolicy::Reject {
                return Err(
                    Error::Trajectory(
                        TrajectoryError::TargetExceedsLimits {
                            target: traj.target_degrees.0,
                            min: limits.min.0,
                            max: limits.max.0,
                        },
                    ),
                );
            }
        },
        None => {},
    }
    Ok(())
}

/// Checks sequence `name` against `config`; see [`sequence_check`].
pub fn validate_sequence(name: &String, seq: &WaypointTrajectory, config: &SystemConfig) -> (r:
    Result<(), Error>)
    ensures
        r == sequence_check(*name, *seq, *config),
{
    if config.motor(seq.motor.as_str()).is_none() {
        return Err(
            Error::Trajectory(
                TrajectoryError::MotorNotFound { trajectory: name.clone(), motor: seq.motor.clone() },
            ),
        );
    }
    if seq.waypoints.len() == 0 {
        return Err(Error::Trajectory(TrajectoryError::EmptyWaypoints));
    }
    if seq.velocity_percent == 0 || seq.velocity_percent > MAX_PERCENT {
        return Err(Error::Config(ConfigError::InvalidVelocityPercent(seq.velocity_percent)));
    }
    Ok(())
}

} // verus!
