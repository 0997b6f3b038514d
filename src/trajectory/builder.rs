//! Assembling trajectories and waypoint sequences in code.

use vstd::prelude::*;

use crate::config::trajectory::{
    TrajectoryConfig, WaypointList, WaypointTrajectory, DEFAULT_ACCELERATION_PERCENT,
    DEFAULT_VELOCITY_PERCENT, MAX_PERCENT, MAX_WAYPOINTS,
};
use crate::config::units::{Degrees, DegreesPerSecSquared};
use crate::error::{Error, TrajectoryError};

verus! {

/// Longest motor name a trajectory keeps, in bytes.
pub const MAX_MOTOR_NAME_BYTES: usize = 32;

/// `percent` brought into 1..=200.
pub open spec fn clamp_percent(percent: u8) -> u8 {
    if percent < 1 {
        1
    } else if percent > MAX_PERCENT {
        MAX_PERCENT
    } else {
        percent
    }
}

fn clamped_percent(percent: u8) -> (r: u8)
    ensures
        r == clamp_percent(percent),
{
    if percent < 1 {
        1
    } else if percent > MAX_PERCENT {
        MAX_PERCENT
    } else {
        percent
    }
}

/// Collects a single-target trajectory.
#[derive(Debug, Clone)]
pub struct TrajectoryBuilder {
    /// Motor name.
    pub motor: Option<String>,
    /// Target angle.
    pub target_degrees: Option<Degrees>,
    /// Velocity percent, in 1..=200.
    pub velocity_percent: u8,
    /// Acceleration percent, in 1..=200.
    pub acceleration_percent: u8,
    /// Absolute acceleration.
    pub acceleration: Option<DegreesPerSecSquared>,
    /// Absolute deceleration.
    pub deceleration: Option<DegreesPerSecSquared>,
    /// Dwell at the target, in milliseconds.
    pub dwell_ms: Option<u32>,
}

impl TrajectoryBuilder {
    /// A builder with full velocity and acceleration and nothing else set.
    pub fn new() -> (r: Self)
        ensures
            r.motor is None,
            r.target_degrees is None,
            r.velocity_percent == DEFAULT_VELOCITY_PERCENT,
            r.acceleration_percent == DEFAULT_ACCELERATION_PERCENT,
            r.acceleration is None,
            r.deceleration is None,
            r.dwell_ms is None,
    {
        TrajectoryBuilder {
            motor: None,
            target_degrees: None,
            velocity_percent: DEFAULT_VELOCITY_PERCENT,
            acceleration_percent: DEFAULT_ACCELERATION_PERCENT,
            acceleration: None,
            deceleration: None,
            dwell_ms: None,
        }
    }

    /// Sets the motor name; a name longer than 32 bytes clears it.
    pub fn motor(self, name: &str) -> (r: Self)
        ensures
            name.len() <= MAX_MOTOR_NAME_BYTES ==> (r.motor matches Some(n) && n@ == name@),
            name.len() > MAX_MOTOR_NAME_BYTES ==> r.motor is None,
            r == (TrajectoryBuilder { motor: r.motor, ..self }),
    {
        let motor = if name.len() <= MAX_MOTOR_NAME_BYTES {
            Some(name.to_owned())
        } else {
            None
        };
        TrajectoryBuilder { motor, ..self }
    }

    /// Sets the target angle.
    pub fn target(self, position: Degrees) -> (r: Self)
        ensures
            r == (TrajectoryBuilder { target_degrees: Some(position), ..self }),
    {
        TrajectoryBuilder { target_degrees: Some(position), ..self }
    }

    /// Sets the velocity percent, brought into 1..=200.
    pub fn velocity_percent(self, percent: u8) -> (r: Self)
        ensures
            r == (TrajectoryBuilder { velocity_percent: clamp_percent(percent), ..self }),
    {
        TrajectoryBuilder { velocity_percent: clamped_percent(percent), ..self }
    }

    /// Sets the acceleration percent, brought into 1..=200.
    pub fn acceleration_percent(self, percent: u8) -> (r: Self)
        ensures
            r == (TrajectoryBuilder { acceleration_percent: clamp_percent(percent), ..self }),
    {
        TrajectoryBuilder { acceleration_percent: clamped_percent(percent), ..self }
    }

    /// Sets an absolute acceleration.
    pub fn acceleration(self, accel: DegreesPerSecSquared) -> (r: Self)
        ensures
            r == (TrajectoryBuilder { acceleration: Some(accel), ..self }),
    {
        TrajectoryBuilder { acceleration: Some(accel), ..self }
    }

    /// Sets an absolute deceleration.
    pub fn deceleration(self, decel: DegreesPerSecSquared) -> (r: Self)
        ensures
            r == (TrajectoryBuilder { deceleration: Some(decel), ..self }),
    {
        TrajectoryBuilder { deceleration: Some(decel), ..self }
    }

    /// Sets both absolute rates.
    pub fn asymmetric(self, accel: DegreesPerSecSquared, decel: DegreesPerSecSquared) -> (r: Self)
        ensures
            r == (TrajectoryBuilder { acceleration: Some(accel), deceleration: Some(decel), ..self }),
    {
        TrajectoryBuilder { acceleration: Some(accel), deceleration: Some(decel), ..self }
    }

    /// Sets the dwell at the target, in milliseconds.
    pub fn dwell(self, dwell_ms: u32) -> (r: Self)
        ensures
            r == (TrajectoryBuilder { dwell_ms: Some(dwell_ms), ..self }),
    {
        TrajectoryBuilder { dwell_ms: Some(dwell_ms), ..self }
    }

    /// The trajectory; a missing motor, then a missing target, is an error.
    pub fn build(self) -> (r: Result<TrajectoryConfig, Error>)
        ensures
            self.motor is None ==> (r matches Err(Error::Trajectory(TrajectoryError::InvalidName(m)))
                && m@ == "motor not specified"@),
            self.motor is Some && self.target_degrees is None ==> (r matches Err(
                Error::Trajectory(TrajectoryError::InvalidName(m)),
            ) && m@ == "target not specified"@),
            self.motor is Some && self.target_degrees is Some ==> r == Ok::<TrajectoryConfig, Error>(
                TrajectoryConfig {
                    motor: self.motor->Some_0,
                    target_degrees: self.target_degrees->Some_0,
                    velocity_percent: self.velocity_percent,
                    acceleration_percent: self.acceleration_percent,
                    acceleration: self.acceleration,
                    deceleration: self.deceleration,
                    dwell_ms: self.dwell_ms,
                },
            ),
    {
        let motor = match self.motor {
            Some(m) => m,
            None => {
                return Err(
                    Error::Trajectory(TrajectoryError::InvalidName("motor not specified".to_owned())),
                );
            },
        };
        let target_degrees = match self.target_degrees {
            Some(t) => t,
            None => {
                return Err(
                    Error::Trajectory(TrajectoryError::InvalidName("target not specified".to_owned())),
                );
            },
        };
        Ok(
            TrajectoryConfig {
                motor,
                target_degrees,
                velocity_percent: self.velocity_percent,
                acceleration_percent: self.acceleration_percent,
                acceleration: self.acceleration,
                deceleration: self.deceleration,
                dwell_ms: self.dwell_ms,
            },
        )
    }
}

impl Default for TrajectoryBuilder {
    /// [`TrajectoryBuilder::new`].
    fn default() -> (r: Self)
        ensures
            r.motor is None,
            r.target_degrees is None,
            r.velocity_percent == DEFAULT_VELOCITY_PERCENT,
            r.acceleration_percent == DEFAULT_ACCELERATION_PERCENT,
            r.acceleration is None,
            r.deceleration is None,
            r.dwell_ms is None,
    {
        TrajectoryBuilder::new()
    }
}

/// Collects a waypoint sequence.
#[derive(Debug, Clone)]
pub struct WaypointTrajectoryBuilder {
    /// Motor name.
    pub motor: Option<String>,
    /// Waypoints so far (at most 32).
    pub waypoints: WaypointList,
    /// Velocity percent, in 1..=200.
    pub velocity_percent: u8,
    /// Dwell at each waypoint, in milliseconds.
    pub dwell_ms: u32,
}

impl WaypointTrajectoryBuilder {
    /// A builder with no waypoints, full velocity and no dwell.
    pub fn new() -> (r: Self)
        ensures
            r.motor is None,
            r.waypoints@.len() == 0,
            r.velocity_percent == DEFAULT_VELOCITY_PERCENT,
            r.dwell_ms == 0,
    {
        WaypointTrajectoryBuilder {
            motor: None,
            waypoints: WaypointList::new(),
            velocity_percent: DEFAULT_VELOCITY_PERCENT,
            dwell_ms: 0,
        }
    }

    /// Sets the motor name; a name longer than 32 bytes clears it.
    pub fn motor(self, name: &str) -> (r: Self)
        ensures
            name.len() <= MAX_MOTOR_NAME_BYTES ==> (r.motor matches Some(n) && n@ == name@),
            name.len() > MAX_MOTOR_NAME_BYTES ==> r.motor is None,
            r.waypoints@ == self.waypoints@,
            r.velocity_percent == self.velocity_percent,
            r.dwell_ms == self.dwell_ms,
    {
        let motor = if name.len() <= MAX_MOTOR_NAME_BYTES {
            Some(name.to_owned())
        } else {
            None
        };
        WaypointTrajectoryBuilder { motor, ..self }
    }

    /// Adds a waypoint; past 32 it is dropped.
    pub fn waypoint(self, position: Degrees) -> (r: Self)
        ensures
            r.waypoints@ == (if self.waypoints@.len() < MAX_WAYPOINTS {
                self.waypoints@.push(position)
            } else {
                self.waypoints@
            }),
            r.motor == self.motor,
            r.velocity_percent == self.velocity_percent,
            r.dwell_ms == self.dwell_ms,
    {
        let mut this = self;
        let _ = this.waypoints.push(position);
        this
    }

    /// Adds waypoints in order; those past 32 are dropped.
    pub fn waypoints(self, positions: &[Degrees]) -> (r: Self)
        ensures
            r.waypoints@ == (self.waypoints@ + positions@).take(
                if self.waypoints@.len() + positions@.len() <= MAX_WAYPOINTS {
                    (self.waypoints@.len() + positions@.len()) as int
                } else if self.waypoints@.len() <= MAX_WAYPOINTS {
                    MAX_WAYPOINTS as int
                } else {
                    self.waypoints@.len() as int
                },
            ),
            r.motor == self.motor,
            r.velocity_percent == self.velocity_percent,
            r.dwell_ms == self.dwell_ms,
    {
        let mut this = self;
        let mut i: usize = 0;
        while i < positions.len()
            invariant
                0 <= i <= positions@.len(),
                this.motor == self.motor,
                this.velocity_percent == self.velocity_percent,
                this.dwell_ms == self.dwell_ms,
                this.waypoints@ == (self.waypoints@ + positions@).take(
                    if self.waypoints@.len() + i <= MAX_WAYPOINTS {
                        (self.waypoints@.len() + i) as int
                    } else if self.waypoints@.len() <= MAX_WAYPOINTS {
                        MAX_WAYPOINTS as int
                    } else {
                        self.waypoints@.len() as int
                    },
                ),
            decreases positions@.len() - i,
        {
            let _ = this.waypoints.push(positions[i]);
            proof {
                let all = self.waypoints@ + positions@;
                if self.waypoints@.len() + i + 1 <= MAX_WAYPOINTS {
                    assert(this.waypoints@ =~= all.take((self.waypoints@.len() + i + 1) as int));
                } else if self.waypoints@.len() <= MAX_WAYPOINTS {
                    assert(this.waypoints@ =~= all.take(MAX_WAYPOINTS as int));
                } else {
                    assert(this.waypoints@ =~= all.take(self.waypoints@.len() as int));
                }
            }
            i = i + 1;
        }
        this
    }

    /// Sets the velocity percent, brought into 1..=200.
    pub fn velocity_percent(self, percent: u8) -> (r: Self)
        ensures
            r.velocity_percent == clamp_percent(percent),
            r.motor == self.motor,
            r.waypoints@ == self.waypoints@,
            r.dwell_ms == self.dwell_ms,
    {
        WaypointTrajectoryBuilder { velocity_percent: clamped_percent(percent), ..self }
    }

    /// Sets the dwell at each waypoint, in milliseconds.
    pub fn dwell(self, dwell_ms: u32) -> (r: Self)
        ensures
            r.dwell_ms == dwell_ms,
            r.motor == self.motor,
            r.waypoints@ == self.waypoints@,
            r.velocity_percent == self.velocity_percent,
    {
        WaypointTrajectoryBuilder { dwell_ms, ..self }
    }

    /// The sequence; a missing motor, then an empty list, is an error.
    pub fn build(self) -> (r: Result<WaypointTrajectory, Error>)
        ensures
            self.motor is None ==> (r matches Err(Error::Trajectory(TrajectoryError::InvalidName(m)))
                && m@ == "motor not specified"@),
            self.motor is Some && self.waypoints@.len() == 0 ==> r == Err::<WaypointTrajectory, Error>(
                Error::Trajectory(TrajectoryError::Empty),
            ),
            self.motor is Some && self.waypoints@.len() > 0 ==> (r matches Ok(w) && w.motor
                == self.motor->Some_0 && w.waypoints@ == self.waypoints@ && w.velocity_percent
                == self.velocity_percent && w.dwell_ms == self.dwell_ms),
    {
        let motor = match self.motor {
            Some(m) => m,
            None => {
                return Err(
                    Error::Trajectory(TrajectoryError::InvalidName("motor not specified".to_owned())),
                );
            },
        };
        if self.waypoints.len() == 0 {
            return Err(Error::Trajectory(TrajectoryError::Empty));
        }
        Ok(
            WaypointTrajectory {
                motor,
                waypoints: self.waypoints,
                velocity_percent: self.velocity_percent,
                dwell_ms: self.dwell_ms,
            },
        )
    }
}

impl Default for WaypointTrajectoryBuilder {
    /// [`WaypointTrajectoryBuilder::new`].
    fn default() -> (r: Self)
        ensures
            r.motor is None,
            r.waypoints@.len() == 0,
            r.velocity_percent == DEFAULT_VELOCITY_PERCENT,
            r.dwell_ms == 0,
    {
        WaypointTrajectoryBuilder::new()
    }
}

} // verus!
