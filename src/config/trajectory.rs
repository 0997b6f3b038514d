//! Named moves and waypoint sequences.

use vstd::prelude::*;

use super::mechanical::MechanicalConstraints;
use super::units::{
    angle_of_steps, clamp_i64, div_toward_zero, quotient_toward_zero, saturate_i64, steps_of_angle,
    Degrees, DegreesPerSec, DegreesPerSecSquared,
};
use crate::error::{ConfigError, Error, MotionError, TrajectoryError};

verus! {

/// Velocity percent used when a trajectory gives none.
pub const DEFAULT_VELOCITY_PERCENT: u8 = 100;

/// Acceleration percent used when a trajectory gives none.
pub const DEFAULT_ACCELERATION_PERCENT: u8 = 100;

/// Greatest velocity or acceleration percent.
pub const MAX_PERCENT: u8 = 200;

/// A move of one motor to an absolute angle.
#[derive(Debug, Clone)]
pub struct TrajectoryConfig {
    /// Name of the motor that makes the move.
    pub motor: String,
    /// Target angle from the origin.
    pub target_degrees: Degrees,
    /// Velocity as a percentage of the motor's greatest (1..=200).
    pub velocity_percent: u8,
    /// Acceleration as a percentage of the motor's greatest (1..=200), used
    /// when no absolute rate is given.
    pub acceleration_percent: u8,
    /// Absolute acceleration, overriding the percentage.
    pub acceleration: Option<DegreesPerSecSquared>,
    /// Absolute deceleration; the acceleration when not given.
    pub deceleration: Option<DegreesPerSecSquared>,
    /// Time to rest at the target, in milliseconds.
    pub dwell_ms: Option<u32>,
}

/// Most waypoints in a sequence.
pub const MAX_WAYPOINTS: usize = 32;

/// Waypoints in order, at most 32, held in heapless's fixed-capacity vector.
#[verifier::external_body]
#[derive(Debug)]
pub struct WaypointList {
    items: heapless::Vec<Degrees, 32>,
}

/// What a waypoint list holds, in order.
pub uninterp spec fn waypoint_items(l: WaypointList) -> Seq<Degrees>;

/// Relies on heapless's `Vec::new`: an empty vector.
#[verifier::external_body]
fn waypoints_new() -> (r: WaypointList)
    ensures
        waypoint_items(r) == Seq::<Degrees>::empty(),
{
    WaypointList { items: heapless::Vec::new() }
}

/// Relies on heapless's `Vec::push`: the item goes last, or comes back when
/// 32 are held.
#[verifier::external_body]
fn waypoints_push(l: &mut WaypointList, item: Degrees) -> (r: Result<(), Degrees>)
    ensures
        waypoint_items(*old(l)).len() < MAX_WAYPOINTS ==> r is Ok && waypoint_items(*final(l))
            == waypoint_items(*old(l)).push(item),
        waypoint_items(*old(l)).len() >= MAX_WAYPOINTS ==> (r matches Err(x) && x == item
            && waypoint_items(*final(l)) == waypoint_items(*old(l))),
{
    l.items.push(item)
}

/// Relies on heapless's `Vec::as_slice`: the items in order, at most 32.
#[verifier::external_body]
fn waypoints_to_vec(l: &WaypointList) -> (r: Vec<Degrees>)
    ensures
        r@ == waypoint_items(*l),
        r@.len() <= MAX_WAYPOINTS,
{
    l.items.as_slice().to_vec()
}

impl View for WaypointList {
    type V = Seq<Degrees>;

    closed spec fn view(&self) -> Seq<Degrees> {
        waypoint_items(*self)
    }
}

impl WaypointList {
    /// An empty list.
    pub fn new() -> (r: Self)
        ensures
            r@.len() == 0,
    {
        waypoints_new()
    }

    /// Adds `item` last; when 32 are held it is refused and comes back.
    pub fn push(&mut self, item: Degrees) -> (r: Result<(), Degrees>)
        ensures
            old(self)@.len() < MAX_WAYPOINTS ==> r is Ok && final(self)@ == old(self)@.push(item),
            old(self)@.len() >= MAX_WAYPOINTS ==> r == Err::<(), Degrees>(item) && final(self)@
                == old(self)@,
    {
        waypoints_push(self, item)
    }

    /// The waypoints, in order.
    pub fn to_vec(&self) -> (r: Vec<Degrees>)
        ensures
            r@ == self@,
            r@.len() <= MAX_WAYPOINTS,
    {
        waypoints_to_vec(self)
    }

    /// Number of waypoints.
    pub fn len(&self) -> (r: usize)
        ensures
            r == self@.len(),
    {
        waypoints_to_vec(self).len()
    }
}

impl Clone for WaypointList {
    /// A list of the same waypoints.
    fn clone(&self) -> (r: Self)
        ensures
            r@ == self@,
    {
        let items = self.to_vec();
        let mut r = WaypointList::new();
        let mut i: usize = 0;
        while i < items.len()
            invariant
                0 <= i <= items@.len(),
                items@ == self@,
                items@.len() <= MAX_WAYPOINTS,
                r@ == items@.take(i as int),
            decreases items@.len() - i,
        {
            let _ = r.push(items[i]);
            proof {
                assert(r@ =~= items@.take(i + 1));
            }
            i = i + 1;
        }
        proof {
            assert(items@.take(items@.len() as int) =~= items@);
        }
        r
    }
}

/// A sequence of targets for one motor.
#[derive(Debug, Clone)]
pub struct WaypointTrajectory {
    /// Name of the motor.
    pub motor: String,
    /// Targets, in order.
    pub waypoints: WaypointList,
    /// Time to rest at each waypoint, in milliseconds.
    pub dwell_ms: u32,
    /// Velocity percent for every move.
    pub velocity_percent: u8,
}

/// Velocity percent used when a trajectory gives none.
pub fn default_velocity_percent() -> (r: u8)
    ensures
        r == DEFAULT_VELOCITY_PERCENT,
{
    DEFAULT_VELOCITY_PERCENT
}

/// Acceleration percent used when a trajectory gives none.
pub fn default_acceleration_percent() -> (r: u8)
    ensures
        r == DEFAULT_ACCELERATION_PERCENT,
{
    DEFAULT_ACCELERATION_PERCENT
}

/// `value · percent / 100`, rounded toward zero and saturated to `i64`.
pub open spec fn percent_of(value: int, percent: int) -> int {
    clamp_i64(div_toward_zero(value * percent, 100))
}

/// `value · percent / 100`, rounded toward zero and saturated to `i64`.
fn scale_by_percent(value: i64, percent: u8) -> (r: i64)
    ensures
        r == percent_of(value as int, percent as int),
{
    assert(-0x8000_0000_0000_0000 * 0x100 <= value * percent <= 0x8000_0000_0000_0000 * 0x100)
        by (nonlinear_arith)
        requires
            i64::MIN <= value <= i64::MAX,
            0 <= percent <= 0xff,
    ;
    let p = (value as i128) * (percent as i128);
    saturate_i64(quotient_toward_zero(p, 100))
}

/// Whether a percentage lies in 1..=200.
pub open spec fn percent_ok(percent: int) -> bool {
    1 <= percent <= MAX_PERCENT
}

impl TrajectoryConfig {
    /// Acceleration of the move: the absolute rate when given, else the
    /// percentage of the motor's greatest.
    pub open spec fn spec_acceleration(self, c: MechanicalConstraints) -> int {
        match self.acceleration {
            Some(a) => a.0 as int,
            None => percent_of(c.max_acceleration.0 as int, self.acceleration_percent as int),
        }
    }

    /// Deceleration of the move: the absolute deceleration when given, else
    /// the absolute acceleration, else the percentage of the motor's greatest.
    pub open spec fn spec_deceleration(self, c: MechanicalConstraints) -> int {
        match self.deceleration {
            Some(d) => d.0 as int,
            None => self.spec_acceleration(c),
        }
    }

    /// Velocity of the move: the percentage of the motor's greatest.
    pub open spec fn spec_velocity(self, c: MechanicalConstraints) -> int {
        percent_of(c.max_velocity.0 as int, self.velocity_percent as int)
    }

    /// Acceleration of the move; see [`TrajectoryConfig::spec_acceleration`].
    pub fn effective_acceleration(&self, constraints: &MechanicalConstraints) -> (r:
        DegreesPerSecSquared)
        ensures
            r.0 == self.spec_acceleration(*constraints),
    {
        match self.acceleration {
            Some(a) => a,
            None => DegreesPerSecSquared(
                scale_by_percent(constraints.max_acceleration.0, self.acceleration_percent),
            ),
        }
    }

    /// Deceleration of the move; see [`TrajectoryConfig::spec_deceleration`].
    pub fn effective_deceleration(&self, constraints: &MechanicalConstraints) -> (r:
        DegreesPerSecSquared)
        ensures
            r.0 == self.spec_deceleration(*constraints),
    {
        match self.deceleration {
            Some(d) => d,
            None => self.effective_acceleration(constraints),
        }
    }

    /// Velocity of the move; see [`TrajectoryConfig::spec_velocity`].
    pub fn effective_velocity(&self, constraints: &MechanicalConstraints) -> (r: DegreesPerSec)
        ensures
            r.0 == self.spec_velocity(*constraints),
    {
        DegreesPerSec(scale_by_percent(constraints.max_velocity.0, self.velocity_percent))
    }

    /// Whether both rates are given and differ.
    pub fn is_asymmetric(&self) -> (r: bool)
        ensures
            r == (self.acceleration is Some && self.deceleration is Some
                && self.acceleration != self.deceleration),
    {
        match (self.acceleration, self.deceleration) {
            (Some(a), Some(d)) => a.0 != d.0,
            _ => false,
        }
    }

    /// Outcome of the feasibility checks of this move on a motor, in order:
    /// percentages in 1..=200, a target the soft limits accept, and velocity,
    /// acceleration and deceleration at most twice the motor's greatest.
    pub open spec fn feasibility(self, c: MechanicalConstraints) -> Result<(), Error> {
        let spr = c.steps_per_revolution as int;
        if !percent_ok(self.velocity_percent as int) {
            Err(Error::Config(ConfigError::InvalidVelocityPercent(self.velocity_percent)))
        } else if !percent_ok(self.acceleration_percent as int) {
            Err(Error::Config(ConfigError::InvalidAccelerationPercent(self.acceleration_percent)))
        } else if (match c.limits {
            Some(l) => l.spec_apply(steps_of_angle(self.target_degrees.0 as int, spr)) is None,
            None => false,
        }) {
            let l = c.limits->Some_0;
            Err(
                Error::Trajectory(
                    TrajectoryError::TargetExceedsLimits {
                        target: self.target_degrees.0,
                        min: angle_of_steps(l.min_steps as int, spr) as i64,
                        max: angle_of_steps(l.max_steps as int, spr) as i64,
                    },
                ),
            )
        } else if self.spec_velocity(c) > 2 * c.max_velocity.0 {
            Err(
                Error::Motion(
                    MotionError::VelocityExceedsLimit {
                        requested: self.spec_velocity(c) as i64,
                        max: c.max_velocity.0,
                    },
                ),
            )
        } else if self.spec_acceleration(c) > 2 * c.max_acceleration.0 {
            Err(
                Error::Motion(
                    MotionError::AccelerationExceedsLimit {
                        requested: self.spec_acceleration(c) as i64,
                        max: c.max_acceleration.0,
                    },
                ),
            )
        } else if self.spec_deceleration(c) > 2 * c.max_acceleration.0 {
            Err(
                Error::Motion(
                    MotionError::AccelerationExceedsLimit {
                        requested: self.spec_deceleration(c) as i64,
                        max: c.max_acceleration.0,
                    },
                ),
            )
        } else {
            Ok(())
        }
    }

    /// Checks that this move can be run on a motor with `constraints`; see
    /// [`TrajectoryConfig::feasibility`].
    pub fn check_feasibility(&self, constraints: &MechanicalConstraints) -> (r: Result<(), Error>)
        ensures
            r == self.feasibility(*constraints),
    {
        if self.velocity_percent == 0 || self.velocity_percent > MAX_PERCENT {
            return Err(Error::Config(ConfigError::InvalidVelocityPercent(self.velocity_percent)));
        }
        if self.acceleration_percent == 0 || self.acceleration_percent > MAX_PERCENT {
            return Err(
                Error::Config(ConfigError::InvalidAccelerationPercent(self.acceleration_percent)),
            );
        }
        match &constraints.limits {
            Some(limits) => {
                let target_steps = constraints.degrees_to_steps(self.target_degrees);
                if limits.apply(target_steps).is_none() {
                    return Err(
                        Error::Trajectory(
                            TrajectoryError::TargetExceedsLimits {
                                target: self.target_degrees.0,
                                min: constraints.steps_to_degrees(limits.min_steps).0,
                                max: constraints.steps_to_degrees(limits.max_steps).0,
                            },
                        ),
                    );
                }
            },
            None => {},
        }
        let velocity = self.effective_velocity(constraints);
        if velocity.0 as i128 > 2 * (constraints.max_velocity.0 as i128) {
            return Err(
                Error::Motion(
                    MotionError::VelocityExceedsLimit {
                        requested: velocity.0,
                        max: constraints.max_velocity.0,
                    },
                ),
            );
        }
        let acceleration = self.effective_acceleration(constraints);
        if acceleration.0 as i128 > 2 * (constraints.max_acceleration.0 as i128) {
            return Err(
                Error::Motion(
                    MotionError::AccelerationExceedsLimit {
                        requested: acceleration.0,
                        max: constraints.max_acceleration.0,
                    },
                ),
            );
        }
        let deceleration = self.effective_deceleration(constraints);
        if deceleration.0 as i128 > 2 * (constraints.max_acceleration.0 as i128) {
            return Err(
                Error::Motion(
                    MotionError::AccelerationExceedsLimit {
                        requested: deceleration.0,
                        max: constraints.max_acceleration.0,
                    },
                ),
            );
        }
        Ok(())
    }
}

} // verus!
