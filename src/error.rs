//! Error kinds of the library.

use vstd::prelude::*;
use vstd::string::StringExecFns;

verus! {

/// Any failure reported by the library.
#[derive(Debug, Clone, PartialEq)]
pub enum Error {
    /// Configuration is malformed or out of range.
    Config(ConfigError),
    /// A motor operation failed.
    Motor(MotorError),
    /// A motion profile cannot be built or run.
    Motion(MotionError),
    /// A trajectory cannot be found or used.
    Trajectory(TrajectoryError),
}

/// Configuration errors. Angles and rates are in the units of
/// [`crate::Degrees`], [`crate::DegreesPerSec`] and [`crate::DegreesPerSecSquared`].
#[derive(Debug, Clone, PartialEq)]
pub enum ConfigError {
    /// The configuration text could not be parsed.
    ParseError(String),
    /// Microstep divisor is not a power of two in 1..=256.
    InvalidMicrosteps(u16),
    /// No motor of that name.
    MotorNotFound(String),
    /// No trajectory of that name.
    TrajectoryNotFound(String),
    /// A motor name occurs twice.
    DuplicateMotorName(String),
    /// A trajectory name occurs twice.
    DuplicateTrajectoryName(String),
    /// Velocity percent outside 1..=200.
    InvalidVelocityPercent(u8),
    /// Acceleration percent outside 1..=200.
    InvalidAccelerationPercent(u8),
    /// Gear ratio (in millionths) is not positive.
    InvalidGearRatio(i64),
    /// Maximum velocity is not positive.
    InvalidMaxVelocity(i64),
    /// Maximum acceleration is not positive.
    InvalidMaxAcceleration(i64),
    /// Soft limits with `min >= max`.
    InvalidSoftLimits {
        /// Lower bound.
        min: i64,
        /// Upper bound.
        max: i64,
    },
    /// Reading the configuration failed.
    IoError(String),
}

/// Motor errors.
#[derive(Debug, Clone, PartialEq)]
pub enum MotorError {
    /// A STEP or DIR pin write failed.
    PinError,
    /// The operation is not legal in the motor's state.
    InvalidState(String),
    /// The motor has no active move.
    NotInitialized,
    /// A target lies outside the soft limits.
    LimitExceeded {
        /// Requested position in steps.
        position: i64,
        /// The bound that was crossed, in steps.
        limit: i64,
    },
}

/// Motion errors.
#[derive(Debug, Clone, PartialEq)]
pub enum MotionError {
    /// Requested velocity is above what the motor allows.
    VelocityExceedsLimit {
        /// Requested velocity.
        requested: i64,
        /// Motor maximum.
        max: i64,
    },
    /// Requested acceleration or deceleration is above what the motor allows.
    AccelerationExceedsLimit {
        /// Requested rate.
        requested: i64,
        /// Motor maximum.
        max: i64,
    },
    /// The move is shorter than the least that can be run.
    MoveTooShort {
        /// Requested move in steps.
        steps: i64,
        /// Least move in steps.
        minimum: i64,
    },
    /// A step count does not fit the profile's range.
    Overflow,
}

/// Trajectory errors.
#[derive(Debug, Clone, PartialEq)]
pub enum TrajectoryError {
    /// The trajectory names a motor that does not exist.
    MotorNotFound {
        /// Trajectory name.
        trajectory: String,
        /// Motor name it refers to.
        motor: String,
    },
    /// The target lies outside the motor's soft limits.
    TargetExceedsLimits {
        /// Target angle.
        target: i64,
        /// Lower limit angle.
        min: i64,
        /// Upper limit angle.
        max: i64,
    },
    /// A waypoint list is empty.
    EmptyWaypoints,
    /// A waypoint list is too long.
    TooManyWaypoints,
    /// Unknown trajectory name, or a trajectory for another motor.
    InvalidName(String),
    /// A trajectory with neither target nor waypoints.
    Empty,
}

/// Text of one decimal digit.
pub open spec fn digit_text(d: int) -> Seq<char> {
    if d == 0 {
        "0"@
    } else if d == 1 {
        "1"@
    } else if d == 2 {
        "2"@
    } else if d == 3 {
        "3"@
    } else if d == 4 {
        "4"@
    } else if d == 5 {
        "5"@
    } else if d == 6 {
        "6"@
    } else if d == 7 {
        "7"@
    } else if d == 8 {
        "8"@
    } else {
        "9"@
    }
}

/// Decimal digits of a non-negative number, without leading zeros.
pub open spec fn unsigned_text(n: nat) -> Seq<char>
    decreases n,
{
    if n < 10 {
        digit_text(n as int)
    } else {
        unsigned_text(n / 10) + digit_text((n % 10) as int)
    }
}

/// Decimal text of a number, with a leading `-` when negative.
pub open spec fn decimal_text(n: int) -> Seq<char> {
    if n < 0 {
        "-"@ + unsigned_text((-n) as nat)
    } else {
        unsigned_text(n as nat)
    }
}

fn digit_str(d: u64) -> (r: &'static str)
    requires
        d < 10,
    ensures
        r@ == digit_text(d as int),
{
    if d == 0 {
        "0"
    } else if d == 1 {
        "1"
    } else if d == 2 {
        "2"
    } else if d == 3 {
        "3"
    } else if d == 4 {
        "4"
    } else if d == 5 {
        "5"
    } else if d == 6 {
        "6"
    } else if d == 7 {
        "7"
    } else if d == 8 {
        "8"
    } else {
        "9"
    }
}

/// Appends the decimal digits of `n`.
fn push_unsigned(s: &mut String, n: u64)
    ensures
        final(s)@ == old(s)@ + unsigned_text(n as nat),
    decreases n,
{
    if n >= 10 {
        push_unsigned(s, n / 10);
    }
    s.append(digit_str(n % 10));
    proof {
        if n >= 10 {
            assert(old(s)@ + unsigned_text((n / 10) as nat) + digit_text((n % 10) as int) =~= old(s)@
                + unsigned_text(n as nat));
        } else {
            assert(n % 10 == n);
        }
    }
}

/// Appends the decimal text of `n`.
fn push_decimal(s: &mut String, n: i64)
    ensures
        final(s)@ == old(s)@ + decimal_text(n as int),
{
    if n < 0 {
        s.append("-");
        push_unsigned(s, (-(n as i128)) as u64);
        proof {
            assert(old(s)@ + "-"@ + unsigned_text((-n) as nat) =~= old(s)@ + decimal_text(n as int));
        }
    } else {
        push_unsigned(s, n as u64);
    }
}

/// The decimal text of `n`.
pub fn decimal(n: i64) -> (r: String)
    ensures
        r@ == decimal_text(n as int),
{
    let mut s = String::new();
    push_decimal(&mut s, n);
    proof {
        assert(Seq::<char>::empty() + decimal_text(n as int) =~= decimal_text(n as int));
    }
    s
}

impl Error {
    /// Human-readable text: the kind, then the detail.
    pub open spec fn spec_message(self) -> Seq<char> {
        match self {
            Error::Config(e) => "Configuration error: "@ + e.spec_message(),
            Error::Motor(e) => "Motor error: "@ + e.spec_message(),
            Error::Motion(e) => "Motion error: "@ + e.spec_message(),
            Error::Trajectory(e) => "Trajectory error: "@ + e.spec_message(),
        }
    }

    /// Human-readable text; see [`Error::spec_message`].
    pub fn message(&self) -> (r: String)
        ensures
            r@ == self.spec_message(),
    {
        let (mut s, detail) = match self {
            Error::Config(e) => ("Configuration error: ".to_owned(), e.message()),
            Error::Motor(e) => ("Motor error: ".to_owned(), e.message()),
            Error::Motion(e) => ("Motion error: ".to_owned(), e.message()),
            Error::Trajectory(e) => ("Trajectory error: ".to_owned(), e.message()),
        };
        s.append(detail.as_str());
        s
    }
}

impl ConfigError {
    /// Human-readable text. Gear ratios are in millionths, velocities and
    /// accelerations in microdegrees per second (squared), angles in
    /// microdegrees.
    pub open spec fn spec_message(self) -> Seq<char> {
        match self {
            ConfigError::ParseError(m) => "Parse error: "@ + m@,
            ConfigError::InvalidMicrosteps(v) => "Invalid microsteps: "@ + decimal_text(v as int)
                + ". Valid values: 1, 2, 4, 8, 16, 32, 64, 128, 256"@,
            ConfigError::MotorNotFound(n) => "Motor '"@ + n@ + "' not found"@,
            ConfigError::TrajectoryNotFound(n) => "Trajectory '"@ + n@ + "' not found"@,
            ConfigError::DuplicateMotorName(n) => "Duplicate motor name: '"@ + n@ + "'"@,
            ConfigError::DuplicateTrajectoryName(n) => "Duplicate trajectory name: '"@ + n@ + "'"@,
            ConfigError::InvalidVelocityPercent(v) => "Invalid velocity percent: "@ + decimal_text(
                v as int,
            ) + ". Must be 1-200"@,
            ConfigError::InvalidAccelerationPercent(v) => "Invalid acceleration percent: "@
                + decimal_text(v as int) + ". Must be 1-200"@,
            ConfigError::InvalidGearRatio(v) => "Invalid gear ratio: "@ + decimal_text(v as int)
                + " millionths. Must be > 0"@,
            ConfigError::InvalidMaxVelocity(v) => "Invalid max velocity: "@ + decimal_text(v as int)
                + ". Must be > 0"@,
            ConfigError::InvalidMaxAcceleration(v) => "Invalid max acceleration: "@ + decimal_text(
                v as int,
            ) + ". Must be > 0"@,
            ConfigError::InvalidSoftLimits { min, max } => "Invalid soft limits: min ("@
                + decimal_text(min as int) + ") must be < max ("@ + decimal_text(max as int) + ")"@,
            ConfigError::IoError(m) => "I/O error: "@ + m@,
        }
    }

    /// Human-readable text; see [`ConfigError::spec_message`].
    pub fn message(&self) -> (r: String)
        ensures
            r@ == self.spec_message(),
    {
        let mut s = String::new();
        match self {
            ConfigError::ParseError(m) => {
                s.append("Parse error: ");
                s.append(m.as_str());
            },
            ConfigError::InvalidMicrosteps(v) => {
                s.append("Invalid microsteps: ");
                push_decimal(&mut s, *v as i64);
                s.append(". Valid values: 1, 2, 4, 8, 16, 32, 64, 128, 256");
            },
            ConfigError::MotorNotFound(n) => {
                s.append("Motor '");
                s.append(n.as_str());
                s.append("' not found");
            },
            ConfigError::TrajectoryNotFound(n) => {
                s.append("Trajectory '");
                s.append(n.as_str());
                s.append("' not found");
            },
            ConfigError::DuplicateMotorName(n) => {
                s.append("Duplicate motor name: '");
                s.append(n.as_str());
                s.append("'");
            },
            ConfigError::DuplicateTrajectoryName(n) => {
                s.append("Duplicate trajectory name: '");
                s.append(n.as_str());
                s.append("'");
            },
            ConfigError::InvalidVelocityPercent(v) => {
                s.append("Invalid velocity percent: ");
                push_decimal(&mut s, *v as i64);
                s.append(". Must be 1-200");
            },
            ConfigError::InvalidAccelerationPercent(v) => {
                s.append("Invalid acceleration percent: ");
                push_decimal(&mut s, *v as i64);
                s.append(". Must be 1-200");
            },
            ConfigError::InvalidGearRatio(v) => {
                s.append("Invalid gear ratio: ");
                push_decimal(&mut s, *v);
                s.append(" millionths. Must be > 0");
            },
            ConfigError::InvalidMaxVelocity(v) => {
                s.append("Invalid max velocity: ");
                push_decimal(&mut s, *v);
                s.append(". Must be > 0");
            },
            ConfigError::InvalidMaxAcceleration(v) => {
                s.append("Invalid max acceleration: ");
                push_decimal(&mut s, *v);
                s.append(". Must be > 0");
            },
            ConfigError::InvalidSoftLimits { min, max } => {
                s.append("Invalid soft limits: min (");
                push_decimal(&mut s, *min);
                s.append(") must be < max (");
                push_decimal(&mut s, *max);
                s.append(")");
            },
            ConfigError::IoError(m) => {
                s.append("I/O error: ");
                s.append(m.as_str());
            },
        }
        proof {
            assert(s@ =~= self.spec_message());
        }
        s
    }
}

impl MotorError {
    /// Human-readable text.
    pub open spec fn spec_message(self) -> Seq<char> {
        match self {
            MotorError::PinError => "GPIO pin operation failed"@,
            MotorError::InvalidState(st) => "Invalid motor state: "@ + st@,
            MotorError::NotInitialized => "Motor not initialized"@,
            MotorError::LimitExceeded { position, limit } => "Position "@ + decimal_text(
                position as int,
            ) + " exceeds limit "@ + decimal_text(limit as int),
        }
    }

    /// Human-readable text; see [`MotorError::spec_message`].
    pub fn message(&self) -> (r: String)
        ensures
            r@ == self.spec_message(),
    {
        let mut s = String::new();
        match self {
            MotorError::PinError => s.append("GPIO pin operation failed"),
            MotorError::InvalidState(st) => {
                s.append("Invalid motor state: ");
                s.append(st.as_str());
            },
            MotorError::NotInitialized => s.append("Motor not initialized"),
            MotorError::LimitExceeded { position, limit } => {
                s.append("Position ");
                push_decimal(&mut s, *position);
                s.append(" exceeds limit ");
                push_decimal(&mut s, *limit);
            },
        }
        proof {
            assert(s@ =~= self.spec_message());
        }
        s
    }
}

impl MotionError {
    /// Human-readable text.
    pub open spec fn spec_message(self) -> Seq<char> {
        match self {
            MotionError::VelocityExceedsLimit { requested, max } => "Requested velocity "@
                + decimal_text(requested as int) + " exceeds maximum "@ + decimal_text(max as int),
            MotionError::AccelerationExceedsLimit { requested, max } => "Requested acceleration "@
                + decimal_text(requested as int) + " exceeds maximum "@ + decimal_text(max as int),
            MotionError::MoveTooShort { steps, minimum } => "Move of "@ + decimal_text(steps as int)
                + " steps too short, minimum is "@ + decimal_text(minimum as int),
            MotionError::Overflow => "Motion profile computation overflow"@,
        }
    }

    /// Human-readable text; see [`MotionError::spec_message`].
    pub fn message(&self) -> (r: String)
        ensures
            r@ == self.spec_message(),
    {
        let mut s = String::new();
        match self {
            MotionError::VelocityExceedsLimit { requested, max } => {
                s.append("Requested velocity ");
                push_decimal(&mut s, *requested);
                s.append(" exceeds maximum ");
                push_decimal(&mut s, *max);
            },
            MotionError::AccelerationExceedsLimit { requested, max } => {
                s.append("Requested acceleration ");
                push_decimal(&mut s, *requested);
                s.append(" exceeds maximum ");
                push_decimal(&mut s, *max);
            },
            MotionError::MoveTooShort { steps, minimum } => {
                s.append("Move of ");
                push_decimal(&mut s, *steps);
                s.append(" steps too short, minimum is ");
                push_decimal(&mut s, *minimum);
            },
            MotionError::Overflow => s.append("Motion profile computation overflow"),
        }
        proof {
            assert(s@ =~= self.spec_message());
        }
        s
    }
}

impl TrajectoryError {
    /// Human-readable text.
    pub open spec fn spec_message(self) -> Seq<char> {
        match self {
            TrajectoryError::MotorNotFound { trajectory, motor } => "Trajectory '"@ + trajectory@
                + "' references unknown motor '"@ + motor@ + "'"@,
            TrajectoryError::TargetExceedsLimits { target, min, max } => "Target position "@
                + decimal_text(target as int) + " exceeds limits ["@ + decimal_text(min as int)
                + ", "@ + decimal_text(max as int) + "]"@,
            TrajectoryError::EmptyWaypoints => "Waypoint list is empty"@,
            TrajectoryError::TooManyWaypoints => "Too many waypoints (max 32)"@,
            TrajectoryError::InvalidName(n) => "Invalid trajectory name or configuration: "@ + n@,
            TrajectoryError::Empty => "Trajectory is empty (no waypoints or target)"@,
        }
    }

    /// Human-readable text; see [`TrajectoryError::spec_message`].
    pub fn message(&self) -> (r: String)
        ensures
            r@ == self.spec_message(),
    {
        let mut s = String::new();
        match self {
            TrajectoryError::MotorNotFound { trajectory, motor } => {
                s.append("Trajectory '");
                s.append(trajectory.as_str());
                s.append("' references unknown motor '");
                s.append(motor.as_str());
                s.append("'");
            },
            TrajectoryError::TargetExceedsLimits { target, min, max } => {
                s.append("Target position ");
                push_decimal(&mut s, *target);
                s.append(" exceeds limits [");
                push_decimal(&mut s, *min);
                s.append(", ");
                push_decimal(&mut s, *max);
                s.append("]");
            },
            TrajectoryError::EmptyWaypoints => s.append("Waypoint list is empty"),
            TrajectoryError::TooManyWaypoints => s.append("Too many waypoints (max 32)"),
            TrajectoryError::InvalidName(n) => {
                s.append("Invalid trajectory name or configuration: ");
                s.append(n.as_str());
            },
            TrajectoryError::Empty => s.append("Trajectory is empty (no waypoints or target)"),
        }
        proof {
            assert(s@ =~= self.spec_message());
        }
        s
    }
}

} // verus!
