//! Assembling an idle motor from its parameters or its description.

use vstd::prelude::*;

use super::driver::{MotorView, StepperMotor};
use super::position::PositionView;
use super::state::Idle;
use crate::config::mechanical::MechanicalConstraints;
use crate::config::motor::{MotorConfig, GEAR_RATIO_ONE};
use crate::config::system::{each_named, has_name, SystemConfig};
use crate::config::units::{
    steps_of_angle, DegreesPerSec, DegreesPerSecSquared, Microsteps, Steps,
};
use crate::error::{ConfigError, Error};

verus! {

/// Longest motor name, in bytes.
pub const MAX_NAME_BYTES: usize = 32;

/// Collects a motor's parameters, then builds it.
///
/// Either a whole set of constraints (from a description) or the base step
/// count, velocity and acceleration must be given; the microstep divisor
/// defaults to 1, the gear ratio to one and the name to `motor`.
#[derive(Debug, Clone)]
pub struct StepperMotorBuilder {
    /// Motor name.
    pub name: Option<String>,
    /// Full steps per motor revolution.
    pub steps_per_revolution: Option<u16>,
    /// Microstep divisor.
    pub microsteps: Option<Microsteps>,
    /// Gear ratio, in millionths.
    pub gear_ratio: i64,
    /// Greatest angular velocity.
    pub max_velocity: Option<DegreesPerSec>,
    /// Greatest angular acceleration.
    pub max_acceleration: Option<DegreesPerSecSquared>,
    /// Whether the DIR pin's levels are swapped.
    pub invert_direction: bool,
    /// Constraints taken whole from a description.
    pub constraints: Option<MechanicalConstraints>,
    /// Backlash compensation in steps.
    pub backlash_steps: i64,
}

/// The name a motor gets from a builder's name.
pub open spec fn built_name(name: Option<String>) -> Seq<char> {
    match name {
        Some(n) => n@,
        None => "motor"@,
    }
}

impl StepperMotorBuilder {
    /// A builder with nothing set.
    pub fn new() -> (r: Self)
        ensures
            r.name is None,
            r.steps_per_revolution is None,
            r.microsteps is None,
            r.gear_ratio == GEAR_RATIO_ONE,
            r.max_velocity is None,
            r.max_acceleration is None,
            !r.invert_direction,
            r.constraints is None,
            r.backlash_steps == 0,
    {
        StepperMotorBuilder {
            name: None,
            steps_per_revolution: None,
            microsteps: None,
            gear_ratio: GEAR_RATIO_ONE,
            max_velocity: None,
            max_acceleration: None,
            invert_direction: false,
            constraints: None,
            backlash_steps: 0,
        }
    }

    /// Sets the name; a name longer than 32 bytes clears it.
    pub fn name(self, name: &str) -> (r: Self)
        ensures
            name.len() <= MAX_NAME_BYTES ==> (r.name matches Some(n) && n@ == name@),
            name.len() > MAX_NAME_BYTES ==> r.name is None,
            r == (StepperMotorBuilder { name: r.name, ..self }),
    {
        let name = if name.len() <= MAX_NAME_BYTES {
            Some(name.to_owned())
        } else {
            None
        };
        StepperMotorBuilder { name, ..self }
    }

    /// Sets the full steps per motor revolution.
    pub fn steps_per_revolution(self, steps: u16) -> (r: Self)
        ensures
            r == (StepperMotorBuilder { steps_per_revolution: Some(steps), ..self }),
    {
        StepperMotorBuilder { steps_per_revolution: Some(steps), ..self }
    }

    /// Sets the microstep divisor.
    pub fn microsteps(self, microsteps: Microsteps) -> (r: Self)
        ensures
            r == (StepperMotorBuilder { microsteps: Some(microsteps), ..self }),
    {
        StepperMotorBuilder { microsteps: Some(microsteps), ..self }
    }

    /// Sets the gear ratio, in millionths.
    pub fn gear_ratio(self, ratio: i64) -> (r: Self)
        ensures
            r == (StepperMotorBuilder { gear_ratio: ratio, ..self }),
    {
        StepperMotorBuilder { gear_ratio: ratio, ..self }
    }

    /// Sets the greatest angular velocity.
    pub fn max_velocity(self, velocity: DegreesPerSec) -> (r: Self)
        ensures
            r == (StepperMotorBuilder { max_velocity: Some(velocity), ..self }),
    {
        StepperMotorBuilder { max_velocity: Some(velocity), ..self }
    }

    /// Sets the greatest angular acceleration.
    pub fn max_acceleration(self, acceleration: DegreesPerSecSquared) -> (r: Self)
        ensures
            r == (StepperMotorBuilder { max_acceleration: Some(acceleration), ..self }),
    {
        StepperMotorBuilder { max_acceleration: Some(acceleration), ..self }
    }

    /// Sets whether the DIR pin's levels are swapped.
    pub fn invert_direction(self, invert: bool) -> (r: Self)
        ensures
            r == (StepperMotorBuilder { invert_direction: invert, ..self }),
    {
        StepperMotorBuilder { invert_direction: invert, ..self }
    }

    /// Sets the backlash compensation in steps.
    pub fn backlash_steps(self, steps: i64) -> (r: Self)
        ensures
            r == (StepperMotorBuilder { backlash_steps: steps, ..self }),
    {
        StepperMotorBuilder { backlash_steps: steps, ..self }
    }

    /// Takes every parameter from a motor's description, with its
    /// constraints; its backlash, when given, becomes a step count.
    pub fn from_motor_config(self, config: &MotorConfig) -> (r: Self)
        ensures
            r.name == Some(config.name),
            r.steps_per_revolution == Some(config.steps_per_revolution),
            r.microsteps == Some(config.microsteps),
            r.gear_ratio == config.gear_ratio,
            r.max_velocity == Some(config.max_velocity),
            r.max_acceleration == Some(config.max_acceleration),
            r.invert_direction == config.invert_direction,
            r.constraints matches Some(c) && c.derived_from(*config),
            r.backlash_steps == match config.backlash_compensation {
                Some(b) => steps_of_angle(b.0 as int, r.constraints->Some_0.steps_per_revolution as int),
                None => self.backlash_steps as int,
            },
    {
        let constraints = MechanicalConstraints::from_config(config);
        let backlash_steps = match config.backlash_compensation {
            Some(b) => Steps::from_degrees(b, constraints.steps_per_revolution).0,
            None => self.backlash_steps,
        };
        StepperMotorBuilder {
            name: Some(config.name.clone()),
            steps_per_revolution: Some(config.steps_per_revolution),
            microsteps: Some(config.microsteps),
            gear_ratio: config.gear_ratio,
            max_velocity: Some(config.max_velocity),
            max_acceleration: Some(config.max_acceleration),
            invert_direction: config.invert_direction,
            constraints: Some(constraints),
            backlash_steps,
        }
    }

    /// Takes every parameter from the description of motor `motor_name`;
    /// an unknown name is an error.
    pub fn from_config(self, config: &SystemConfig, motor_name: &str) -> (r: Result<Self, Error>)
        ensures
            !has_name(config@.motors, motor_name@) ==> (r matches Err(
                Error::Config(ConfigError::MotorNotFound(n)),
            ) && n@ == (if motor_name.len() <= MAX_NAME_BYTES {
                motor_name@
            } else {
                Seq::<char>::empty()
            })),
            has_name(config@.motors, motor_name@) ==> (r matches Ok(b) && each_named(
                config@.motors,
                motor_name@,
                |i: int|
                    (b.constraints matches Some(c) && c.derived_from(config@.motors[i].1)) && b.name
                        == Some(config@.motors[i].1.name),
            )),
    {
        match config.motor(motor_name) {
            Some(m) => Ok(self.from_motor_config(m)),
            None => {
                let name = if motor_name.len() <= MAX_NAME_BYTES {
                    motor_name.to_owned()
                } else {
                    String::new()
                };
                Err(Error::Config(ConfigError::MotorNotFound(name)))
            },
        }
    }

    /// Builds the idle motor at the origin. Without whole constraints, a
    /// missing base step count, velocity or acceleration (checked in that
    /// order) is an error.
    pub fn build(self) -> (r: Result<StepperMotor<Idle>, Error>)
        ensures
            ({
                let expected = |c: MechanicalConstraints|
                    MotorView {
                        position: PositionView {
                            steps: 0,
                            steps_per_rev: c.steps_per_revolution as int,
                        },
                        direction: None,
                        constraints: c,
                        name: built_name(self.name),
                        invert_direction: self.invert_direction,
                        backlash_steps: self.backlash_steps as int,
                        executor: None,
                    };
                match self.constraints {
                    Some(c) => r matches Ok(m) && m@ == expected(c),
                    None => if self.steps_per_revolution is None {
                        r matches Err(Error::Config(ConfigError::ParseError(msg)))
                            && msg@ == "steps_per_revolution is required"@
                    } else if self.max_velocity is None {
                        r matches Err(Error::Config(ConfigError::ParseError(msg)))
                            && msg@ == "max_velocity is required"@
                    } else if self.max_acceleration is None {
                        r matches Err(Error::Config(ConfigError::ParseError(msg)))
                            && msg@ == "max_acceleration is required"@
                    } else {
                        r matches Ok(m) && m@ == expected(m@.constraints)
                            && m@.constraints.derived_from_parts(
                            self.steps_per_revolution->Some_0,
                            match self.microsteps {
                                Some(d) => d@,
                                None => 1,
                            },
                            self.gear_ratio,
                            self.max_velocity->Some_0,
                            self.max_acceleration->Some_0,
                            None,
                        )
                    },
                }
            }),
    {
        let name = match self.name {
            Some(n) => n,
            None => "motor".to_owned(),
        };
        let constraints = match self.constraints {
            Some(c) => c,
            None => {
                let steps = match self.steps_per_revolution {
                    Some(s) => s,
                    None => {
                        return Err(
                            Error::Config(
                                ConfigError::ParseError("steps_per_revolution is required".to_owned()),
                            ),
                        );
                    },
                };
                let microsteps = match self.microsteps {
                    Some(m) => m,
                    None => Microsteps::default(),
                };
                let max_velocity = match self.max_velocity {
                    Some(v) => v,
                    None => {
                        return Err(
                            Error::Config(ConfigError::ParseError("max_velocity is required".to_owned())),
                        );
                    },
                };
                let max_acceleration = match self.max_acceleration {
                    Some(a) => a,
                    None => {
                        return Err(
                            Error::Config(
                                ConfigError::ParseError("max_acceleration is required".to_owned()),
                            ),
                        );
                    },
                };
                let config = MotorConfig {
                    name: name.clone(),
                    steps_per_revolution: steps,
                    microsteps,
                    gear_ratio: self.gear_ratio,
                    max_velocity,
                    max_acceleration,
                    invert_direction: self.invert_direction,
                    limits: None,
                    backlash_compensation: None,
                };
                MechanicalConstraints::from_config(&config)
            },
        };
        Ok(StepperMotor::new(constraints, name, self.invert_direction, self.backlash_steps))
    }
}

} // verus!
