//! Trapezoidal step-pulse motion profiles for stepper motors, with a
//! position tracker, soft limits and a type-state driver core.
//!
//! Angles are held in microdegrees, rates in thousandths of a step per second
//! (or per second squared) and pulse intervals in nanoseconds, so that every formula
//! is exact integer arithmetic.

pub mod config;
pub mod error;
pub mod laws;
pub mod motion;
pub mod motor;
pub mod trajectory;

pub use config::units::{Degrees, DegreesPerSec, DegreesPerSecSquared, Microsteps, Steps};
pub use error::{ConfigError, Error, MotionError, MotorError, TrajectoryError};
pub use motion::executor::MotionExecutor;
pub use motion::profile::{Direction, MotionPhase, MotionProfile};
pub use motor::driver::StepperMotor;
