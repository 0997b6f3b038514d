use stepper_motion::error::decimal;
use stepper_motion::{ConfigError, Error, MotionError, MotorError, TrajectoryError};

#[test]
fn decimal_text_of_numbers() {
    assert_eq!(decimal(0), "0");
    assert_eq!(decimal(7), "7");
    assert_eq!(decimal(1200), "1200");
    assert_eq!(decimal(-45), "-45");
    assert_eq!(decimal(i64::MIN), "-9223372036854775808");
    assert_eq!(decimal(i64::MAX), "9223372036854775807");
}

#[test]
fn error_messages() {
    assert_eq!(
        Error::Config(ConfigError::InvalidMicrosteps(17)).message(),
        "Configuration error: Invalid microsteps: 17. Valid values: 1, 2, 4, 8, 16, 32, 64, 128, 256"
    );
    assert_eq!(
        ConfigError::InvalidSoftLimits { min: 90, max: -90 }.message(),
        "Invalid soft limits: min (90) must be < max (-90)"
    );
    assert_eq!(ConfigError::MotorNotFound("pan".to_string()).message(), "Motor 'pan' not found");
    assert_eq!(
        ConfigError::InvalidGearRatio(-1000).message(),
        "Invalid gear ratio: -1000 millionths. Must be > 0"
    );
    assert_eq!(
        Error::Motor(MotorError::LimitExceeded { position: 808, limit: 800 }).message(),
        "Motor error: Position 808 exceeds limit 800"
    );
    assert_eq!(MotorError::PinError.message(), "GPIO pin operation failed");
    assert_eq!(
        Error::Motion(MotionError::MoveTooShort { steps: 0, minimum: 1 }).message(),
        "Motion error: Move of 0 steps too short, minimum is 1"
    );
    assert_eq!(
        TrajectoryError::TargetExceedsLimits { target: 5, min: -1, max: 1 }.message(),
        "Target position 5 exceeds limits [-1, 1]"
    );
    assert_eq!(
        Error::Trajectory(TrajectoryError::Empty).message(),
        "Trajectory error: Trajectory is empty (no waypoints or target)"
    );
}
