use stepper_motion::config::units::{Degrees, Microsteps, Steps};

const VALID_MICROSTEPS: [u16; 9] = [1, 2, 4, 8, 16, 32, 64, 128, 256];

#[test]
fn test_microsteps_valid_values() {
    for &v in &VALID_MICROSTEPS {
        assert!(Microsteps::new(v).is_ok());
    }
}

#[test]
fn test_microsteps_invalid_values() {
    assert!(Microsteps::new(0).is_err());
    assert!(Microsteps::new(3).is_err());
    assert!(Microsteps::new(17).is_err());
    assert!(Microsteps::new(512).is_err());
}

#[test]
fn test_steps_to_degrees() {
    let steps = Steps::new(3200);
    let degrees = steps.to_degrees(3200);
    assert!((degrees.value() as f64 / 1e6 - 360.0).abs() < 0.01);
}

#[test]
fn microsteps_keep_their_value() {
    assert_eq!(Microsteps::new(16).unwrap().value(), 16);
    assert!(Microsteps::is_valid(256));
    assert!(!Microsteps::is_valid(6));
    assert_eq!(Microsteps::default().value(), 1);
}

#[test]
fn microsteps_error_names_the_value() {
    let err = Microsteps::new(17).unwrap_err();
    assert!(matches!(err, stepper_motion::ConfigError::InvalidMicrosteps(17)));
}

#[test]
fn angle_to_steps_truncates_toward_zero() {
    // 1° at 3200 steps/rev is 8.888... steps.
    assert_eq!(Steps::from_degrees(Degrees::whole(1), 3200).value(), 8);
    assert_eq!(Steps::from_degrees(Degrees::whole(-1), 3200).value(), -8);
    assert_eq!(Steps::from_degrees(Degrees::whole(90), 3200).value(), 800);
}

#[test]
fn steps_to_angle_rounds_away_from_zero() {
    // One step at 3200 steps/rev is 0.1125° = 112500 microdegrees exactly;
    // one step at 7 steps/rev is 51.428571...°.
    assert_eq!(Steps::new(1).to_degrees(3200).value(), 112_500);
    assert_eq!(Steps::new(1).to_degrees(7).value(), 51_428_572);
    assert_eq!(Steps::new(-1).to_degrees(7).value(), -51_428_572);
    assert_eq!(Steps::new(5).to_degrees(0).value(), 0);
}

#[test]
fn steps_abs_and_whole_degrees() {
    assert_eq!(Steps::new(-42).abs(), 42);
    assert_eq!(Steps::new(i64::MIN).abs(), 9_223_372_036_854_775_808);
    assert_eq!(Degrees::whole(90).value(), 90_000_000);
}
