use stepper_motion::config::limits::{LimitPolicy, SoftLimits};
use stepper_motion::config::mechanical::MechanicalConstraints;
use stepper_motion::config::motor::{default_gear_ratio, MotorConfig};
use stepper_motion::config::system::SystemConfig;
use stepper_motion::config::trajectory::{
    default_acceleration_percent, default_velocity_percent, TrajectoryConfig, WaypointList,
    WaypointTrajectory,
};
use stepper_motion::config::units::{Degrees, DegreesPerSec, DegreesPerSecSquared, Microsteps};
use stepper_motion::config::validation::{validate_config, validate_motor};
use stepper_motion::trajectory::registry::TrajectoryRegistry;
use stepper_motion::{ConfigError, Error, MotionError, TrajectoryError};

fn deg(d: i64) -> Degrees {
    Degrees(d * 1_000_000)
}

fn motor(name: &str, base: u16, micro: u16, gear: i64, vel: i64, acc: i64) -> MotorConfig {
    MotorConfig {
        name: name.to_string(),
        steps_per_revolution: base,
        microsteps: Microsteps::new(micro).unwrap(),
        gear_ratio: gear,
        max_velocity: DegreesPerSec(vel * 1_000_000),
        max_acceleration: DegreesPerSecSquared(acc * 1_000_000),
        invert_direction: false,
        limits: None,
        backlash_compensation: None,
    }
}

fn trajectory(motor: &str, target: Degrees, velocity_percent: u8) -> TrajectoryConfig {
    TrajectoryConfig {
        motor: motor.to_string(),
        target_degrees: target,
        velocity_percent,
        acceleration_percent: default_acceleration_percent(),
        acceleration: None,
        deceleration: None,
        dwell_ms: None,
    }
}

fn minimal_config() -> SystemConfig {
    let mut c = SystemConfig::new();
    c.insert_motor("test_motor".to_string(), motor("Test Motor", 200, 16, 1_000_000, 360, 720)).unwrap();
    c
}

fn full_config() -> SystemConfig {
    let mut pan = motor("Pan Axis", 200, 32, 4_000_000, 180, 360);
    pan.invert_direction = true;
    pan.limits = Some(SoftLimits::new(deg(-90), deg(90), LimitPolicy::Reject));
    let mut c = SystemConfig::new();
    c.insert_motor("pan".to_string(), pan).unwrap();
    c.insert_trajectory("home".to_string(), trajectory("pan", deg(0), 50)).unwrap();
    let mut asym = trajectory("pan", deg(45), 100);
    asym.acceleration = Some(DegreesPerSecSquared(288_000_000));
    asym.deceleration = Some(DegreesPerSecSquared(180_000_000));
    c.insert_trajectory("asymmetric".to_string(), asym).unwrap();
    c
}

fn test_constraints() -> MechanicalConstraints {
    MechanicalConstraints::from_config(&motor("test", 200, 16, 1_000_000, 360, 720))
}

#[test]
fn test_steps_per_revolution() {
    let constraints = test_constraints();
    assert_eq!(constraints.steps_per_revolution, 3200);
}

#[test]
fn test_steps_per_degree() {
    let constraints = test_constraints();
    let steps_per_degree = constraints.steps_per_revolution as f64 / 360.0;
    assert!((steps_per_degree - 8.889).abs() < 0.01);
}

#[test]
fn test_velocity_conversion() {
    let constraints = test_constraints();
    assert!((constraints.max_velocity_steps_per_sec as f64 / 1000.0 - 3200.0).abs() < 1.0);
}

#[test]
fn test_total_steps() {
    let config = motor("test", 200, 16, 2_000_000, 360, 720);
    assert_eq!(config.total_steps_per_revolution(), 6400);
}

#[test]
fn trajectory_test_symmetric_profile() {
    let mut traj = trajectory("test", deg(90), 100);
    traj.acceleration_percent = 50;
    let constraints = test_constraints();
    let accel = traj.effective_acceleration(&constraints);
    let decel = traj.effective_deceleration(&constraints);
    assert!((accel.value() as f64 / 1e6 - 360.0).abs() < 0.1);
    assert!((decel.value() as f64 / 1e6 - 360.0).abs() < 0.1);
    assert!(!traj.is_asymmetric());
}

#[test]
fn trajectory_test_asymmetric_profile() {
    let mut traj = trajectory("test", deg(90), 100);
    traj.acceleration = Some(DegreesPerSecSquared(500_000_000));
    traj.deceleration = Some(DegreesPerSecSquared(200_000_000));
    let constraints = test_constraints();
    let accel = traj.effective_acceleration(&constraints);
    let decel = traj.effective_deceleration(&constraints);
    assert!((accel.value() as f64 / 1e6 - 500.0).abs() < 0.1);
    assert!((decel.value() as f64 / 1e6 - 200.0).abs() < 0.1);
    assert!(traj.is_asymmetric());
}

#[test]
fn test_invalid_gear_ratio() {
    let config = motor("test", 200, 16, -1_000_000, 360, 720);
    let result = validate_motor("test", &config);
    assert!(matches!(result, Err(Error::Config(ConfigError::InvalidGearRatio(_)))));
}

#[test]
fn validate_motor_errors_in_order() {
    assert_eq!(validate_motor("m", &motor("m", 200, 1, 1_000_000, 1, 1)), Ok(()));
    assert_eq!(
        validate_motor("m", &motor("m", 200, 1, 1_000_000, 0, 1)),
        Err(Error::Config(ConfigError::InvalidMaxVelocity(0)))
    );
    assert_eq!(
        validate_motor("m", &motor("m", 200, 1, 1_000_000, 1, -1)),
        Err(Error::Config(ConfigError::InvalidMaxAcceleration(-1_000_000)))
    );
    let mut bad = motor("m", 200, 1, 0, 0, 0);
    assert_eq!(validate_motor("m", &bad), Err(Error::Config(ConfigError::InvalidGearRatio(0))));
    bad = motor("m", 200, 1, 1_000_000, 1, 1);
    bad.limits = Some(SoftLimits::new(deg(90), deg(-90), LimitPolicy::Reject));
    assert_eq!(
        validate_motor("m", &bad),
        Err(Error::Config(ConfigError::InvalidSoftLimits { min: 90_000_000, max: -90_000_000 }))
    );
}

#[test]
fn test_valid_config_passes_validation() {
    let mut config = SystemConfig::new();
    config.insert_motor("stepper1".to_string(), motor("main_axis", 200, 16, 1_000_000, 360, 720)).unwrap();
    config.insert_trajectory("move_90".to_string(), trajectory("stepper1", deg(90), 100)).unwrap();
    assert!(validate_config(&config).is_ok());
}

#[test]
fn test_trajectory_invalid_motor_reference() {
    let mut config = SystemConfig::new();
    config.insert_motor("stepper1".to_string(), motor("main_axis", 200, 16, 1_000_000, 360, 720)).unwrap();
    config.insert_trajectory(
        "bad_ref".to_string(),
        trajectory("nonexistent_motor", deg(90), default_velocity_percent()),
    ).unwrap();
    let result = validate_config(&config);
    assert!(result.is_err());
    assert_eq!(
        result,
        Err(Error::Trajectory(TrajectoryError::MotorNotFound {
            trajectory: "bad_ref".to_string(),
            motor: "nonexistent_motor".to_string(),
        }))
    );
}

#[test]
fn test_invalid_velocity_percent() {
    let mut config = SystemConfig::new();
    config.insert_motor("stepper1".to_string(), motor("main_axis", 200, 16, 1_000_000, 360, 720)).unwrap();
    config.insert_trajectory("too_fast".to_string(), trajectory("stepper1", deg(90), 250)).unwrap();
    let result = validate_config(&config);
    assert!(result.is_err());
    assert_eq!(result, Err(Error::Config(ConfigError::InvalidVelocityPercent(250))));
}

#[test]
fn test_invalid_soft_limits() {
    let mut m = motor("bad_limits", 200, 16, 1_000_000, 360, 720);
    m.limits = Some(SoftLimits::new(deg(90), deg(-90), LimitPolicy::Reject));
    let mut config = SystemConfig::new();
    config.insert_motor("stepper1".to_string(), m).unwrap();
    let result = validate_config(&config);
    assert!(result.is_err());
}

#[test]
fn test_empty_config_is_valid() {
    let config = SystemConfig::default();
    assert!(validate_config(&config).is_ok());
}

#[test]
fn validation_of_targets_and_sequences() {
    let mut config = full_config();
    assert_eq!(validate_config(&config), Ok(()));
    config.insert_trajectory("far".to_string(), trajectory("pan", deg(120), 100)).unwrap();
    assert_eq!(
        validate_config(&config),
        Err(Error::Trajectory(TrajectoryError::TargetExceedsLimits {
            target: 120_000_000,
            min: -90_000_000,
            max: 90_000_000,
        }))
    );
    let mut config = full_config();
    config.insert_sequence(
        "scan".to_string(),
        WaypointTrajectory { motor: "pan".to_string(), waypoints: WaypointList::new(), dwell_ms: 0, velocity_percent: 100 },
    ).unwrap();
    assert_eq!(validate_config(&config), Err(Error::Trajectory(TrajectoryError::EmptyWaypoints)));
}

#[test]
fn config_lookups() {
    let config = full_config();
    assert!(config.motor("pan").is_some());
    assert!(config.motor("tilt").is_none());
    assert_eq!(config.trajectory("home").unwrap().velocity_percent, 50);
    assert!(config.sequence("scan").is_none());
    assert_eq!(config.motor_names(), vec!["pan".to_string()]);
    assert_eq!(config.trajectory_names(), vec!["home".to_string(), "asymmetric".to_string()]);
    assert!(config.sequence_names().is_empty());
    assert_eq!(default_gear_ratio(), 1_000_000);
}

#[test]
fn t036_mechanical_constraints_derivation() {
    let config = minimal_config();
    let motor = config.motor("test_motor").unwrap();
    let constraints = MechanicalConstraints::from_config(motor);

    assert_eq!(constraints.steps_per_revolution, 3200);
    assert!((constraints.steps_per_revolution as f64 / 360.0 - 8.889).abs() < 0.01);
    assert!((constraints.max_velocity_steps_per_sec as f64 / 1000.0 - 3200.0).abs() < 1.0);
    assert!((constraints.max_acceleration_steps_per_sec2 as f64 / 1000.0 - 6400.0).abs() < 1.0);
}

#[test]
fn t036_constraints_with_gear_ratio() {
    let config = full_config();
    let motor = config.motor("pan").unwrap();
    let constraints = MechanicalConstraints::from_config(motor);
    assert_eq!(constraints.steps_per_revolution, 25600);
}

#[test]
fn constraint_conversions() {
    let c = test_constraints();
    assert_eq!(c.min_step_interval_ns, 312_500);
    assert_eq!(c.degrees_to_steps(deg(-45)), -400);
    assert_eq!(c.steps_to_degrees(400), deg(45));
    assert_eq!(c.velocity_to_steps(DegreesPerSec(-5)), 0);
    assert_eq!(c.velocity_to_steps(DegreesPerSec(180_000_000)), 1_600_000);
    assert_eq!(c.acceleration_to_steps(DegreesPerSecSquared(90_000_000)), 800_000);
    assert_eq!(c.velocity_to_interval_ns(0), u32::MAX);
    assert_eq!(c.velocity_to_interval_ns(3000), 333_333_333);
    assert_eq!(c.velocity_to_interval_ns(3), u32::MAX);
    assert_eq!(c.velocity_to_interval_ns(3_200_000), 312_500);
    assert_eq!(c.check_limits(123_456), Some(123_456));
    let pan = MechanicalConstraints::from_config(full_config().motor("pan").unwrap());
    assert_eq!(pan.check_limits(6400), Some(6400));
    assert_eq!(pan.check_limits(6401), None);
}

#[test]
fn slow_motor_constraints_are_exact() {
    // 1 deg/s at 200 steps/rev: 0.556 steps/s, a pulse every 1.8 s.
    let c = MechanicalConstraints::from_config(&motor("slow", 200, 1, 1_000_000, 1, 1));
    assert_eq!(c.steps_per_revolution, 200);
    assert_eq!(c.max_velocity_steps_per_sec, 555);
    assert_eq!(c.max_acceleration_steps_per_sec2, 555);
    assert_eq!(c.min_step_interval_ns, 1_800_000_000);
    let resting = MechanicalConstraints::from_config(&motor("rest", 200, 1, 1_000_000, 0, 1));
    assert_eq!(resting.min_step_interval_ns, u32::MAX);
}

#[test]
fn gear_ratio_in_millionths() {
    // 26/7 is 3.714286 to the millionth: 3200 * 3.714286 = 11885.7 steps.
    let config = motor("geared", 200, 16, 3_714_286, 360, 720);
    assert_eq!(config.total_steps_per_revolution(), 11885);
}

#[test]
fn t038_trajectory_constraint_validation() {
    let config = full_config();
    let motor = config.motor("pan").unwrap();
    let constraints = MechanicalConstraints::from_config(motor);
    let trajectory = config.trajectory("home").unwrap();
    let result = trajectory.check_feasibility(&constraints);
    assert!(result.is_ok(), "Home trajectory should be feasible");
}

#[test]
fn t038_velocity_percent_in_bounds() {
    let mut config = SystemConfig::new();
    config.insert_motor("m1".to_string(), motor("Motor", 200, 16, 1_000_000, 100, 200)).unwrap();
    config.insert_trajectory("t1".to_string(), trajectory("m1", deg(90), 50)).unwrap();
    let motor = config.motor("m1").unwrap();
    let constraints = MechanicalConstraints::from_config(motor);
    let trajectory = config.trajectory("t1").unwrap();

    let effective_velocity = trajectory.effective_velocity(&constraints);
    assert!((effective_velocity.value() as f64 / 1e6 - 50.0).abs() < 0.01);
    assert!(trajectory.check_feasibility(&constraints).is_ok());
}

#[test]
fn feasibility_errors() {
    let config = full_config();
    let c = MechanicalConstraints::from_config(config.motor("pan").unwrap());
    let mut t = trajectory("pan", deg(0), 0);
    assert_eq!(t.check_feasibility(&c), Err(Error::Config(ConfigError::InvalidVelocityPercent(0))));
    t.velocity_percent = 100;
    t.acceleration_percent = 201;
    assert_eq!(
        t.check_feasibility(&c),
        Err(Error::Config(ConfigError::InvalidAccelerationPercent(201)))
    );
    t.acceleration_percent = 100;
    t.target_degrees = deg(-100);
    assert_eq!(
        t.check_feasibility(&c),
        Err(Error::Trajectory(TrajectoryError::TargetExceedsLimits {
            target: -100_000_000,
            min: -90_000_000,
            max: 90_000_000,
        }))
    );
    t.target_degrees = deg(0);
    t.acceleration = Some(DegreesPerSecSquared(720_000_001));
    assert_eq!(
        t.check_feasibility(&c),
        Err(Error::Motion(MotionError::AccelerationExceedsLimit {
            requested: 720_000_001,
            max: 360_000_000,
        }))
    );
    t.acceleration = None;
    t.deceleration = Some(DegreesPerSecSquared(800_000_000));
    assert_eq!(
        t.check_feasibility(&c),
        Err(Error::Motion(MotionError::AccelerationExceedsLimit {
            requested: 800_000_000,
            max: 360_000_000,
        }))
    );
}

#[test]
fn t049_trajectory_registry_creation() {
    let config = full_config();
    let registry = TrajectoryRegistry::from_config(&config);
    assert_eq!(registry.len(), 2);
    assert!(!registry.is_empty());
}

#[test]
fn t049_registry_get_by_name() {
    let config = full_config();
    let registry = TrajectoryRegistry::from_config(&config);

    let home = registry.get("home");
    assert!(home.is_some());
    assert_eq!(home.unwrap().motor.as_str(), "pan");

    let missing = registry.get("nonexistent");
    assert!(missing.is_none());
}

#[test]
fn t050_lookup_returns_correct_trajectory() {
    let config = full_config();
    let registry = TrajectoryRegistry::from_config(&config);

    let home = registry.get("home").unwrap();
    assert_eq!(home.target_degrees.0, 0);
    assert_eq!(home.velocity_percent, 50);

    let asymmetric = registry.get("asymmetric").unwrap();
    assert_eq!(asymmetric.target_degrees.0, 45_000_000);
    assert!(asymmetric.acceleration.is_some());
    assert!(asymmetric.deceleration.is_some());
    assert!(asymmetric.is_asymmetric());
}

#[test]
fn t050_get_or_error_with_available_names() {
    let config = full_config();
    let registry = TrajectoryRegistry::from_config(&config);

    let result = registry.get_or_error("home");
    assert!(result.is_ok());

    let result = registry.get_or_error("nonexistent");
    assert!(result.is_err());

    let err = result.unwrap_err();
    let err_str = format!("{:?}", err);
    assert!(
        err_str.contains("home") || err_str.contains("asymmetric") || err_str.contains("Available"),
        "Error should list available names: {}",
        err_str
    );
    assert_eq!(
        err,
        Error::Trajectory(TrajectoryError::InvalidName(
            "'nonexistent' not found. Available: home, asymmetric".to_string()
        ))
    );
}

#[test]
fn t051_named_trajectory_execution_flow() {
    let config = full_config();
    let registry = TrajectoryRegistry::from_config(&config);

    let trajectory = registry.get("asymmetric").unwrap();
    let motor = config.motor(&trajectory.motor).unwrap();
    let constraints = MechanicalConstraints::from_config(motor);

    let feasibility = trajectory.check_feasibility(&constraints);
    assert!(feasibility.is_ok());

    let effective_velocity = trajectory.effective_velocity(&constraints).value() as f64 / 1e6;
    let effective_accel = trajectory.effective_acceleration(&constraints).value() as f64 / 1e6;
    let effective_decel = trajectory.effective_deceleration(&constraints).value() as f64 / 1e6;

    assert!(
        (effective_accel - effective_decel).abs() > 0.01,
        "Asymmetric trajectory should have different accel ({}) vs decel ({})",
        effective_accel,
        effective_decel
    );
    assert!((effective_velocity - 180.0).abs() < 0.01);
    assert!((effective_accel - 288.0).abs() < 0.1);
    assert!((effective_decel - 180.0).abs() < 0.1);
}

#[test]
fn t051_complete_execution_workflow() {
    let config = full_config();
    let registry = TrajectoryRegistry::from_config(&config);

    for (name, trajectory) in registry.iter() {
        let motor = config.motor(&trajectory.motor);
        assert!(motor.is_some(), "Trajectory '{}' references invalid motor '{}'", name, trajectory.motor);

        let motor = motor.unwrap();
        let constraints = MechanicalConstraints::from_config(motor);
        let feasibility = trajectory.check_feasibility(&constraints);
        assert!(feasibility.is_ok(), "Trajectory '{}' should be feasible: {:?}", name, feasibility.err());
    }
}

#[test]
fn registry_register_replace_remove() {
    let mut registry = TrajectoryRegistry::default();
    let t = |p: u8| trajectory("m", deg(1), p);
    registry.register("a", t(10)).unwrap();
    registry.register("b", t(20)).unwrap();
    registry.register("a", t(30)).unwrap();
    assert_eq!(registry.len(), 2);
    assert_eq!(registry.names(), vec!["a".to_string(), "b".to_string()]);
    assert_eq!(registry.get("a").unwrap().velocity_percent, 30);
    assert!(registry.contains("b"));
    assert_eq!(
        registry.register(&"x".repeat(33), t(1)),
        Err(Error::Trajectory(TrajectoryError::InvalidName("name too long".to_string())))
    );
    for i in 0..30 {
        registry.register(&format!("n{}", i), t(1)).unwrap();
    }
    assert_eq!(registry.len(), 32);
    assert_eq!(
        registry.register("one_more", t(1)),
        Err(Error::Trajectory(TrajectoryError::InvalidName("registry full".to_string())))
    );
    registry.register("b", t(99)).unwrap();
    assert_eq!(registry.remove("a").unwrap().velocity_percent, 30);
    assert_eq!(registry.names()[0], "n29");
    assert!(registry.remove("a").is_none());
    registry.clear();
    assert!(registry.is_empty());
}

#[test]
fn registry_from_config_keeps_the_first_32_short_names() {
    let mut config = SystemConfig::new();
    config.insert_motor("m".to_string(), motor("m", 200, 1, 1_000_000, 1, 1)).unwrap();
    config.insert_trajectory("x".repeat(33), trajectory("m", deg(1), 100)).unwrap();
    for i in 0..40 {
        config.insert_trajectory(format!("t{}", i), trajectory("m", deg(1), 100)).unwrap();
    }
    assert_eq!(config.trajectory_names().len(), 41);
    let registry = TrajectoryRegistry::from_config(&config);
    assert_eq!(registry.len(), 32);
    assert_eq!(registry.names()[0], "t0");
    assert_eq!(registry.names()[31], "t31");
    assert!(!registry.contains("t32"));
}

#[test]
fn configuration_holds_64_trajectories() {
    let mut config = SystemConfig::new();
    for i in 0..64 {
        config.insert_trajectory(format!("t{}", i), trajectory("m", deg(1), 100)).unwrap();
    }
    assert!(config.insert_trajectory("t64".to_string(), trajectory("m", deg(1), 100)).is_err());
    assert!(config.insert_trajectory("t5".to_string(), trajectory("m", deg(2), 100)).is_ok());
    assert_eq!(config.trajectory("t5").unwrap().target_degrees, deg(2));
}
