use stepper_motion::config::motor::MotorConfig;
use stepper_motion::config::system::SystemConfig;
use stepper_motion::config::trajectory::TrajectoryConfig;
use stepper_motion::config::units::{Degrees, DegreesPerSec, DegreesPerSecSquared, Microsteps};
use stepper_motion::motor::system::MotorSystem;
use stepper_motion::trajectory::builder::{TrajectoryBuilder, WaypointTrajectoryBuilder};
use stepper_motion::{ConfigError, Error, TrajectoryError};

fn motor(name: &str, base: u16, micro: u16, vel: i64, acc: i64) -> MotorConfig {
    MotorConfig {
        name: name.to_string(),
        steps_per_revolution: base,
        microsteps: Microsteps::new(micro).unwrap(),
        gear_ratio: 1_000_000,
        max_velocity: DegreesPerSec(vel * 1_000_000),
        max_acceleration: DegreesPerSecSquared(acc * 1_000_000),
        invert_direction: false,
        limits: None,
        backlash_compensation: None,
    }
}

fn home(motor: &str) -> TrajectoryConfig {
    TrajectoryBuilder::new().motor(motor).target(Degrees(0)).velocity_percent(50).build().unwrap()
}

fn test_config() -> SystemConfig {
    let mut c = SystemConfig::new();
    c.insert_motor("x_axis".to_string(), motor("X Axis", 200, 16, 360, 720)).unwrap();
    c.insert_motor("y_axis".to_string(), motor("Y Axis", 400, 8, 180, 360)).unwrap();
    c.insert_trajectory("home_x".to_string(), home("x_axis")).unwrap();
    c.insert_trajectory("home_y".to_string(), home("y_axis")).unwrap();
    c
}

#[test]
fn test_motor_system_creation() {
    let system = MotorSystem::from_config(test_config());
    assert!(system.has_motor("x_axis"));
    assert!(system.has_motor("y_axis"));
    assert!(!system.has_motor("z_axis"));
}

#[test]
fn test_motor_names() {
    let system = MotorSystem::from_config(test_config());
    let names = system.motor_names();
    assert!(names.contains(&"x_axis".to_string()));
    assert!(names.contains(&"y_axis".to_string()));
}

#[test]
fn test_constraints_lookup() {
    let system = MotorSystem::from_config(test_config());
    let constraints = system.constraints("x_axis").unwrap();
    assert_eq!(constraints.steps_per_revolution, 3200);
    let constraints = system.constraints("y_axis").unwrap();
    assert_eq!(constraints.steps_per_revolution, 3200);
}

#[test]
fn test_trajectories_for_motor() {
    let system = MotorSystem::from_config(test_config());
    let x = system.trajectories_for_motor("x_axis");
    assert!(x.contains(&"home_x".to_string()));
    assert!(!x.contains(&"home_y".to_string()));
    let y = system.trajectories_for_motor("y_axis");
    assert!(y.contains(&"home_y".to_string()));
    assert!(!y.contains(&"home_x".to_string()));
}

#[test]
fn test_trajectory_lookup() {
    let system = MotorSystem::from_config(test_config());
    let traj = system.trajectory("home_x");
    assert!(traj.is_ok());
    assert_eq!(traj.unwrap().motor.as_str(), "x_axis");
    assert!(system.trajectory("nonexistent").is_err());
}

#[test]
fn registering_motors() {
    let mut system = MotorSystem::from_config(test_config());
    assert_eq!(system.registered_count(), 0);
    let m = system.register_motor("x_axis").unwrap();
    assert_eq!(m.name(), "X Axis");
    assert_eq!(m.constraints().steps_per_revolution, 3200);
    assert!(system.is_registered("x_axis"));
    assert!(!system.is_registered("y_axis"));
    system.register_motor("x_axis").unwrap();
    assert_eq!(system.registered_count(), 1);
    assert_eq!(system.registered_constraints("x_axis").unwrap().max_velocity_steps_per_sec, 3_200_000);
    match system.register_motor("z_axis") {
        Err(Error::Config(ConfigError::MotorNotFound(n))) => assert_eq!(n, "z_axis"),
        _ => panic!("unknown motor was registered"),
    }
    assert_eq!(system.registered_count(), 1);
    let y = system.build_motor("y_axis").unwrap();
    assert_eq!(y.constraints().max_velocity_steps_per_sec, 1_600_000);
    assert!(!system.is_registered("y_axis"));
    assert!(system.motor_config("y_axis").is_some());
    assert_eq!(system.config().motor_names().len(), 2);
    assert_eq!(system.trajectories().len(), 2);
}

#[test]
fn trajectory_builder() {
    let t = TrajectoryBuilder::default()
        .motor("pan")
        .target(Degrees(45_000_000))
        .velocity_percent(250)
        .acceleration_percent(0)
        .asymmetric(DegreesPerSecSquared(2), DegreesPerSecSquared(1))
        .dwell(100)
        .build()
        .unwrap();
    assert_eq!(t.velocity_percent, 200);
    assert_eq!(t.acceleration_percent, 1);
    assert!(t.is_asymmetric());
    assert_eq!(t.dwell_ms, Some(100));
    let t = TrajectoryBuilder::new()
        .motor("pan")
        .target(Degrees(1))
        .acceleration(DegreesPerSecSquared(3))
        .deceleration(DegreesPerSecSquared(3))
        .build()
        .unwrap();
    assert!(!t.is_asymmetric());
    match TrajectoryBuilder::new().target(Degrees(1)).build() {
        Err(Error::Trajectory(TrajectoryError::InvalidName(m))) => assert_eq!(m, "motor not specified"),
        _ => panic!("built without a motor"),
    }
    match TrajectoryBuilder::new().motor("pan").build() {
        Err(Error::Trajectory(TrajectoryError::InvalidName(m))) => assert_eq!(m, "target not specified"),
        _ => panic!("built without a target"),
    }
}

#[test]
fn waypoint_builder() {
    let w = WaypointTrajectoryBuilder::default()
        .motor("pan")
        .waypoint(Degrees(1))
        .waypoints(&[Degrees(2), Degrees(3)])
        .velocity_percent(75)
        .dwell(100)
        .build()
        .unwrap();
    assert_eq!(w.waypoints.to_vec(), vec![Degrees(1), Degrees(2), Degrees(3)]);
    assert_eq!(w.velocity_percent, 75);
    assert_eq!(w.dwell_ms, 100);
    let many: Vec<Degrees> = (0..40).map(Degrees).collect();
    let w = WaypointTrajectoryBuilder::new().motor("pan").waypoints(&many).build().unwrap();
    assert_eq!(w.waypoints.len(), 32);
    assert_eq!(w.waypoints.to_vec()[31], Degrees(31));
    assert!(matches!(
        WaypointTrajectoryBuilder::new().motor("pan").build(),
        Err(Error::Trajectory(TrajectoryError::Empty))
    ));
    assert!(WaypointTrajectoryBuilder::new().waypoint(Degrees(1)).build().is_err());
}
