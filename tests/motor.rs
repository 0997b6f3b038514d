use stepper_motion::config::limits::{LimitPolicy, SoftLimits};
use stepper_motion::config::mechanical::MechanicalConstraints;
use stepper_motion::config::motor::MotorConfig;
use stepper_motion::config::units::{Degrees, DegreesPerSec, DegreesPerSecSquared, Microsteps};
use stepper_motion::motion::profile::{Direction, MotionPhase};
use stepper_motion::motor::builder::StepperMotorBuilder;
use stepper_motion::motor::driver::StepperMotor;
use stepper_motion::motor::state::Idle;
use stepper_motion::{Error, MotionError, MotorError, TrajectoryError};
use stepper_motion::config::trajectory::TrajectoryConfig;
use stepper_motion::trajectory::registry::TrajectoryRegistry;

fn deg(d: i64) -> Degrees {
    Degrees(d * 1_000_000)
}

fn motor_config(limits: Option<SoftLimits>) -> MotorConfig {
    MotorConfig {
        name: "x_axis".to_string(),
        steps_per_revolution: 200,
        microsteps: Microsteps::new(16).unwrap(),
        gear_ratio: 1_000_000,
        max_velocity: DegreesPerSec(360_000_000),
        max_acceleration: DegreesPerSecSquared(720_000_000),
        invert_direction: false,
        limits,
        backlash_compensation: None,
    }
}

fn idle_motor(limits: Option<SoftLimits>) -> StepperMotor<Idle> {
    StepperMotorBuilder::new().from_motor_config(&motor_config(limits)).build().unwrap()
}

fn run(mut m: StepperMotor<stepper_motion::motor::state::Moving>) -> StepperMotor<Idle> {
    let mut pulses = 0u32;
    while m.pulse_due().unwrap() {
        m.step().unwrap();
        pulses += 1;
        assert!(pulses <= 1_000_000);
    }
    m.finish()
}

#[test]
fn quarter_turn_at_3200_steps_per_rev() {
    let m = StepperMotorBuilder::new()
        .steps_per_revolution(200)
        .microsteps(Microsteps::new(16).unwrap())
        .gear_ratio(1_000_000)
        .max_velocity(DegreesPerSec(360_000_000))
        .max_acceleration(DegreesPerSecSquared(720_000_000))
        .build()
        .unwrap();
    assert_eq!(m.constraints().steps_per_revolution, 3200);
    let plan = m.plan_move(deg(90)).unwrap();
    assert_eq!(plan.total_steps, 800);
    let moving = m.move_to(deg(90), true).map_err(|(_, e)| e).unwrap();
    let idle = run(moving);
    assert_eq!(idle.position_steps().value(), 800);
    assert!((idle.position_degrees().value() as f64 / 1e6 - 90.0).abs() < 0.01);
    assert_eq!(idle.position_degrees().value(), 90_000_000);
}

#[test]
fn reject_limit_refuses_91_degrees() {
    let limits = SoftLimits::new(deg(-90), deg(90), LimitPolicy::Reject);
    let m = idle_motor(Some(limits));
    match m.move_to(deg(91), true) {
        Ok(_) => panic!("move past the limit was accepted"),
        Err((back, e)) => {
            assert_eq!(e, Error::Motor(MotorError::LimitExceeded { position: 808, limit: 800 }));
            assert_eq!(back.state_name(), "Idle");
            assert_eq!(back.position_steps().value(), 0);
        }
    }
}

#[test]
fn move_to_current_position_is_too_short() {
    let mut m = idle_motor(None);
    m.set_position(deg(45));
    let here = m.position_degrees();
    match m.move_to(here, true) {
        Ok(_) => panic!("empty move was accepted"),
        Err((back, e)) => {
            assert_eq!(e, Error::Motion(MotionError::MoveTooShort { steps: 0, minimum: 1 }));
            assert_eq!(back.position_steps().value(), 400);
            assert_eq!(back.position_degrees(), here);
        }
    }
}

#[test]
fn clamp_limit_ends_the_move_at_the_bound() {
    let limits = SoftLimits::new(deg(-90), deg(90), LimitPolicy::Clamp);
    let m = idle_motor(Some(limits));
    let plan = m.plan_move(deg(91)).unwrap();
    assert_eq!(plan.total_steps, 800);
    let idle = run(m.move_to(deg(91), true).map_err(|(_, e)| e).unwrap());
    assert_eq!(idle.position_steps().value(), 800);
    // Already at the bound: the clamped move is too short.
    match idle.move_to(deg(120), true) {
        Ok(_) => panic!("empty clamped move was accepted"),
        Err((back, e)) => {
            assert_eq!(e, Error::Motion(MotionError::MoveTooShort { steps: 0, minimum: 1 }));
            assert_eq!(back.position_steps().value(), 800);
        }
    }
}

#[test]
fn slow_motor_still_moves() {
    // 1 deg/s at 200 steps/rev is 0.556 steps/s.
    let m = StepperMotorBuilder::new()
        .steps_per_revolution(200)
        .max_velocity(DegreesPerSec(1_000_000))
        .max_acceleration(DegreesPerSecSquared(1_000_000))
        .build()
        .unwrap();
    assert_eq!(m.constraints().max_velocity_steps_per_sec, 555);
    assert_eq!(m.constraints().min_step_interval_ns, 1_800_000_000);
    let moving = m.move_to(deg(9), true).map_err(|(_, e)| e).unwrap();
    assert!(!moving.is_complete());
    let idle = run(moving);
    assert_eq!(idle.position_steps().value(), 5);
}

#[test]
fn failed_direction_write_hands_the_motor_back() {
    let m = idle_motor(None);
    assert_eq!(m.direction_level(Direction::CounterClockwise), Some(false));
    match m.move_to(deg(-10), false) {
        Ok(_) => panic!("move went ahead without its DIR write"),
        Err((back, e)) => {
            assert_eq!(e, Error::Motor(MotorError::PinError));
            assert_eq!(back.direction_level(Direction::CounterClockwise), Some(false));
        }
    }
}

#[test]
fn direction_is_written_only_on_change() {
    let m = idle_motor(None);
    assert_eq!(m.direction_level(Direction::Clockwise), Some(true));
    let idle = run(m.move_to(deg(1), true).map_err(|(_, e)| e).unwrap());
    assert_eq!(idle.direction_level(Direction::Clockwise), None);
    assert_eq!(idle.direction_level(Direction::CounterClockwise), Some(false));
    // Same direction again: no write needed, so a failed write is ignored.
    let idle = run(idle.move_to(deg(2), false).map_err(|(_, e)| e).unwrap());
    assert_eq!(idle.position_steps().value(), 17);
}

#[test]
fn inverted_direction_swaps_levels() {
    let mut cfg = motor_config(None);
    cfg.invert_direction = true;
    let m = StepperMotorBuilder::new().from_motor_config(&cfg).build().unwrap();
    assert_eq!(m.direction_level(Direction::Clockwise), Some(false));
    assert_eq!(m.direction_level(Direction::CounterClockwise), Some(true));
}

#[test]
fn stepping_reports_waits_and_moves_one_step_each() {
    let m = idle_motor(None);
    let mut moving = m.move_to(deg(-1), true).map_err(|(_, e)| e).unwrap();
    assert_eq!(moving.phase(), MotionPhase::Accelerating);
    assert_eq!(moving.progress(), 0);
    let first = moving.step().unwrap();
    assert!(!first.complete);
    // 6400 steps/s²: first interval 1e9 / sqrt(12800) = 8838834 ns, less the pulse.
    assert_eq!(first.wait_ns, 8_838_834 - 2000);
    assert_eq!(moving.position_steps().value(), -1);
    let mut reports = 1;
    while moving.pulse_due().unwrap() {
        let r = moving.step().unwrap();
        reports += 1;
        if r.complete {
            assert_eq!(r.wait_ns, 0);
        }
    }
    assert_eq!(reports, 8);
    assert!(moving.is_complete());
    assert_eq!(moving.phase(), MotionPhase::Complete);
    let after = moving.step().unwrap();
    assert!(after.complete);
    let idle = moving.finish();
    assert_eq!(idle.position_steps().value(), -8);
}

#[test]
fn abandoned_move_keeps_the_steps_issued() {
    let m = idle_motor(None);
    let mut moving = m.move_to(deg(90), true).map_err(|(_, e)| e).unwrap();
    for _ in 0..10 {
        moving.step().unwrap();
    }
    assert_eq!(moving.progress(), 12_500);
    let idle = moving.finish();
    assert_eq!(idle.position_steps().value(), 10);
}

#[test]
fn move_by_is_relative() {
    let mut m = idle_motor(None);
    m.set_position(deg(10));
    let idle = run(m.move_by(deg(-20), true).map_err(|(_, e)| e).unwrap());
    assert_eq!(idle.position_steps().value(), -89);
    let mut idle = idle;
    idle.set_origin();
    assert_eq!(idle.position_steps().value(), 0);
}

#[test]
fn builder_requires_parameters_in_order() {
    match StepperMotorBuilder::new().build() {
        Err(Error::Config(stepper_motion::ConfigError::ParseError(m))) => {
            assert_eq!(m, "steps_per_revolution is required")
        }
        _ => panic!("expected a parse error"),
    }
    match StepperMotorBuilder::new().steps_per_revolution(200).build() {
        Err(Error::Config(stepper_motion::ConfigError::ParseError(m))) => {
            assert_eq!(m, "max_velocity is required")
        }
        _ => panic!("expected a parse error"),
    }
    match StepperMotorBuilder::new()
        .steps_per_revolution(200)
        .max_velocity(DegreesPerSec(1))
        .build()
    {
        Err(Error::Config(stepper_motion::ConfigError::ParseError(m))) => {
            assert_eq!(m, "max_acceleration is required")
        }
        _ => panic!("expected a parse error"),
    }
    let m = StepperMotorBuilder::new()
        .steps_per_revolution(200)
        .max_velocity(DegreesPerSec(1))
        .max_acceleration(DegreesPerSecSquared(1))
        .invert_direction(true)
        .backlash_steps(3)
        .build()
        .unwrap();
    assert_eq!(m.name(), "motor");
    assert_eq!(m.constraints().steps_per_revolution, 200);
    assert_eq!(m.backlash_steps(), 3);
}

#[test]
fn builder_names() {
    let m = StepperMotorBuilder::new()
        .name("pan")
        .from_motor_config(&motor_config(None))
        .name("tilt")
        .build()
        .unwrap();
    assert_eq!(m.name(), "tilt");
    let long = "a".repeat(33);
    let b = StepperMotorBuilder::new().name(&long);
    assert!(b.name.is_none());
}

#[test]
fn backlash_from_description() {
    let mut cfg = motor_config(None);
    cfg.backlash_compensation = Some(Degrees(500_000));
    let m = StepperMotorBuilder::new().from_motor_config(&cfg).build().unwrap();
    // 0.5° at 3200 steps/rev is 4.44 steps.
    assert_eq!(m.backlash_steps(), 4);
}

#[test]
fn constraints_are_kept() {
    let m = idle_motor(None);
    let c: &MechanicalConstraints = m.constraints();
    assert_eq!(c.max_velocity_steps_per_sec, 3_200_000);
    assert_eq!(c.max_acceleration_steps_per_sec2, 6_400_000);
}

#[test]
fn trajectory_target_checks_name_and_motor() {
    let m = idle_motor(None);
    let mut registry = TrajectoryRegistry::new();
    let traj = |motor: &str, target: Degrees| TrajectoryConfig {
        motor: motor.to_string(),
        target_degrees: target,
        velocity_percent: 100,
        acceleration_percent: 100,
        acceleration: None,
        deceleration: None,
        dwell_ms: None,
    };
    registry.register("home", traj("x_axis", deg(30))).unwrap();
    registry.register("other", traj("y_axis", deg(10))).unwrap();
    assert_eq!(m.trajectory_target("home", &registry), Ok(deg(30)));
    assert_eq!(
        m.trajectory_target("nope", &registry),
        Err(Error::Trajectory(TrajectoryError::InvalidName("trajectory 'nope' not found".to_string())))
    );
    assert_eq!(
        m.trajectory_target("other", &registry),
        Err(Error::Trajectory(TrajectoryError::InvalidName(
            "trajectory 'other' is for motor 'y_axis'".to_string()
        )))
    );
}

#[test]
fn move_without_velocity_completes_at_once() {
    let m = StepperMotorBuilder::new()
        .steps_per_revolution(200)
        .max_velocity(DegreesPerSec(0))
        .max_acceleration(DegreesPerSecSquared(720_000_000))
        .build()
        .unwrap();
    let moving = m.move_to(deg(-90), true).map_err(|(_, e)| e).unwrap();
    assert!(moving.is_complete());
    assert_eq!(moving.pulse_due(), Ok(false));
}
