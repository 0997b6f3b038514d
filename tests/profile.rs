use stepper_motion::motion::executor::MotionExecutor;
use stepper_motion::motion::profile::{Direction, MotionPhase, MotionProfile};

#[test]
fn profile_test_symmetric_profile() {
    let profile = MotionProfile::symmetric_trapezoidal(
        1000,      // steps
        1_000_000, // 1000 steps/sec, in thousandths
        2_000_000, // 2000 steps/sec², in thousandths
    );

    assert_eq!(profile.total_steps, 1000);
    assert_eq!(profile.direction, Direction::Clockwise);
    assert!(profile.accel_steps > 0);
    assert!(profile.cruise_steps > 0);
    assert_eq!(profile.accel_steps, profile.decel_steps);
}

#[test]
fn profile_test_asymmetric_profile() {
    let profile = MotionProfile::asymmetric_trapezoidal(
        1000,      // steps
        1_000_000, // 1000 steps/sec
        2_000_000, // accel 2000 steps/sec²
        1_000_000, // decel 1000 steps/sec² (slower)
    );

    assert!(profile.decel_steps > profile.accel_steps);
}

#[test]
fn test_triangle_profile() {
    let profile = MotionProfile::symmetric_trapezoidal(
        100,        // only 100 steps
        10_000_000, // very high max velocity: 10000 steps/sec
        1_000_000,  // moderate acceleration: 1000 steps/sec²
    );

    assert_eq!(profile.cruise_steps, 0);
}

#[test]
fn test_direction() {
    let cw = MotionProfile::symmetric_trapezoidal(100, 1_000_000, 2_000_000);
    let ccw = MotionProfile::symmetric_trapezoidal(-100, 1_000_000, 2_000_000);

    assert_eq!(cw.direction, Direction::Clockwise);
    assert_eq!(ccw.direction, Direction::CounterClockwise);
    assert_eq!(cw.total_steps, ccw.total_steps);
}

#[test]
fn symmetric_profile_exact_lengths() {
    // Each ramp is v²/(2a) = 1000² / 4000 = 250 steps.
    let p = MotionProfile::symmetric_trapezoidal(1000, 1_000_000, 2_000_000);
    assert_eq!((p.accel_steps, p.cruise_steps, p.decel_steps), (250, 500, 250));
    // 1e9 / sqrt(4000) = 15811388.3 ns; 1e9 / 1000 = 1000000 ns.
    assert_eq!(p.initial_interval_ns, 15_811_388);
    assert_eq!(p.cruise_interval_ns, 1_000_000);
    assert_eq!(p.accel_rate, 2_000_000);
    assert_eq!(p.decel_rate, 2_000_000);
}

#[test]
fn triangle_profile_exact_split() {
    // Ramps of 10000² / 2000 = 50000 steps each do not fit 100 steps.
    let p = MotionProfile::symmetric_trapezoidal(100, 10_000_000, 1_000_000);
    assert_eq!((p.accel_steps, p.cruise_steps, p.decel_steps), (50, 0, 50));
    // Uneven rates split the move in proportion: 100 · 3000 / 4000 = 75.
    let q = MotionProfile::asymmetric_trapezoidal(100, 10_000_000, 3_000_000, 1_000_000);
    assert_eq!((q.accel_steps, q.cruise_steps, q.decel_steps), (75, 0, 25));
}

#[test]
fn asymmetric_profile_exact_lengths() {
    let p = MotionProfile::asymmetric_trapezoidal(1000, 1_000_000, 2_000_000, 1_000_000);
    assert_eq!((p.accel_steps, p.cruise_steps, p.decel_steps), (250, 250, 500));
    assert_eq!(p.total_steps, 1000);
}

#[test]
fn symmetric_odd_triangle_gives_deceleration_the_extra_step() {
    let p = MotionProfile::symmetric_trapezoidal(101, 10_000_000, 1_000_000);
    assert_eq!((p.accel_steps, p.cruise_steps, p.decel_steps), (50, 0, 51));
}

#[test]
fn ramps_that_exactly_fill_the_move_never_cruise() {
    // v²/(2a) + v²/(2d) = 250 + 250 = 500 = steps.
    let p = MotionProfile::symmetric_trapezoidal(500, 1_000_000, 2_000_000);
    assert_eq!(p.cruise_steps, 0);
    assert_eq!(p.accel_steps + p.decel_steps, 500);
}

#[test]
fn zero_profiles() {
    let z = MotionProfile::zero();
    assert!(z.is_zero());
    assert_eq!(z.initial_interval_ns, u32::MAX);
    assert_eq!(z.cruise_interval_ns, u32::MAX);
    assert_eq!(MotionProfile::symmetric_trapezoidal(0, 1_000_000, 2_000_000), z);
    assert_eq!(MotionProfile::symmetric_trapezoidal(-10, 0, 2_000_000), z);
    assert_eq!(MotionProfile::asymmetric_trapezoidal(10, 1_000_000, 2_000_000, 0), z);
    assert_eq!(z.estimated_duration_ns(), 0);
}

#[test]
fn phases_and_intervals() {
    let p = MotionProfile::symmetric_trapezoidal(1000, 1_000_000, 2_000_000);
    assert_eq!(p.phase_at(0), MotionPhase::Accelerating);
    assert_eq!(p.phase_at(249), MotionPhase::Accelerating);
    assert_eq!(p.phase_at(250), MotionPhase::Cruising);
    assert_eq!(p.phase_at(749), MotionPhase::Cruising);
    assert_eq!(p.phase_at(750), MotionPhase::Decelerating);
    assert_eq!(p.phase_at(999), MotionPhase::Decelerating);
    assert_eq!(p.phase_at(1000), MotionPhase::Complete);

    assert_eq!(p.interval_at(0), 15_811_388);
    assert_eq!(p.interval_at(300), 1_000_000);
    assert_eq!(p.interval_at(1000), u32::MAX);
    // Halfway up: 15811388 - 14811388 · 125/250 = 8405694.
    assert_eq!(p.interval_at(125), 8_405_694);
    // Halfway down: 1000000 + 14811388 · 125/250 = 8405694.
    assert_eq!(p.interval_at(875), 8_405_694);
    // One step in: 15811388 - 14811388/250 = 15752142.448.
    assert_eq!(p.interval_at(1), 15_752_142);
}

#[test]
fn phases_never_go_back() {
    let p = MotionProfile::asymmetric_trapezoidal(300, 800_000, 5_000_000, 900_000);
    let rank = |ph: MotionPhase| match ph {
        MotionPhase::Accelerating => 0,
        MotionPhase::Cruising => 1,
        MotionPhase::Decelerating => 2,
        MotionPhase::Complete => 3,
    };
    let mut last = 0;
    for s in 0..=301u32 {
        let r = rank(p.phase_at(s));
        assert!(r >= last);
        last = r;
    }
}

#[test]
fn estimated_duration() {
    // Ramps: 1e18 / (1e6 · 2000) = 500000000 ns each; cruise 500 · 1e6 ns.
    let p = MotionProfile::symmetric_trapezoidal(1000, 1_000_000, 2_000_000);
    assert_eq!(p.estimated_duration_ns(), 1_500_000_000);
}

#[test]
fn direction_helpers() {
    assert_eq!(Direction::from_steps(0), Direction::Clockwise);
    assert_eq!(Direction::from_steps(5), Direction::Clockwise);
    assert_eq!(Direction::from_steps(-5), Direction::CounterClockwise);
    assert_eq!(Direction::Clockwise.sign(), 1);
    assert_eq!(Direction::CounterClockwise.sign(), -1);
}

#[test]
fn test_executor_complete() {
    let profile = MotionProfile::symmetric_trapezoidal(10, 1_000_000, 2_000_000);
    let mut executor = MotionExecutor::new(profile);

    assert!(!executor.is_complete());
    assert_eq!(executor.current_step(), 0);

    while executor.advance() {}

    assert!(executor.is_complete());
    assert_eq!(executor.current_step(), 10);
}

#[test]
fn test_zero_profile() {
    let profile = MotionProfile::zero();
    let executor = MotionExecutor::new(profile);

    assert!(executor.is_complete());
    assert_eq!(executor.steps_remaining(), 0);
}

#[test]
fn test_phase_transitions() {
    let profile = MotionProfile::symmetric_trapezoidal(100, 1_000_000, 2_000_000);
    let mut executor = MotionExecutor::new(profile);

    let mut saw_accel = false;
    let mut saw_decel = false;

    while !executor.is_complete() {
        match executor.phase() {
            MotionPhase::Accelerating => saw_accel = true,
            MotionPhase::Cruising => {}
            MotionPhase::Decelerating => saw_decel = true,
            MotionPhase::Complete => {}
        }
        executor.advance();
    }

    assert!(saw_accel);
    assert!(saw_decel);
}

#[test]
fn advancing_total_steps_times_completes() {
    let profile = MotionProfile::asymmetric_trapezoidal(37, 1_000_000, 4_000_000, 1_500_000);
    let mut executor = MotionExecutor::new(profile);
    for k in 0..37u32 {
        let more = executor.advance();
        assert_eq!(more, k + 1 < 37);
    }
    assert!(executor.is_complete());
    assert_eq!(executor.current_step(), 37);
    assert_eq!(executor.current_interval_ns(), u32::MAX);
    assert_eq!(executor.steps_remaining(), 0);
    assert_eq!(executor.progress(), 1_000_000);
    // One more advance asks for no pulse and changes nothing.
    assert!(!executor.advance());
    assert_eq!(executor.current_step(), 37);
    assert!(executor.is_complete());
}

#[test]
fn executor_follows_the_profile_and_resets() {
    let profile = MotionProfile::symmetric_trapezoidal(1000, 1_000_000, 2_000_000);
    let mut executor = MotionExecutor::new(profile);
    assert_eq!(executor.current_interval_ns(), 15_811_388);
    assert_eq!(executor.total_steps(), 1000);
    for _ in 0..125 {
        assert!(executor.advance());
    }
    assert_eq!(executor.current_interval_ns(), 8_405_694);
    assert_eq!(executor.steps_remaining(), 875);
    assert_eq!(executor.progress(), 125_000);
    assert_eq!(executor.profile().accel_steps, 250);
    executor.reset();
    assert_eq!(executor.current_step(), 0);
    assert_eq!(executor.phase(), MotionPhase::Accelerating);
    assert_eq!(executor.current_interval_ns(), 15_811_388);
}
