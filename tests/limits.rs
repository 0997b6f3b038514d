use stepper_motion::config::limits::{LimitPolicy, SoftLimits, StepLimits};
use stepper_motion::config::units::Degrees;

fn deg(d: i64) -> Degrees {
    Degrees(d * 1_000_000)
}

#[test]
fn test_soft_limits_reject() {
    let limits = SoftLimits::new(deg(-180), deg(180), LimitPolicy::Reject);

    assert!(limits.apply(deg(0)).is_some());
    assert!(limits.apply(deg(180)).is_some());
    assert!(limits.apply(deg(-180)).is_some());
    assert!(limits.apply(deg(181)).is_none());
    assert!(limits.apply(deg(-181)).is_none());
}

#[test]
fn test_soft_limits_clamp() {
    let limits = SoftLimits::new(deg(-180), deg(180), LimitPolicy::Clamp);

    assert_eq!(limits.apply(deg(0)).unwrap().0, 0);
    assert_eq!(limits.apply(deg(360)).unwrap().0, deg(180).0);
    assert_eq!(limits.apply(deg(-360)).unwrap().0, deg(-180).0);
}

#[test]
fn t037_soft_limit_clamp() {
    let limits = SoftLimits::new(deg(-90), deg(90), LimitPolicy::Clamp);

    let result = limits.apply(deg(0));
    assert!(result.is_some());
    assert_eq!(result.unwrap().0, 0);

    let result = limits.apply(deg(45));
    assert!(result.is_some());
    assert_eq!(result.unwrap().0, deg(45).0);

    let result = limits.apply(deg(-180));
    assert!(result.is_some());
    assert_eq!(result.unwrap().0, deg(-90).0);

    let result = limits.apply(deg(180));
    assert!(result.is_some());
    assert_eq!(result.unwrap().0, deg(90).0);
}

#[test]
fn t037_soft_limit_reject() {
    let limits = SoftLimits::new(deg(-90), deg(90), LimitPolicy::Reject);

    assert!(limits.apply(deg(0)).is_some());
    assert!(limits.apply(deg(90)).is_some());
    assert!(limits.apply(deg(-90)).is_some());

    assert!(limits.apply(deg(-91)).is_none());
    assert!(limits.apply(deg(91)).is_none());
}

#[test]
fn t037_soft_limit_contains() {
    let limits = SoftLimits::new(deg(-90), deg(90), LimitPolicy::Reject);

    assert!(limits.contains(deg(0)));
    assert!(limits.contains(deg(-90)));
    assert!(limits.contains(deg(90)));
    assert!(!limits.contains(deg(-91)));
    assert!(!limits.contains(deg(91)));
}

#[test]
fn soft_limits_validity() {
    assert!(SoftLimits::new(deg(-1), deg(1), LimitPolicy::Reject).is_valid());
    assert!(!SoftLimits::new(deg(1), deg(1), LimitPolicy::Reject).is_valid());
    assert!(!SoftLimits::new(deg(90), deg(-90), LimitPolicy::Clamp).is_valid());
}

#[test]
fn step_limits_from_soft_limits() {
    let soft = SoftLimits::new(deg(-90), deg(90), LimitPolicy::Clamp);
    let steps = StepLimits::from_soft_limits(&soft, 3200);
    assert_eq!(steps.min_steps, -800);
    assert_eq!(steps.max_steps, 800);
    assert_eq!(steps.policy, LimitPolicy::Clamp);
    assert!(steps.contains(800));
    assert!(!steps.contains(801));
    assert_eq!(steps.apply(1000), Some(800));
    assert_eq!(steps.apply(-1000), Some(-800));
    assert_eq!(steps.apply(5), Some(5));

    let reject = StepLimits { min_steps: -10, max_steps: 10, policy: LimitPolicy::Reject };
    assert_eq!(reject.apply(11), None);
    assert_eq!(reject.apply(-10), Some(-10));
}
