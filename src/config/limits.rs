//! Soft position limits, as angles and as step counts.

use vstd::prelude::*;

use super::units::{steps_of_angle, Degrees, Steps};

verus! {

/// What happens to a target outside the limits.
#[derive(Debug, Clone, Copy, PartialEq, Eq, Structural, Default)]
pub enum LimitPolicy {
    /// Refuse the move.
    #[default]
    Reject,
    /// Move to the nearest limit instead.
    Clamp,
}

/// Soft limits as angles.
#[derive(Debug, Clone, Copy, PartialEq, Eq, Structural)]
pub struct SoftLimits {
    /// Least allowed angle.
    pub min: Degrees,
    /// Greatest allowed angle.
    pub max: Degrees,
    /// What happens to a target outside.
    pub policy: LimitPolicy,
}

/// Where a policy sends `target` between `min` and `max`: the target itself
/// when inside, nothing under [`LimitPolicy::Reject`], else the nearer bound.
pub open spec fn limit_target(min: int, max: int, policy: LimitPolicy, target: int) -> Option<int> {
    if min <= target && target <= max {
        Some(target)
    } else {
        match policy {
            LimitPolicy::Reject => None,
            LimitPolicy::Clamp => if target < min {
                Some(min)
            } else {
                Some(max)
            },
        }
    }
}

impl SoftLimits {
    /// Limits from `min` to `max` under `policy`.
    pub fn new(min: Degrees, max: Degrees, policy: LimitPolicy) -> (r: Self)
        ensures
            r == (SoftLimits { min, max, policy }),
    {
        SoftLimits { min, max, policy }
    }

    /// Whether the lower bound is below the upper one.
    pub fn is_valid(&self) -> (r: bool)
        ensures
            r == (self.min.0 < self.max.0),
    {
        self.min.0 < self.max.0
    }

    /// Whether `position` lies within the limits, bounds included.
    pub fn contains(&self, position: Degrees) -> (r: bool)
        ensures
            r == (self.min.0 <= position.0 && position.0 <= self.max.0),
    {
        position.0 >= self.min.0 && position.0 <= self.max.0
    }

    /// Where the policy sends `target`; see [`limit_target`].
    pub fn apply(&self, target: Degrees) -> (r: Option<Degrees>)
        ensures
            r matches Some(d) ==> limit_target(self.min.0 as int, self.max.0 as int, self.policy, target.0 as int)
                == Some(d.0 as int),
            r is None <==> limit_target(self.min.0 as int, self.max.0 as int, self.policy, target.0 as int)
                is None,
    {
        if self.contains(target) {
            Some(target)
        } else {
            match self.policy {
                LimitPolicy::Reject => None,
                LimitPolicy::Clamp => {
                    if target.0 < self.min.0 {
                        Some(self.min)
                    } else {
                        Some(self.max)
                    }
                },
            }
        }
    }
}

/// Soft limits as step counts.
#[derive(Debug, Clone, Copy, PartialEq, Eq, Structural)]
pub struct StepLimits {
    /// Least allowed position.
    pub min_steps: i64,
    /// Greatest allowed position.
    pub max_steps: i64,
    /// What happens to a target outside.
    pub policy: LimitPolicy,
}

impl StepLimits {
    /// Where the policy sends `target`; see [`limit_target`].
    pub open spec fn spec_apply(self, target: int) -> Option<int> {
        limit_target(self.min_steps as int, self.max_steps as int, self.policy, target)
    }

    /// The step limits of `soft` at `steps_per_rev` steps per turn.
    pub fn from_soft_limits(soft: &SoftLimits, steps_per_rev: u32) -> (r: Self)
        ensures
            r.min_steps == steps_of_angle(soft.min.0 as int, steps_per_rev as int),
            r.max_steps == steps_of_angle(soft.max.0 as int, steps_per_rev as int),
            r.policy == soft.policy,
    {
        StepLimits {
            min_steps: Steps::from_degrees(soft.min, steps_per_rev).0,
            max_steps: Steps::from_degrees(soft.max, steps_per_rev).0,
            policy: soft.policy,
        }
    }

    /// Whether `steps` lies within the limits, bounds included.
    pub fn contains(&self, steps: i64) -> (r: bool)
        ensures
            r == (self.min_steps <= steps && steps <= self.max_steps),
    {
        steps >= self.min_steps && steps <= self.max_steps
    }

    /// Where the policy sends `target`; see [`limit_target`].
    pub fn apply(&self, target: i64) -> (r: Option<i64>)
        ensures
            r matches Some(s) ==> self.spec_apply(target as int) == Some(s as int),
            r is None <==> self.spec_apply(target as int) is None,
    {
        if self.contains(target) {
            Some(target)
        } else {
            match self.policy {
                LimitPolicy::Reject => None,
                LimitPolicy::Clamp => {
                    if target < self.min_steps {
                        Some(self.min_steps)
                    } else {
                        Some(self.max_steps)
                    }
                },
            }
        }
    }
}

} // verus!
