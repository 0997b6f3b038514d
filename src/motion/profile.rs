//! Trapezoidal motion profiles with independent acceleration and deceleration.
//!
//! Velocities are thousandths of a step per second, rates thousandths of a
//! step per second squared and intervals nanoseconds. Every length and interval is the exact rational
//! value of its formula, rounded down.

use vstd::prelude::*;

use crate::config::units::clamp_to_u32;

verus! {

/// Nanoseconds in one second.
pub const NANOS_PER_SEC: u64 = 1_000_000_000;

/// Thousandths of a step per second in one step per second: the fixed-point
/// scale of velocities and rates.
pub const RATE_SCALE: u64 = 1000;

/// Nanoseconds in one second, times [`RATE_SCALE`]: an interval is this
/// over a velocity.
pub const NANOS_PER_SEC_SCALED: u64 = 1_000_000_000_000;

/// Square of [`NANOS_PER_SEC`], times [`RATE_SCALE`]: the square of a first
/// interval is this over twice an acceleration.
pub const NANOS_PER_SEC_SQUARED_SCALED: u128 = 1_000_000_000_000_000_000_000;

/// Direction of motion.
#[derive(Debug, Clone, Copy, PartialEq, Eq, Structural)]
pub enum Direction {
    /// Clockwise: a non-negative step count.
    Clockwise,
    /// Counter-clockwise: a negative step count.
    CounterClockwise,
}

impl Direction {
    /// The direction of a signed step count.
    pub open spec fn of_steps(steps: int) -> Direction {
        if steps >= 0 {
            Direction::Clockwise
        } else {
            Direction::CounterClockwise
        }
    }

    /// `+1` for clockwise, `-1` for counter-clockwise.
    pub open spec fn sign_of(self) -> int {
        match self {
            Direction::Clockwise => 1,
            Direction::CounterClockwise => -1,
        }
    }

    /// The direction of a signed step count: clockwise for zero and up.
    pub fn from_steps(steps: i64) -> (r: Self)
        ensures
            r == Direction::of_steps(steps as int),
    {
        if steps >= 0 {
            Direction::Clockwise
        } else {
            Direction::CounterClockwise
        }
    }

    /// The sign that one step in this direction adds to a position.
    pub fn sign(self) -> (r: i64)
        ensures
            r == self.sign_of(),
    {
        match self {
            Direction::Clockwise => 1,
            Direction::CounterClockwise => -1,
        }
    }
}

/// Phase of a move.
#[derive(Debug, Clone, Copy, PartialEq, Eq, Structural)]
pub enum MotionPhase {
    /// Speeding up from rest toward cruise velocity.
    Accelerating,
    /// At cruise velocity.
    Cruising,
    /// Slowing down to rest.
    Decelerating,
    /// No steps left.
    Complete,
}

impl MotionPhase {
    /// Position of the phase in the order a move runs through them.
    pub open spec fn rank(self) -> int {
        match self {
            MotionPhase::Accelerating => 0,
            MotionPhase::Cruising => 1,
            MotionPhase::Decelerating => 2,
            MotionPhase::Complete => 3,
        }
    }
}

/// Distance in steps to reach `velocity` from rest at `rate`: `v² / (2·rate)`,
/// which in thousandths of a step is `V² / (2000·R)`.
pub open spec fn ramp_steps(velocity: int, rate: int) -> int {
    (velocity * velocity) / (2000 * rate)
}

/// Whether the two ramps leave room for a cruise phase:
/// `v²/(2a) + v²/(2d) < steps`, multiplied out by `2ad` (in thousandths of a
/// step: `V²·(A + D) < 2000·A·D·steps`).
pub open spec fn reaches_cruise(steps: int, velocity: int, accel: int, decel: int) -> bool {
    velocity * velocity * (accel + decel) < 2000 * accel * decel * steps
}

/// Acceleration share of a move that never cruises: `steps · a / (a + d)`.
pub open spec fn triangle_accel_steps(steps: int, accel: int, decel: int) -> int {
    (steps * accel) / (accel + decel)
}

/// `r` is the integer square root of `n`.
pub open spec fn is_sqrt_floor(r: int, n: int) -> bool {
    0 <= r && r * r <= n < (r + 1) * (r + 1)
}

/// Whether `r` is the first pulse interval at acceleration `accel`
/// (thousandths of a step per second squared): `1e9 / sqrt(2·a)`
/// nanoseconds, rounded down, which is the integer square root of
/// `1e21 / (2·accel)`, saturated to `u32`.
pub open spec fn is_first_interval(r: int, accel: int) -> bool {
    let n = NANOS_PER_SEC_SQUARED_SCALED as int / (2 * accel);
    (r < u32::MAX && is_sqrt_floor(r, n)) || (r == u32::MAX && u32::MAX * u32::MAX <= n)
}

/// Pulse interval at `velocity` thousandths of a step per second: `1e9 / v`
/// nanoseconds, which is `1e12 / V`, saturated to `u32`.
pub open spec fn interval_of_velocity(velocity: int) -> int {
    clamp_to_u32(NANOS_PER_SEC_SCALED as int / velocity)
}

/// Integer square root, by bisection.
fn sqrt_floor(n: u128) -> (r: u128)
    requires
        n < 0x40_0000_0000_0000_0000,
    ensures
        is_sqrt_floor(r as int, n as int),
        r < 0x8_0000_0000,
{
    let mut lo: u128 = 0;
    let mut hi: u128 = 0x8_0000_0000;
    assert(n < hi * hi) by (nonlinear_arith)
        requires
            n < 0x40_0000_0000_0000_0000,
            hi == 0x8_0000_0000,
    ;
    while hi - lo > 1
        invariant
            lo < hi <= 0x8_0000_0000,
            lo * lo <= n < hi * hi,
        decreases hi - lo,
    {
        let mid: u128 = lo + (hi - lo) / 2;
        assert(mid * mid <= 0x8_0000_0000 * 0x8_0000_0000) by (nonlinear_arith)
            requires
                mid <= 0x8_0000_0000,
        ;
        let sq: u128 = mid * mid;
        if sq <= n {
            lo = mid;
        } else {
            hi = mid;
        }
    }
    assert(hi == lo + 1);
    lo
}

/// A move's plan: phase lengths, pulse intervals, direction and rates.
///
/// A well-formed profile's three phases add up to its step count.
#[derive(Debug, Clone, Copy, PartialEq, Eq, Structural)]
pub struct MotionProfile {
    /// Steps in the whole move.
    pub total_steps: u32,
    /// Direction of the move.
    pub direction: Direction,
    /// Steps while accelerating.
    pub accel_steps: u32,
    /// Steps at cruise velocity.
    pub cruise_steps: u32,
    /// Steps while decelerating.
    pub decel_steps: u32,
    /// Interval before the first step, in nanoseconds.
    pub initial_interval_ns: u32,
    /// Interval at cruise velocity, in nanoseconds.
    pub cruise_interval_ns: u32,
    /// Acceleration in thousandths of a step per second squared.
    pub accel_rate: u32,
    /// Deceleration in thousandths of a step per second squared.
    pub decel_rate: u32,
}

impl MotionProfile {
    /// The profile of no motion.
    pub open spec fn spec_zero() -> MotionProfile {
        MotionProfile {
            total_steps: 0,
            direction: Direction::Clockwise,
            accel_steps: 0,
            cruise_steps: 0,
            decel_steps: 0,
            initial_interval_ns: u32::MAX,
            cruise_interval_ns: u32::MAX,
            accel_rate: 0,
            decel_rate: 0,
        }
    }

    /// The phases add up to the whole move.
    pub open spec fn wf(self) -> bool {
        self.accel_steps + self.cruise_steps + self.decel_steps == self.total_steps
    }

    /// Whether this is the profile of a move of `signed_steps` at most `v`
    /// thousandths of a step per second, accelerating at `a` and
    /// decelerating at `d` thousandths of a step per second squared.
    ///
    /// A zero step count or rate gives the profile of no motion. Otherwise
    /// the direction is the sign of the step count; when the two ramps leave
    /// room, each is `v²/(2·rate)` steps long and the rest is cruise, else the
    /// move never cruises and `steps · a / (a + d)` of it accelerates.
    pub open spec fn is_trapezoid_for(self, signed_steps: int, v: int, a: int, d: int) -> bool {
        let steps = if signed_steps >= 0 { signed_steps } else { -signed_steps };
        if steps == 0 || v == 0 || a == 0 || d == 0 {
            self == MotionProfile::spec_zero()
        } else {
            &&& self.total_steps == steps
            &&& self.direction == Direction::of_steps(signed_steps)
            &&& reaches_cruise(steps, v, a, d) ==> {
                &&& self.accel_steps == ramp_steps(v, a)
                &&& self.decel_steps == ramp_steps(v, d)
                &&& self.cruise_steps == steps - ramp_steps(v, a) - ramp_steps(v, d)
            }
            &&& !reaches_cruise(steps, v, a, d) ==> {
                &&& self.accel_steps == triangle_accel_steps(steps, a, d)
                &&& self.cruise_steps == 0
                &&& self.decel_steps == steps - triangle_accel_steps(steps, a, d)
            }
            &&& is_first_interval(self.initial_interval_ns as int, a)
            &&& self.cruise_interval_ns == interval_of_velocity(v)
            &&& self.accel_rate == a
            &&& self.decel_rate == d
        }
    }

    /// Phase of the step numbered `step` (from 0).
    pub open spec fn spec_phase_at(self, step: int) -> MotionPhase {
        if step >= self.total_steps {
            MotionPhase::Complete
        } else if step < self.accel_steps {
            MotionPhase::Accelerating
        } else if step < self.accel_steps + self.cruise_steps {
            MotionPhase::Cruising
        } else {
            MotionPhase::Decelerating
        }
    }

    /// Interval before the step numbered `step`: the cruise interval while
    /// cruising, a linear blend between the first and the cruise interval
    /// while accelerating or decelerating, `u32::MAX` once complete.
    pub open spec fn spec_interval_at(self, step: int) -> int {
        let first = self.initial_interval_ns as int;
        let cruise = self.cruise_interval_ns as int;
        match self.spec_phase_at(step) {
            MotionPhase::Complete => u32::MAX as int,
            MotionPhase::Cruising => cruise,
            MotionPhase::Accelerating => {
                let n = if self.accel_steps == 0 { 1 } else { self.accel_steps as int };
                clamp_to_u32((first * n - (first - cruise) * step) / n)
            },
            MotionPhase::Decelerating => {
                let n = if self.decel_steps == 0 { 1 } else { self.decel_steps as int };
                let k = step - self.accel_steps - self.cruise_steps;
                clamp_to_u32((cruise * n + (first - cruise) * k) / n)
            },
        }
    }

    /// Profile of a move of `total_steps` (signed) at most `max_velocity`
    /// thousandths of a step per second, accelerating at `acceleration` and
    /// decelerating at `deceleration` thousandths of a step per second
    /// squared.
    ///
    /// When the two ramps together are at least as long as the move, it never
    /// cruises, and the move is split between the ramps in proportion to their
    /// rates. A zero step count or rate gives the profile of no motion.
    pub fn asymmetric_trapezoidal(
        total_steps: i64,
        max_velocity: u32,
        acceleration: u32,
        deceleration: u32,
    ) -> (r: Self)
        requires
            -(u32::MAX as int) <= total_steps <= u32::MAX,
        ensures
            r.wf(),
            r.is_trapezoid_for(
                total_steps as int,
                max_velocity as int,
                acceleration as int,
                deceleration as int,
            ),
    {
        let direction = Direction::from_steps(total_steps);
        let steps: u32 = if total_steps >= 0 {
            total_steps as u32
        } else {
            (-(total_steps as i128)) as u32
        };
        if steps == 0 || max_velocity == 0 || acceleration == 0 || deceleration == 0 {
            return Self::zero();
        }
        let v = max_velocity as u128;
        let a = acceleration as u128;
        let d = deceleration as u128;
        let n = steps as u128;
        proof {
            lemma_profile_bounds(v as int, a as int, d as int, n as int);
        }
        let v2 = v * v;
        let accel_ramp = v2 / (2000 * a);
        let decel_ramp = v2 / (2000 * d);
        let (accel_steps, cruise_steps, decel_steps) = if v2 * (a + d) >= 2000 * a * d * n {
            let share = (n * a) / (a + d);
            proof {
                lemma_share_at_most(n as int, a as int, d as int);
            }
            (share as u32, 0u32, (n - share) as u32)
        } else {
            proof {
                lemma_ramps_fit(v as int, a as int, d as int, n as int);
            }
            (accel_ramp as u32, (n - accel_ramp - decel_ramp) as u32, decel_ramp as u32)
        };
        let root = sqrt_floor(NANOS_PER_SEC_SQUARED_SCALED / (2 * a));
        let first: u32 = if root >= u32::MAX as u128 {
            proof {
                assert(u32::MAX * u32::MAX <= root * root) by (nonlinear_arith)
                    requires
                        root >= u32::MAX,
                ;
            }
            u32::MAX
        } else {
            root as u32
        };
        let cruise_interval = NANOS_PER_SEC_SCALED / max_velocity as u64;
        Self {
            total_steps: steps,
            direction,
            accel_steps,
            cruise_steps,
            decel_steps,
            initial_interval_ns: first,
            cruise_interval_ns: if cruise_interval > u32::MAX as u64 {
                u32::MAX
            } else {
                cruise_interval as u32
            },
            accel_rate: acceleration,
            decel_rate: deceleration,
        }
    }

    /// [`MotionProfile::asymmetric_trapezoidal`] with equal acceleration and
    /// deceleration.
    pub fn symmetric_trapezoidal(total_steps: i64, max_velocity: u32, acceleration: u32) -> (r: Self)
        requires
            -(u32::MAX as int) <= total_steps <= u32::MAX,
        ensures
            r.wf(),
            r.is_trapezoid_for(
                total_steps as int,
                max_velocity as int,
                acceleration as int,
                acceleration as int,
            ),
    {
        Self::asymmetric_trapezoidal(total_steps, max_velocity, acceleration, acceleration)
    }

    /// The profile of no motion: no steps, and the longest intervals.
    pub fn zero() -> (r: Self)
        ensures
            r == MotionProfile::spec_zero(),
            r.wf(),
    {
        Self {
            total_steps: 0,
            direction: Direction::Clockwise,
            accel_steps: 0,
            cruise_steps: 0,
            decel_steps: 0,
            initial_interval_ns: u32::MAX,
            cruise_interval_ns: u32::MAX,
            accel_rate: 0,
            decel_rate: 0,
        }
    }

    /// Whether the profile has no steps.
    pub fn is_zero(&self) -> (r: bool)
        ensures
            r == (self.total_steps == 0),
    {
        self.total_steps == 0
    }

    /// Phase of the step numbered `step` (from 0).
    pub fn phase_at(&self, step: u32) -> (r: MotionPhase)
        ensures
            r == self.spec_phase_at(step as int),
    {
        if step >= self.total_steps {
            MotionPhase::Complete
        } else if step < self.accel_steps {
            MotionPhase::Accelerating
        } else if (step as u64) < (self.accel_steps as u64) + (self.cruise_steps as u64) {
            MotionPhase::Cruising
        } else {
            MotionPhase::Decelerating
        }
    }

    /// Interval in nanoseconds before the step numbered `step`; see
    /// [`MotionProfile::spec_interval_at`].
    pub fn interval_at(&self, step: u32) -> (r: u32)
        ensures
            r == self.spec_interval_at(step as int),
    {
        let first = self.initial_interval_ns as i128;
        let cruise = self.cruise_interval_ns as i128;
        match self.phase_at(step) {
            MotionPhase::Complete => u32::MAX,
            MotionPhase::Cruising => self.cruise_interval_ns,
            MotionPhase::Accelerating => {
                let n: i128 = if self.accel_steps == 0 { 1 } else { self.accel_steps as i128 };
                proof {
                    lemma_blend_fits(first as int, cruise as int, n as int, step as int);
                }
                clamp_quotient(first * n - (first - cruise) * (step as i128), n)
            },
            MotionPhase::Decelerating => {
                let n: i128 = if self.decel_steps == 0 { 1 } else { self.decel_steps as i128 };
                let k = (step as i128) - (self.accel_steps as i128) - (self.cruise_steps as i128);
                proof {
                    lemma_blend_fits(cruise as int, first as int, n as int, k as int);
                }
                clamp_quotient(cruise * n + (first - cruise) * k, n)
            },
        }
    }

    /// Estimated time of the whole move, in nanoseconds: the time to reach
    /// cruise velocity at each rate plus the cruise steps at the cruise
    /// interval. See [`MotionProfile::spec_duration_ns`].
    pub fn estimated_duration_ns(&self) -> (r: u64)
        ensures
            r == self.spec_duration_ns(),
    {
        if self.total_steps == 0 {
            return 0;
        }
        if self.cruise_interval_ns == 0 {
            return u64::MAX;
        }
        let ci = self.cruise_interval_ns as u128;
        proof {
            lemma_duration_terms(ci as int, self.accel_rate as int, self.decel_rate as int, self.cruise_steps as int);
        }
        let accel_ns: u128 = if self.accel_rate > 0 {
            NANOS_PER_SEC_SQUARED_SCALED / (ci * self.accel_rate as u128)
        } else {
            0
        };
        let decel_ns: u128 = if self.decel_rate > 0 {
            NANOS_PER_SEC_SQUARED_SCALED / (ci * self.decel_rate as u128)
        } else {
            0
        };
        let total = accel_ns + decel_ns + (self.cruise_steps as u128) * ci;
        if total > u64::MAX as u128 {
            u64::MAX
        } else {
            total as u64
        }
    }

    /// Time of one ramp in nanoseconds: cruise velocity over `rate`, which is
    /// `1e18 / (cruise_interval · rate)` with the rate in steps per second
    /// squared, so `1e21 / (cruise_interval · R)` in thousandths; rounded
    /// down; none at a zero rate.
    pub open spec fn spec_ramp_ns(self, rate: int) -> int {
        if rate == 0 {
            0
        } else {
            NANOS_PER_SEC_SQUARED_SCALED as int / (self.cruise_interval_ns * rate)
        }
    }

    /// Estimated move time in nanoseconds, saturated to `u64`: zero without
    /// steps, unbounded at a zero cruise interval, else the sum of the two
    /// ramp times and the cruise time.
    pub open spec fn spec_duration_ns(self) -> int {
        if self.total_steps == 0 {
            0
        } else if self.cruise_interval_ns == 0 {
            u64::MAX as int
        } else {
            let t = self.spec_ramp_ns(self.accel_rate as int) + self.spec_ramp_ns(self.decel_rate as int)
                + self.cruise_steps * self.cruise_interval_ns;
            if t > u64::MAX { u64::MAX as int } else { t }
        }
    }
}

/// `num / n` (Euclidean) brought into the range of `u32`, for a positive `n`.
fn clamp_quotient(num: i128, n: i128) -> (r: u32)
    requires
        n > 0,
    ensures
        r == clamp_to_u32(num as int / n as int),
{
    if num < 0 {
        proof {
            lemma_negative_quotient(num as int, n as int);
        }
        0
    } else {
        let q = (num as u128) / (n as u128);
        if q > u32::MAX as u128 {
            u32::MAX
        } else {
            q as u32
        }
    }
}

proof fn lemma_negative_quotient(num: int, n: int)
    requires
        num < 0,
        n > 0,
    ensures
        num / n < 0,
{
    assert(num / n < 0) by (nonlinear_arith)
        requires
            num < 0,
            n > 0,
    ;
}

/// The blend of two intervals stays inside `i128`.
proof fn lemma_blend_fits(base: int, other: int, n: int, k: int)
    requires
        0 <= base <= u32::MAX,
        0 <= other <= u32::MAX,
        1 <= n <= u32::MAX,
        -0x2_0000_0000 <= k <= u32::MAX,
    ensures
        -0x1_0000_0000_0000_0000 <= base * n <= 0x1_0000_0000_0000_0000,
        -0x4_0000_0000_0000_0000 <= (other - base) * k <= 0x4_0000_0000_0000_0000,
        -0x4_0000_0000_0000_0000 <= (base - other) * k <= 0x4_0000_0000_0000_0000,
{
    assert(0 <= base * n <= 0x1_0000_0000 * 0x1_0000_0000) by (nonlinear_arith)
        requires
            0 <= base <= u32::MAX,
            1 <= n <= u32::MAX,
    ;
    assert(-0x2_0000_0000 * 0x1_0000_0000 <= (other - base) * k <= 0x2_0000_0000 * 0x1_0000_0000)
        by (nonlinear_arith)
        requires
            -0x1_0000_0000 <= other - base <= 0x1_0000_0000,
            -0x2_0000_0000 <= k <= 0x2_0000_0000,
    ;
    assert(-0x2_0000_0000 * 0x1_0000_0000 <= (base - other) * k <= 0x2_0000_0000 * 0x1_0000_0000)
        by (nonlinear_arith)
        requires
            -0x1_0000_0000 <= base - other <= 0x1_0000_0000,
            -0x2_0000_0000 <= k <= 0x2_0000_0000,
    ;
}

/// Bounds on the products that the profile computes.
proof fn lemma_profile_bounds(v: int, a: int, d: int, n: int)
    requires
        1 <= v <= u32::MAX,
        1 <= a <= u32::MAX,
        1 <= d <= u32::MAX,
        1 <= n <= u32::MAX,
    ensures
        v * v <= 0x1_0000_0000_0000_0000,
        v * v * (a + d) <= 0x1_0000_0000_0000_0000 * 0x2_0000_0000,
        2000 * a * d * n <= 0x800 * 0x1_0000_0000 * 0x1_0000_0000 * 0x1_0000_0000,
        n * a <= 0x1_0000_0000_0000_0000,
        2000 * a * d <= 0x800 * 0x1_0000_0000 * 0x1_0000_0000,
{
    assert(v * v <= 0x1_0000_0000 * 0x1_0000_0000) by (nonlinear_arith)
        requires
            1 <= v <= u32::MAX,
    ;
    assert(v * v * (a + d) <= 0x1_0000_0000_0000_0000 * 0x2_0000_0000) by (nonlinear_arith)
        requires
            0 <= v * v <= 0x1_0000_0000_0000_0000,
            0 <= a + d <= 0x2_0000_0000,
    ;
    assert(a * d <= 0x1_0000_0000 * 0x1_0000_0000) by (nonlinear_arith)
        requires
            1 <= a <= u32::MAX,
            1 <= d <= u32::MAX,
    ;
    assert(2000 * a * d <= 0x800 * 0x1_0000_0000 * 0x1_0000_0000) by (nonlinear_arith)
        requires
            0 <= a * d <= 0x1_0000_0000 * 0x1_0000_0000,
            1 <= a,
    ;
    assert(2000 * a * d * n <= 0x800 * 0x1_0000_0000 * 0x1_0000_0000 * 0x1_0000_0000) by (nonlinear_arith)
        requires
            0 <= a * d <= 0x1_0000_0000 * 0x1_0000_0000,
            1 <= n <= u32::MAX,
    ;
    assert(n * a <= 0x1_0000_0000 * 0x1_0000_0000) by (nonlinear_arith)
        requires
            1 <= a <= u32::MAX,
            1 <= n <= u32::MAX,
    ;
}

/// The accelerating share of a move is at most the move.
proof fn lemma_share_at_most(n: int, a: int, d: int)
    requires
        0 <= n,
        1 <= a,
        1 <= d,
    ensures
        0 <= (n * a) / (a + d) <= n,
{
    assert(0 <= n * a <= n * (a + d)) by (nonlinear_arith)
        requires
            0 <= n,
            1 <= a,
            1 <= d,
    ;
    assert((n * (a + d)) / (a + d) == n) by (nonlinear_arith)
        requires
            a + d > 0,
    ;
    assert(0 <= (n * a) / (a + d) <= (n * (a + d)) / (a + d)) by (nonlinear_arith)
        requires
            0 <= n * a <= n * (a + d),
            a + d > 0,
    ;
}

/// When the move reaches cruise velocity, both ramps fit in it.
proof fn lemma_ramps_fit(v: int, a: int, d: int, n: int)
    requires
        1 <= a,
        1 <= d,
        0 <= v,
        v * v * (a + d) < 2000 * a * d * n,
    ensures
        0 <= ramp_steps(v, a),
        0 <= ramp_steps(v, d),
        ramp_steps(v, a) + ramp_steps(v, d) <= n,
{
    let s = v * v;
    assert(0 <= s) by (nonlinear_arith)
        requires
            s == v * v,
    ;
    let x = s / (2000 * a);
    let y = s / (2000 * d);
    assert(x * (2000 * a) <= s) by (nonlinear_arith)
        requires
            x == s / (2000 * a),
            a >= 1,
            s >= 0,
    ;
    assert(y * (2000 * d) <= s) by (nonlinear_arith)
        requires
            y == s / (2000 * d),
            d >= 1,
            s >= 0,
    ;
    assert(0 <= x && 0 <= y) by (nonlinear_arith)
        requires
            x == s / (2000 * a),
            y == s / (2000 * d),
            a >= 1,
            d >= 1,
            s >= 0,
    ;
    assert((x + y) * (2000 * a * d) <= s * (a + d)) by (nonlinear_arith)
        requires
            x * (2000 * a) <= s,
            y * (2000 * d) <= s,
            a >= 1,
            d >= 1,
    ;
    assert(x + y <= n) by (nonlinear_arith)
        requires
            (x + y) * (2000 * a * d) <= s * (a + d),
            s * (a + d) < 2000 * a * d * n,
            a >= 1,
            d >= 1,
    ;
}

/// Bounds on the terms of the duration estimate.
proof fn lemma_duration_terms(ci: int, a: int, d: int, cruise: int)
    requires
        1 <= ci <= u32::MAX,
        0 <= a <= u32::MAX,
        0 <= d <= u32::MAX,
        0 <= cruise <= u32::MAX,
    ensures
        ci * a <= 0x1_0000_0000_0000_0000,
        ci * d <= 0x1_0000_0000_0000_0000,
        cruise * ci <= 0x1_0000_0000_0000_0000,
        a >= 1 ==> ci * a >= 1,
        d >= 1 ==> ci * d >= 1,
{
    assert(a >= 1 ==> ci * a >= 1) by (nonlinear_arith)
        requires
            ci >= 1,
    ;
    assert(d >= 1 ==> ci * d >= 1) by (nonlinear_arith)
        requires
            ci >= 1,
    ;
    assert(ci * a <= 0x1_0000_0000 * 0x1_0000_0000) by (nonlinear_arith)
        requires
            1 <= ci <= u32::MAX,
            0 <= a <= u32::MAX,
    ;
    assert(ci * d <= 0x1_0000_0000 * 0x1_0000_0000) by (nonlinear_arith)
        requires
            1 <= ci <= u32::MAX,
            0 <= d <= u32::MAX,
    ;
    assert(cruise * ci <= 0x1_0000_0000 * 0x1_0000_0000) by (nonlinear_arith)
        requires
            1 <= ci <= u32::MAX,
            0 <= cruise <= u32::MAX,
    ;
}

} // verus!
