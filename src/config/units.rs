//! Unit types for angles, angular rates, step counts and microstep divisors.
//!
//! Angles are held in microdegrees, so that a conversion between an angle and
//! a step count is exact integer arithmetic.

use vstd::prelude::*;

use crate::error::ConfigError;

verus! {

/// Microdegrees in one full turn.
pub const MICRODEGREES_PER_TURN: i64 = 360_000_000;

/// Microdegrees in one degree.
pub const MICRODEGREES_PER_DEGREE: i64 = 1_000_000;

/// Quotient of `a` by a positive `b`, rounded toward zero (as Rust's `/`).
pub open spec fn div_toward_zero(a: int, b: int) -> int {
    if a >= 0 {
        a / b
    } else {
        -((-a) / b)
    }
}

/// Quotient of `a` by a positive `b`, rounded away from zero.
pub open spec fn div_away_from_zero(a: int, b: int) -> int {
    if a >= 0 {
        (a + b - 1) / b
    } else {
        -((-a + b - 1) / b)
    }
}

/// `x` brought into the range of `i64`.
pub open spec fn clamp_i64(x: int) -> int {
    if x < i64::MIN {
        i64::MIN as int
    } else if x > i64::MAX {
        i64::MAX as int
    } else {
        x
    }
}

/// The step count of an angle: `angle * steps_per_rev / 360°`, rounded toward
/// zero and saturated to `i64`.
pub open spec fn steps_of_angle(microdegrees: int, steps_per_rev: int) -> int {
    clamp_i64(div_toward_zero(microdegrees * steps_per_rev, MICRODEGREES_PER_TURN as int))
}

/// The angle of a step count: `steps * 360° / steps_per_rev`, rounded away
/// from zero (so that converting it back gives the same step count) and
/// saturated to `i64`. Without a step ratio the angle is zero.
pub open spec fn angle_of_steps(steps: int, steps_per_rev: int) -> int {
    if steps_per_rev <= 0 {
        0
    } else {
        clamp_i64(div_away_from_zero(steps * MICRODEGREES_PER_TURN as int, steps_per_rev))
    }
}

/// `a / b` rounded toward zero, for a positive `b`.
pub(crate) fn quotient_toward_zero(a: i128, b: i128) -> (r: i128)
    requires
        b > 0,
        a > i128::MIN,
    ensures
        r == div_toward_zero(a as int, b as int),
{
    if a >= 0 {
        ((a as u128) / (b as u128)) as i128
    } else {
        let q = ((-a) as u128) / (b as u128);
        -(q as i128)
    }
}

/// `a / b` rounded away from zero, for a positive `b`.
fn quotient_away_from_zero(a: i128, b: i128) -> (r: i128)
    requires
        b > 0,
        a > i128::MIN,
        -0x1_0000_0000_0000_0000_0000_0000i128 < a < 0x1_0000_0000_0000_0000_0000_0000i128,
        b < 0x1_0000_0000_0000_0000_0000_0000i128,
    ensures
        r == div_away_from_zero(a as int, b as int),
{
    if a >= 0 {
        ((a + b - 1) as u128 / (b as u128)) as i128
    } else {
        let q = ((-a + b - 1) as u128) / (b as u128);
        -(q as i128)
    }
}

/// The product of an `i64` and a 32-bit count stays far inside `i128`.
proof fn lemma_product_fits(a: int, b: int)
    requires
        i64::MIN <= a <= i64::MAX,
        0 <= b <= u32::MAX,
    ensures
        -0x8000_0000_0000_0000_0000_0000 <= a * b <= 0x8000_0000_0000_0000_0000_0000,
{
    assert(-0x8000_0000_0000_0000 * 0x1_0000_0000 <= a * b <= 0x8000_0000_0000_0000 * 0x1_0000_0000)
        by (nonlinear_arith)
        requires
            i64::MIN <= a <= i64::MAX,
            0 <= b <= u32::MAX,
    ;
}

/// `x` saturated to the range of `i64`.
pub(crate) fn saturate_i64(x: i128) -> (r: i64)
    ensures
        r == clamp_i64(x as int),
{
    if x < i64::MIN as i128 {
        i64::MIN
    } else if x > i64::MAX as i128 {
        i64::MAX
    } else {
        x as i64
    }
}

/// Step count of an angle at a step ratio; see [`steps_of_angle`].
pub fn angle_to_steps(angle: Degrees, steps_per_rev: u32) -> (r: i64)
    ensures
        r == steps_of_angle(angle.0 as int, steps_per_rev as int),
{
    proof {
        lemma_product_fits(angle.0 as int, steps_per_rev as int);
    }
    let p = (angle.0 as i128) * (steps_per_rev as i128);
    saturate_i64(quotient_toward_zero(p, MICRODEGREES_PER_TURN as i128))
}

/// Angle of a step count at a step ratio; see [`angle_of_steps`].
pub fn steps_to_angle(steps: i64, steps_per_rev: u32) -> (r: Degrees)
    ensures
        r.0 == angle_of_steps(steps as int, steps_per_rev as int),
{
    if steps_per_rev == 0 {
        return Degrees(0);
    }
    proof {
        lemma_product_fits(steps as int, MICRODEGREES_PER_TURN as int);
    }
    let p = (steps as i128) * (MICRODEGREES_PER_TURN as i128);
    Degrees(saturate_i64(quotient_away_from_zero(p, steps_per_rev as i128)))
}

/// `x` brought into the range of `u32`.
pub open spec fn clamp_to_u32(x: int) -> int {
    if x < 0 {
        0
    } else if x > u32::MAX {
        u32::MAX as int
    } else {
        x
    }
}

/// Microdegrees in a turn over the thousandths that step rates are held in.
pub const MICRODEGREES_PER_MILLITURN: i64 = 360_000;

/// A rate in thousandths of a step of an angular rate in microdegrees:
/// `1000 · rate · steps_per_rev / 360°`, rounded toward zero and brought into
/// the range of `u32` (a negative rate gives zero).
pub open spec fn step_rate_of(microdegrees: int, steps_per_rev: int) -> int {
    clamp_to_u32(div_toward_zero(microdegrees * steps_per_rev, MICRODEGREES_PER_MILLITURN as int))
}

/// Step rate of an angular rate; see [`step_rate_of`].
pub fn rate_to_steps(microdegrees: i64, steps_per_rev: u32) -> (r: u32)
    ensures
        r == step_rate_of(microdegrees as int, steps_per_rev as int),
{
    proof {
        lemma_product_fits(microdegrees as int, steps_per_rev as int);
    }
    let q = quotient_toward_zero(
        (microdegrees as i128) * (steps_per_rev as i128),
        MICRODEGREES_PER_MILLITURN as i128,
    );
    if q < 0 {
        0
    } else if q > u32::MAX as i128 {
        u32::MAX
    } else {
        q as u32
    }
}

/// Angular position, in microdegrees.
#[derive(Debug, Clone, Copy, PartialEq, Eq, Structural, PartialOrd, Ord, Default)]
pub struct Degrees(pub i64);

impl Degrees {
    /// An angle of `microdegrees` millionths of a degree.
    pub fn new(microdegrees: i64) -> (r: Self)
        ensures
            r.0 == microdegrees,
    {
        Degrees(microdegrees)
    }

    /// An angle of a whole number of degrees.
    pub fn whole(degrees: i32) -> (r: Self)
        ensures
            r.0 == degrees * MICRODEGREES_PER_DEGREE,
    {
        Degrees((degrees as i64) * MICRODEGREES_PER_DEGREE)
    }

    /// The angle in microdegrees.
    pub fn value(self) -> (r: i64)
        ensures
            r == self.0,
    {
        self.0
    }
}

/// Angular velocity, in microdegrees per second.
#[derive(Debug, Clone, Copy, PartialEq, Eq, Structural, PartialOrd, Ord, Default)]
pub struct DegreesPerSec(pub i64);

impl DegreesPerSec {
    /// A velocity of `microdegrees_per_sec`.
    pub fn new(microdegrees_per_sec: i64) -> (r: Self)
        ensures
            r.0 == microdegrees_per_sec,
    {
        DegreesPerSec(microdegrees_per_sec)
    }

    /// The velocity in microdegrees per second.
    pub fn value(self) -> (r: i64)
        ensures
            r == self.0,
    {
        self.0
    }
}

/// Angular acceleration, in microdegrees per second squared.
#[derive(Debug, Clone, Copy, PartialEq, Eq, Structural, PartialOrd, Ord, Default)]
pub struct DegreesPerSecSquared(pub i64);

impl DegreesPerSecSquared {
    /// An acceleration of `microdegrees_per_sec2`.
    pub fn new(microdegrees_per_sec2: i64) -> (r: Self)
        ensures
            r.0 == microdegrees_per_sec2,
    {
        DegreesPerSecSquared(microdegrees_per_sec2)
    }

    /// The acceleration in microdegrees per second squared.
    pub fn value(self) -> (r: i64)
        ensures
            r == self.0,
    {
        self.0
    }
}

/// Motor position in steps from the origin.
#[derive(Debug, Clone, Copy, PartialEq, Eq, Structural, PartialOrd, Ord, Default)]
pub struct Steps(pub i64);

impl Steps {
    /// A position of `value` steps.
    pub fn new(value: i64) -> (r: Self)
        ensures
            r.0 == value,
    {
        Steps(value)
    }

    /// The step count.
    pub fn value(self) -> (r: i64)
        ensures
            r == self.0,
    {
        self.0
    }

    /// The magnitude of the step count.
    pub fn abs(self) -> (r: u64)
        ensures
            r == (if self.0 >= 0 { self.0 as int } else { -(self.0 as int) }),
    {
        if self.0 >= 0 {
            self.0 as u64
        } else {
            (-(self.0 as i128)) as u64
        }
    }

    /// The angle of this step count at `steps_per_rev` steps per turn.
    pub fn to_degrees(self, steps_per_rev: u32) -> (r: Degrees)
        ensures
            r.0 == angle_of_steps(self.0 as int, steps_per_rev as int),
    {
        steps_to_angle(self.0, steps_per_rev)
    }

    /// The step count of an angle at `steps_per_rev` steps per turn.
    pub fn from_degrees(degrees: Degrees, steps_per_rev: u32) -> (r: Self)
        ensures
            r.0 == steps_of_angle(degrees.0 as int, steps_per_rev as int),
    {
        Steps(angle_to_steps(degrees, steps_per_rev))
    }
}

/// Whether `value` is a microstep divisor: a power of two from 1 to 256.
pub open spec fn is_microstep_divisor(value: int) -> bool {
    value == 1 || value == 2 || value == 4 || value == 8 || value == 16 || value == 32
        || value == 64 || value == 128 || value == 256
}

/// Microstep divisor: a power of two from 1 to 256.
#[derive(Debug, Clone, Copy, PartialEq, Eq, Structural)]
pub struct Microsteps(u16);

impl Microsteps {
    /// The divisor as a number.
    pub closed spec fn view(self) -> int {
        self.0 as int
    }

    /// Well-formedness: the divisor is a power of two from 1 to 256.
    pub closed spec fn wf(self) -> bool {
        is_microstep_divisor(self.0 as int)
    }

    /// A divisor of `value`, refused unless it is a power of two from 1 to 256.
    pub fn new(value: u16) -> (r: Result<Self, ConfigError>)
        ensures
            is_microstep_divisor(value as int) <==> r is Ok,
            r is Ok ==> r->Ok_0@ == value && r->Ok_0.wf(),
            r is Err ==> r == Err::<Self, ConfigError>(ConfigError::InvalidMicrosteps(value)),
    {
        if Self::is_valid(value) {
            Ok(Microsteps(value))
        } else {
            Err(ConfigError::InvalidMicrosteps(value))
        }
    }

    /// The divisor.
    pub fn value(self) -> (r: u16)
        ensures
            r == self@,
    {
        self.0
    }

    /// Whether `value` is a power of two from 1 to 256.
    pub fn is_valid(value: u16) -> (r: bool)
        ensures
            r == is_microstep_divisor(value as int),
    {
        value == 1 || value == 2 || value == 4 || value == 8 || value == 16 || value == 32
            || value == 64 || value == 128 || value == 256
    }
}

impl Default for Microsteps {
    /// Full steps (a divisor of 1).
    fn default() -> (r: Self)
        ensures
            r@ == 1,
    {
        Microsteps(1)
    }
}

} // verus!
