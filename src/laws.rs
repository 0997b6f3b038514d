//! Properties that hold across the library's operations.

use vstd::arithmetic::div_mod::{
    lemma_fundamental_div_mod, lemma_fundamental_div_mod_converse, lemma_mod_bound,
};
use vstd::prelude::*;

use crate::config::units::{
    angle_of_steps, div_away_from_zero, div_toward_zero, steps_of_angle, MICRODEGREES_PER_TURN,
};
use crate::error::{Error, MotionError};
use crate::motion::executor::ExecutorView;
use crate::motion::profile::{
    ramp_steps, reaches_cruise, triangle_accel_steps, Direction, MotionPhase, MotionProfile,
};
use crate::motor::driver::MotorView;
use crate::motor::position::PositionView;

verus! {

/// `a / b` lies within one `b` below `a`.
proof fn lemma_div_bounds(a: int, b: int)
    requires
        b > 0,
    ensures
        (a / b) * b <= a < (a / b) * b + b,
{
    lemma_fundamental_div_mod(a, b);
    lemma_mod_bound(a, b);
    assert(b * (a / b) == (a / b) * b) by (nonlinear_arith);
}

/// The quotient is the `q` with `q·b ≤ a < q·b + b`.
proof fn lemma_quotient(a: int, b: int, q: int)
    requires
        b > 0,
        q * b <= a < q * b + b,
    ensures
        a / b == q,
{
    lemma_fundamental_div_mod_converse(a, b, q, a - q * b);
}

/// The phases of a move add up to the whole move, for any positive velocity
/// and rates.
pub proof fn lemma_phases_cover_move(p: MotionProfile, signed_steps: int, v: int, a: int, d: int)
    requires
        v > 0,
        a > 0,
        d > 0,
        p.is_trapezoid_for(signed_steps, v, a, d),
    ensures
        p.accel_steps + p.cruise_steps + p.decel_steps == (if signed_steps >= 0 {
            signed_steps
        } else {
            -signed_steps
        }),
{
}

/// With equal acceleration and deceleration the two ramps are equally long,
/// save in a move that never cruises and has an odd step count (whose
/// deceleration takes the extra step).
pub proof fn lemma_symmetric_ramps_match(p: MotionProfile, signed_steps: int, v: int, a: int)
    requires
        0 <= v,
        0 <= a,
        p.is_trapezoid_for(signed_steps, v, a, a),
        ({
            let steps = if signed_steps >= 0 { signed_steps } else { -signed_steps };
            !(v > 0 && a > 0 && !reaches_cruise(steps, v, a, a) && steps % 2 == 1)
        }),
    ensures
        p.accel_steps == p.decel_steps,
{
    let steps = if signed_steps >= 0 { signed_steps } else { -signed_steps };
    if steps != 0 && v > 0 && a > 0 && !reaches_cruise(steps, v, a, a) {
        assert(steps * a == (steps / 2) * (2 * a)) by (nonlinear_arith)
            requires
                steps % 2 == 0,
                steps == 2 * (steps / 2),
        ;
        lemma_quotient(steps * a, 2 * a, steps / 2);
        assert(triangle_accel_steps(steps, a, a) == steps / 2);
    }
}

/// When the move cruises, the slower of the two rates has the longer ramp.
pub proof fn lemma_slower_ramp_is_longer(p: MotionProfile, signed_steps: int, v: int, a: int, d: int)
    requires
        v > 0,
        a >= d > 0,
        p.is_trapezoid_for(signed_steps, v, a, d),
        reaches_cruise(if signed_steps >= 0 { signed_steps } else { -signed_steps }, v, a, d),
    ensures
        p.accel_steps <= p.decel_steps,
{
    let s = v * v;
    assert(s >= 0) by (nonlinear_arith)
        requires
            s == v * v,
    ;
    let x = s / (2000 * a);
    lemma_div_bounds(s, 2000 * a);
    lemma_div_bounds(s, 2000 * d);
    assert(x * (2000 * d) <= s) by (nonlinear_arith)
        requires
            x * (2000 * a) <= s,
            a >= d > 0,
            s >= 0,
            x == s / (2000 * a),
    ;
    assert(x <= s / (2000 * d)) by (nonlinear_arith)
        requires
            x * (2000 * d) <= s,
            s < (s / (2000 * d)) * (2000 * d) + 2000 * d,
            d > 0,
    ;
    assert(ramp_steps(v, a) <= ramp_steps(v, d));
}

/// When the two ramps are at least as long as the move
/// (`v²/(2a) + v²/(2d) ≥ steps`, multiplied out by `2ad`; with rates in
/// thousandths, `V²·(A + D) ≥ 2000·A·D·steps`), it never cruises.
pub proof fn lemma_short_move_never_cruises(p: MotionProfile, signed_steps: int, v: int, a: int, d: int)
    requires
        0 <= v,
        a > 0,
        d > 0,
        p.is_trapezoid_for(signed_steps, v, a, d),
        v * v * (a + d) >= 2000 * a * d * (if signed_steps >= 0 { signed_steps } else { -signed_steps }),
    ensures
        p.cruise_steps == 0,
{
    let steps = if signed_steps >= 0 { signed_steps } else { -signed_steps };
    if v == 0 {
        assert(v * v * (a + d) == 0) by (nonlinear_arith)
            requires
                v == 0,
        ;
        assert(steps == 0) by (nonlinear_arith)
            requires
                0 >= 2000 * a * d * steps,
                a > 0,
                d > 0,
                steps >= 0,
        ;
    }
}

/// Phases come in order: as the step number grows, the phase never goes
/// back from complete to decelerating, from there to cruising, or from there
/// to accelerating.
pub proof fn lemma_phases_in_order(p: MotionProfile, s1: int, s2: int)
    requires
        0 <= s1 <= s2,
    ensures
        p.spec_phase_at(s1).rank() <= p.spec_phase_at(s2).rank(),
{
}

/// The direction of a profile is clockwise for a non-negative step count and
/// counter-clockwise for a negative one, and its length is the magnitude of
/// the step count; a move with a zero velocity or rate has no motion, so this
/// needs positive ones unless the step count is zero.
pub proof fn lemma_direction_follows_sign(p: MotionProfile, signed_steps: int, v: int, a: int, d: int)
    requires
        signed_steps == 0 || (v > 0 && a > 0 && d > 0),
        p.is_trapezoid_for(signed_steps, v, a, d),
    ensures
        signed_steps >= 0 ==> p.direction == Direction::Clockwise,
        signed_steps < 0 ==> p.direction == Direction::CounterClockwise,
        p.total_steps == (if signed_steps >= 0 { signed_steps } else { -signed_steps }),
{
}

/// `after` one more time is one more advance.
proof fn lemma_after_one_more(s: ExecutorView, k: nat)
    ensures
        s.after(k + 1) == s.after(k).next().0,
    decreases k,
{
    if k > 0 {
        lemma_after_one_more(s.next().0, (k - 1) as nat);
        assert(s.after(k) == s.next().0.after((k - 1) as nat));
        assert(s.after(k + 1) == s.next().0.after(k));
    } else {
        assert(s.after(1) == s.next().0.after(0));
    }
}

/// Where a fresh executor stands after `k` advances.
proof fn lemma_run_prefix(p: MotionProfile, k: nat)
    requires
        p.total_steps > 0,
        k <= p.total_steps,
    ensures
        ExecutorView::start(p).after(k).step == k,
        ExecutorView::start(p).after(k).profile == p,
        k < p.total_steps ==> ExecutorView::start(p).after(k).phase != MotionPhase::Complete,
        k == p.total_steps ==> ExecutorView::start(p).after(k).phase == MotionPhase::Complete,
        k > 0 ==> ExecutorView::start(p).after((k - 1) as nat).next().1 == (k < p.total_steps),
    decreases k,
{
    if k > 0 {
        lemma_run_prefix(p, (k - 1) as nat);
        lemma_after_one_more(ExecutorView::start(p), (k - 1) as nat);
    }
}

/// Advancing a fresh executor once per step of its profile completes it;
/// every advance but the last asks for a pulse; a further advance asks for
/// none and changes nothing.
pub proof fn lemma_advance_total_steps_completes(p: MotionProfile)
    ensures
        ExecutorView::start(p).after(p.total_steps as nat).phase == MotionPhase::Complete,
        ExecutorView::start(p).after(p.total_steps as nat).step == p.total_steps,
        forall|k: nat|
            k + 1 < p.total_steps ==> (#[trigger] ExecutorView::start(p).after(k)).next().1,
        ExecutorView::start(p).after(p.total_steps as nat).next() == (
            ExecutorView::start(p).after(p.total_steps as nat),
            false,
        ),
{
    if p.total_steps > 0 {
        lemma_run_prefix(p, p.total_steps as nat);
        assert forall|k: nat| k + 1 < p.total_steps implies (#[trigger] ExecutorView::start(
            p,
        ).after(k)).next().1 by {
            lemma_run_prefix(p, k + 1);
        }
    }
}

/// Converting a non-negative angle to steps and back loses less than one
/// step's angle.
proof fn lemma_round_trip_non_negative(d: int, n: int)
    requires
        d >= 0,
        n > 0,
    ensures
        ({
            let s = (d * n) / (MICRODEGREES_PER_TURN as int);
            let m = (s * MICRODEGREES_PER_TURN as int + n - 1) / n;
            &&& 0 <= s
            &&& 0 <= m <= d
            &&& (d - m) * n < MICRODEGREES_PER_TURN as int
        }),
{
    let k = MICRODEGREES_PER_TURN as int;
    let s = (d * n) / k;
    assert(d * n >= 0) by (nonlinear_arith)
        requires
            d >= 0,
            n > 0,
    ;
    lemma_div_bounds(d * n, k);
    assert(s >= 0);
    let m = (s * k + n - 1) / n;
    lemma_div_bounds(s * k + n - 1, n);
    assert(m * n >= s * k);
    assert(m >= 0) by (nonlinear_arith)
        requires
            m * n >= s * k,
            s >= 0,
            n > 0,
            k > 0,
    ;
    assert(m <= d) by (nonlinear_arith)
        requires
            m * n <= s * k + n - 1,
            s * k <= d * n,
            n > 0,
    ;
    assert((d - m) * n < k) by (nonlinear_arith)
        requires
            d * n < s * k + k,
            m * n >= s * k,
    ;
}

/// Setting a position by angle and reading it back as an angle gives the
/// angle again, within one step's angle (`360° / steps_per_rev`): the error
/// times the steps per revolution is below a full turn.
pub proof fn lemma_angle_round_trip(d: int, steps_per_rev: int)
    requires
        0 <= steps_per_rev <= u32::MAX,
        i64::MIN <= d <= i64::MAX,
        i64::MIN <= div_toward_zero(d * steps_per_rev, MICRODEGREES_PER_TURN as int) <= i64::MAX,
    ensures
        ({
            let back = angle_of_steps(steps_of_angle(d, steps_per_rev), steps_per_rev);
            let err = if back >= d { back - d } else { d - back };
            err * steps_per_rev < MICRODEGREES_PER_TURN as int
        }),
{
    let n = steps_per_rev;
    let k = MICRODEGREES_PER_TURN as int;
    let s = steps_of_angle(d, n);
    if n == 0 {
        assert(d * n == 0);
        assert(angle_of_steps(s, n) == 0);
        let back = angle_of_steps(s, n);
        let err = if back >= d { back - d } else { d - back };
        assert(err * n == 0);
    } else if d >= 0 {
        lemma_round_trip_non_negative(d, n);
        assert(s == (d * n) / k);
        assert(s * k >= 0) by (nonlinear_arith)
            requires
                s >= 0,
                k > 0,
        ;
    } else {
        lemma_round_trip_non_negative(-d, n);
        assert((-d) * n == -(d * n)) by (nonlinear_arith);
        let s1 = ((-d) * n) / k;
        assert(s == -s1);
        let m1 = (s1 * k + n - 1) / n;
        assert(s * k == -(s1 * k)) by (nonlinear_arith)
            requires
                s == -s1,
        ;
        assert(s1 * k >= 0) by (nonlinear_arith)
            requires
                s1 >= 0,
                k > 0,
        ;
        if s1 == 0 {
            assert(s * k == 0);
            assert((n - 1) / n == 0) by (nonlinear_arith)
                requires
                    n > 0,
            ;
            assert(m1 == 0) by (nonlinear_arith)
                requires
                    m1 == (s1 * k + n - 1) / n,
                    s1 == 0,
                    (n - 1) / n == 0,
            ;
        } else {
            assert(-(s * k) + n - 1 == s1 * k + n - 1);
        }
    }
}

/// Moving to the angle the motor reads as its position is a move of no
/// steps: the check refuses it as too short. Away from the origin this needs
/// a step of at least a microdegree (at most a full turn of microdegrees per
/// revolution), so that every step has an angle of its own, and an angle
/// within the range of `i64`.
pub proof fn lemma_move_to_current_angle_is_too_short(m: MotorView)
    requires
        m.wf(),
        0 <= m.constraints.steps_per_revolution,
        i64::MIN <= m.position.steps <= i64::MAX,
        m.position.steps == 0 || {
            &&& 0 < m.constraints.steps_per_revolution <= MICRODEGREES_PER_TURN
            &&& i64::MIN <= div_away_from_zero(
                m.position.steps * MICRODEGREES_PER_TURN as int,
                m.position.steps_per_rev,
            ) <= i64::MAX
        },
    ensures
        m.move_check(angle_of_steps(m.position.steps, m.position.steps_per_rev)) == Err::<int, Error>(
            Error::Motion(MotionError::MoveTooShort { steps: 0, minimum: 1 }),
        ),
{
    let n = m.position.steps_per_rev;
    let k = MICRODEGREES_PER_TURN as int;
    let s = m.position.steps;
    let target = angle_of_steps(s, n);
    if s == 0 {
        if n > 0 {
            assert((n - 1) / n == 0) by (nonlinear_arith)
                requires
                    n > 0,
            ;
        }
        assert(target == 0);
    } else if s > 0 {
        assert(s * k >= 0) by (nonlinear_arith)
            requires
                s >= 0,
                k > 0,
        ;
        lemma_div_bounds(s * k + n - 1, n);
        let a = target;
        assert(a * n >= s * k && a * n <= s * k + n - 1);
        assert(a >= 0) by (nonlinear_arith)
            requires
                a * n >= s * k,
                s * k >= 0,
                n > 0,
        ;
        assert(a * n >= 0) by (nonlinear_arith)
            requires
                a >= 0,
                n > 0,
        ;
        lemma_quotient(a * n, k, s);
    } else {
        let s1 = -s;
        assert(s * k == -(s1 * k)) by (nonlinear_arith)
            requires
                s1 == -s,
        ;
        assert(s1 * k > 0) by (nonlinear_arith)
            requires
                s1 > 0,
                k > 0,
        ;
        lemma_div_bounds(s1 * k + n - 1, n);
        let a1 = (s1 * k + n - 1) / n;
        assert(target == -a1);
        assert(a1 * n >= s1 * k && a1 * n <= s1 * k + n - 1);
        assert(a1 > 0) by (nonlinear_arith)
            requires
                a1 * n >= s1 * k,
                s1 * k > 0,
                n > 0,
        ;
        assert(target * n == -(a1 * n)) by (nonlinear_arith)
            requires
                target == -a1,
        ;
        lemma_quotient(a1 * n, k, s1);
    }
}

/// `pulses` one more time is one more pulse.
proof fn lemma_pulses_one_more(m: MotorView, k: nat)
    ensures
        m.pulses(k + 1) == m.pulses(k).pulse().0,
    decreases k,
{
    if k > 0 {
        lemma_pulses_one_more(m.pulse().0, (k - 1) as nat);
        assert(m.pulses(k) == m.pulse().0.pulses((k - 1) as nat));
        assert(m.pulses(k + 1) == m.pulse().0.pulses(k));
    } else {
        assert(m.pulses(1) == m.pulse().0.pulses(0));
    }
}

/// Where a motor stands after `k` pulses of a fresh move of profile `p`
/// whose steps all stay within the range of `i64`.
proof fn lemma_pulse_prefix(m: MotorView, p: MotionProfile, k: nat)
    requires
        p.total_steps > 0,
        k <= p.total_steps,
        m.executor == Some(ExecutorView::start(p)),
        i64::MIN <= m.position.steps <= i64::MAX,
        i64::MIN <= m.position.steps + p.direction.sign_of() * p.total_steps <= i64::MAX,
    ensures
        m.pulses(k) == (MotorView {
            position: PositionView {
                steps: m.position.steps + p.direction.sign_of() * k,
                ..m.position
            },
            executor: Some(ExecutorView::start(p).after(k)),
            ..m
        }),
    decreases k,
{
    if k > 0 {
        let j = (k - 1) as nat;
        lemma_pulse_prefix(m, p, j);
        lemma_pulses_one_more(m, j);
        lemma_run_prefix(p, j);
        lemma_run_prefix(p, k);
        lemma_after_one_more(ExecutorView::start(p), j);
        let sign = p.direction.sign_of();
        assert(sign * k == sign * j + sign) by (nonlinear_arith)
            requires
                k == j + 1,
        ;
        assert(i64::MIN <= m.position.steps + sign * k <= i64::MAX) by (nonlinear_arith)
            requires
                sign == 1 || sign == -1,
                0 <= k <= p.total_steps,
                i64::MIN <= m.position.steps <= i64::MAX,
                i64::MIN <= m.position.steps + sign * p.total_steps <= i64::MAX,
        ;
    }
}

/// A move that the checks accept, once a pulse has been recorded for each
/// step of its profile, is complete and leaves the motor at the target's
/// step count (the nearer bound when clamping soft limits apply). This needs a positive velocity and acceleration (else the
/// move has no motion).
pub proof fn lemma_completed_move_reaches_target(m: MotorView, moving: MotorView, target: int)
    requires
        m.move_check(target) is Ok,
        m.constraints.max_velocity_steps_per_sec > 0,
        m.constraints.max_acceleration_steps_per_sec2 > 0,
        i64::MIN <= m.position.steps <= i64::MAX,
        moving.position == m.position,
        moving.executor matches Some(e) && e == ExecutorView::start(e.profile)
            && e.profile.is_trapezoid_for(
            m.move_check(target)->Ok_0,
            m.constraints.max_velocity_steps_per_sec as int,
            m.constraints.max_acceleration_steps_per_sec2 as int,
            m.constraints.max_acceleration_steps_per_sec2 as int,
        ),
    ensures
        ({
            let p = moving.executor->Some_0.profile;
            let done = moving.pulses(p.total_steps as nat);
            &&& done.position.steps == m.move_end(target)
            &&& done.executor matches Some(f) && f.phase == MotionPhase::Complete
        }),
{
    let delta = m.move_check(target)->Ok_0;
    let p = moving.executor->Some_0.profile;
    assert(p.total_steps == (if delta >= 0 { delta } else { -delta }));
    assert(p.direction.sign_of() * p.total_steps == delta);
    lemma_pulse_prefix(moving, p, p.total_steps as nat);
    lemma_run_prefix(p, p.total_steps as nat);
}

} // verus!
