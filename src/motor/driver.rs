//! Stepper motor driver core.
//!
//! The driver decides; the caller touches the hardware. Each operation that
//! needs a pin write or a wait either tells the caller what to write
//! ([`StepperMotor::direction_level`]) and takes the outcome as an argument
//! ([`StepperMotor::move_to`]), or is called once the pulse has been issued
//! and returns the wait before the next one ([`StepperMotor::step`]).
//! Lifecycle states are marker types: a transition consumes the motor and
//! returns it under its new state.

use vstd::prelude::*;
use vstd::string::StringExecFns;

use super::position::{Position, PositionView};
use super::state::{Idle, MotorState, Moving, StateName};
use crate::config::mechanical::MechanicalConstraints;
use crate::config::system::has_name;
use crate::config::units::{angle_of_steps, steps_of_angle, Degrees, Steps};
use crate::error::{Error, MotionError, MotorError, TrajectoryError};
use crate::motion::executor::{ExecutorView, MotionExecutor};
use crate::motion::profile::{Direction, MotionPhase, MotionProfile};
use crate::trajectory::registry::TrajectoryRegistry;

verus! {

/// Width of a STEP pulse, in nanoseconds.
pub const PULSE_WIDTH_NS: u32 = 2000;

/// Width of a STEP pulse, in microseconds.
pub const PULSE_WIDTH_US: u32 = 2;

/// What a motor holds, whatever its state.
pub struct MotorView {
    /// Absolute position.
    pub position: PositionView,
    /// Direction the DIR pin was last set to, if any.
    pub direction: Option<Direction>,
    /// Mechanical constraints.
    pub constraints: MechanicalConstraints,
    /// Name.
    pub name: Seq<char>,
    /// Whether the DIR pin's levels are swapped.
    pub invert_direction: bool,
    /// Backlash compensation in steps.
    pub backlash_steps: int,
    /// The move being run, if any.
    pub executor: Option<ExecutorView>,
}

impl MotorView {
    /// The position converts at the constraints' step ratio.
    pub open spec fn wf(self) -> bool {
        self.position.steps_per_rev == self.constraints.steps_per_revolution
    }

    /// Step count a move to `target` microdegrees ends at: the target's step
    /// count, or the nearer bound when clamping soft limits send it there.
    /// (Where rejecting limits refuse the target, the target's step count.)
    pub open spec fn move_end(self, target: int) -> int {
        let t = steps_of_angle(target, self.constraints.steps_per_revolution as int);
        match self.constraints.limits {
            Some(l) => match l.spec_apply(t) {
                Some(c) => c,
                None => t,
            },
            None => t,
        }
    }

    /// Outcome of the checks of a move to `target` microdegrees: the signed
    /// step count to run, or the error.
    ///
    /// A move to the current step count is too short. A target that
    /// rejecting soft limits refuse exceeds the bound on the side of the
    /// move; clamping limits move the end to the nearer bound, and an end at
    /// the current step count is too short. A move longer than `u32::MAX`
    /// steps overflows.
    pub open spec fn move_check(self, target: int) -> Result<int, Error> {
        let t = steps_of_angle(target, self.constraints.steps_per_revolution as int);
        let delta = self.move_end(target) - self.position.steps;
        if t == self.position.steps {
            Err(Error::Motion(MotionError::MoveTooShort { steps: 0, minimum: 1 }))
        } else if (match self.constraints.limits {
            Some(l) => l.spec_apply(t) is None,
            None => false,
        }) {
            let l = self.constraints.limits->Some_0;
            Err(
                Error::Motor(
                    MotorError::LimitExceeded {
                        position: t as i64,
                        limit: if t > self.position.steps { l.max_steps } else { l.min_steps },
                    },
                ),
            )
        } else if delta == 0 {
            Err(Error::Motion(MotionError::MoveTooShort { steps: 0, minimum: 1 }))
        } else if delta < -(u32::MAX as int) || delta > u32::MAX {
            Err(Error::Motion(MotionError::Overflow))
        } else {
            Ok(delta)
        }
    }

    /// Direction of the profile of a move of `delta` steps: that of `delta`,
    /// or clockwise when the motor's velocity or acceleration is zero (no
    /// motion).
    pub open spec fn move_direction(self, delta: int) -> Direction {
        if self.constraints.max_velocity_steps_per_sec == 0
            || self.constraints.max_acceleration_steps_per_sec2 == 0 {
            Direction::Clockwise
        } else {
            Direction::of_steps(delta)
        }
    }

    /// DIR pin level needed for `direction`: none when the pin is already
    /// set that way, else high for clockwise (low when inverted).
    pub open spec fn dir_level(self, direction: Direction) -> Option<bool> {
        if self.direction == Some(direction) {
            None
        } else {
            Some((direction == Direction::Clockwise) != self.invert_direction)
        }
    }

    /// One recorded STEP pulse: the motor afterwards and the report.
    ///
    /// Without a move this is an error; on a complete move nothing changes.
    /// Otherwise the position moves one step in the profile's direction and
    /// the executor advances; the report gives the wait before the next
    /// pulse (the interval of the step just issued less the pulse width), or
    /// zero when the move is now complete. A position at the end of the `i64`
    /// range overflows and nothing changes.
    pub open spec fn pulse(self) -> (MotorView, Result<StepReport, Error>) {
        match self.executor {
            None => (self, Err(Error::Motor(MotorError::NotInitialized))),
            Some(e) => if e.phase == MotionPhase::Complete {
                (self, Ok(StepReport { complete: true, wait_ns: 0 }))
            } else {
                let steps = self.position.steps + e.profile.direction.sign_of();
                if steps < i64::MIN || steps > i64::MAX {
                    (self, Err(Error::Motion(MotionError::Overflow)))
                } else {
                    let (next, more) = e.next();
                    (
                        MotorView {
                            position: PositionView { steps, ..self.position },
                            executor: Some(next),
                            ..self
                        },
                        Ok(
                            StepReport {
                                complete: !more,
                                wait_ns: if more && e.interval > PULSE_WIDTH_NS {
                                    (e.interval - PULSE_WIDTH_NS) as u32
                                } else {
                                    0
                                },
                            },
                        ),
                    )
                }
            },
        }
    }

    /// The motor after `n` recorded pulses.
    pub open spec fn pulses(self, n: nat) -> MotorView
        decreases n,
    {
        if n == 0 {
            self
        } else {
            self.pulse().0.pulses((n - 1) as nat)
        }
    }
}

/// Outcome of one recorded STEP pulse.
#[derive(Debug, Clone, Copy, PartialEq, Eq, Structural)]
pub struct StepReport {
    /// Whether the move is now complete.
    pub complete: bool,
    /// Nanoseconds to wait before the next pulse (zero when complete).
    pub wait_ns: u32,
}

/// A stepper motor in lifecycle state `S`.
pub struct StepperMotor<S> {
    position: Position,
    current_direction: Option<Direction>,
    constraints: MechanicalConstraints,
    name: String,
    invert_direction: bool,
    backlash_steps: i64,
    executor: Option<MotionExecutor>,
    state: S,
}

impl<S> StepperMotor<S> {
    /// Every motor is well-formed.
    #[verifier::type_invariant]
    closed spec fn inv(&self) -> bool {
        self@.wf()
    }
}

impl<S> View for StepperMotor<S> {
    type V = MotorView;

    closed spec fn view(&self) -> MotorView {
        MotorView {
            position: self.position@,
            direction: self.current_direction,
            constraints: self.constraints,
            name: self.name@,
            invert_direction: self.invert_direction,
            backlash_steps: self.backlash_steps as int,
            executor: match self.executor {
                Some(e) => Some(e@),
                None => None,
            },
        }
    }
}

impl<S: MotorState + StateName> StepperMotor<S> {
    /// The motor's name.
    pub fn name(&self) -> (r: &str)
        ensures
            r@ == self@.name,
    {
        self.name.as_str()
    }

    /// Position in steps.
    pub fn position_steps(&self) -> (r: Steps)
        ensures
            r.0 == self@.position.steps,
    {
        self.position.steps()
    }

    /// Position as an angle.
    pub fn position_degrees(&self) -> (r: Degrees)
        ensures
            r.0 == angle_of_steps(self@.position.steps, self@.position.steps_per_rev),
    {
        self.position.degrees()
    }

    /// The mechanical constraints.
    pub fn constraints(&self) -> (r: &MechanicalConstraints)
        ensures
            *r == self@.constraints,
    {
        &self.constraints
    }

    /// Name of the lifecycle state.
    pub fn state_name(&self) -> &'static str {
        S::name()
    }

    /// Backlash compensation in steps.
    pub fn backlash_steps(&self) -> (r: i64)
        ensures
            r == self@.backlash_steps,
    {
        self.backlash_steps
    }

    /// DIR pin level needed to move in `direction`; see
    /// [`MotorView::dir_level`].
    pub fn direction_level(&self, direction: Direction) -> (r: Option<bool>)
        ensures
            r == self@.dir_level(direction),
    {
        match self.current_direction {
            Some(d) => {
                if d == direction {
                    return None;
                }
            },
            None => {},
        }
        let clockwise = match direction {
            Direction::Clockwise => true,
            Direction::CounterClockwise => false,
        };
        Some(clockwise != self.invert_direction)
    }

    /// The motor under another state, with the DIR pin last set to
    /// `direction` and `executor` as its move.
    fn retag<T>(self, state: T, direction: Option<Direction>, executor: Option<MotionExecutor>) -> (r:
        StepperMotor<T>)
        ensures
            r@ == (MotorView {
                direction,
                executor: match executor {
                    Some(e) => Some(e@),
                    None => None,
                },
                ..self@
            }),
    {
        proof {
            use_type_invariant(&self);
        }
        StepperMotor {
            position: self.position,
            current_direction: direction,
            constraints: self.constraints,
            name: self.name,
            invert_direction: self.invert_direction,
            backlash_steps: self.backlash_steps,
            executor,
            state,
        }
    }
}

impl StepperMotor<Idle> {
    /// An idle motor at the origin.
    pub fn new(
        constraints: MechanicalConstraints,
        name: String,
        invert_direction: bool,
        backlash_steps: i64,
    ) -> (r: Self)
        ensures
            r@ == (MotorView {
                position: PositionView {
                    steps: 0,
                    steps_per_rev: constraints.steps_per_revolution as int,
                },
                direction: None,
                constraints,
                name: name@,
                invert_direction,
                backlash_steps: backlash_steps as int,
                executor: None,
            }),
    {
        let position = Position::new(constraints.steps_per_revolution);
        StepperMotor {
            position,
            current_direction: None,
            constraints,
            name,
            invert_direction,
            backlash_steps,
            executor: None,
            state: Idle,
        }
    }

    /// The profile of a move to `target`, or why it cannot be made; see
    /// [`MotorView::move_check`]. Touches nothing.
    pub fn plan_move(&self, target: Degrees) -> (r: Result<MotionProfile, Error>)
        ensures
            match self@.move_check(target.0 as int) {
                Err(e) => r == Err::<MotionProfile, Error>(e),
                Ok(delta) => r matches Ok(p) && p.wf() && p.is_trapezoid_for(
                    delta,
                    self@.constraints.max_velocity_steps_per_sec as int,
                    self@.constraints.max_acceleration_steps_per_sec2 as int,
                    self@.constraints.max_acceleration_steps_per_sec2 as int,
                ) && p.direction == self@.move_direction(delta),
            },
    {
        let target_steps = Steps::from_degrees(target, self.constraints.steps_per_revolution).0;
        let here = self.position.steps().0;
        if target_steps == here {
            return Err(Error::Motion(MotionError::MoveTooShort { steps: 0, minimum: 1 }));
        }
        let end = match &self.constraints.limits {
            Some(limits) => match limits.apply(target_steps) {
                Some(c) => c,
                None => {
                    let limit = if target_steps > here {
                        limits.max_steps
                    } else {
                        limits.min_steps
                    };
                    return Err(
                        Error::Motor(MotorError::LimitExceeded { position: target_steps, limit }),
                    );
                },
            },
            None => target_steps,
        };
        let delta = (end as i128) - (here as i128);
        if delta == 0 {
            return Err(Error::Motion(MotionError::MoveTooShort { steps: 0, minimum: 1 }));
        }
        if delta < -(u32::MAX as i128) || delta > u32::MAX as i128 {
            return Err(Error::Motion(MotionError::Overflow));
        }
        Ok(
            MotionProfile::symmetric_trapezoidal(
                delta as i64,
                self.constraints.max_velocity_steps_per_sec,
                self.constraints.max_acceleration_steps_per_sec2,
            ),
        )
    }

    /// Starts a move to `target`.
    ///
    /// `dir_written` is the outcome of writing the DIR pin to the level that
    /// [`StepperMotor::direction_level`] gave for the planned profile's
    /// direction (ignored when no write was needed). When the move's checks
    /// fail, or a needed write failed, the motor comes back unchanged with the
    /// error. Otherwise it moves, with the direction recorded and a fresh
    /// executor for the profile.
    pub fn move_to(self, target: Degrees, dir_written: bool) -> (r: Result<
        StepperMotor<Moving>,
        (Self, Error),
    >)
        ensures
            match self@.move_check(target.0 as int) {
                Err(e) => r matches Err(p) && p.0@ == self@ && p.1 == e,
                Ok(delta) => {
                    let dir = self@.move_direction(delta);
                    if self@.dir_level(dir) is Some && !dir_written {
                        r matches Err(p) && p.0@ == self@ && p.1 == Error::Motor(
                            MotorError::PinError,
                        )
                    } else {
                        r matches Ok(m) && m@.executor matches Some(e) && e == ExecutorView::start(
                            e.profile,
                        ) && e.wf() && e.profile.wf() && e.profile.is_trapezoid_for(
                            delta,
                            self@.constraints.max_velocity_steps_per_sec as int,
                            self@.constraints.max_acceleration_steps_per_sec2 as int,
                            self@.constraints.max_acceleration_steps_per_sec2 as int,
                        ) && m@ == (MotorView {
                            direction: Some(dir),
                            executor: m@.executor,
                            ..self@
                        })
                    }
                },
            },
    {
        let profile = match self.plan_move(target) {
            Ok(p) => p,
            Err(e) => {
                return Err((self, e));
            },
        };
        let direction = profile.direction;
        if self.direction_level(direction).is_some() && !dir_written {
            return Err((self, Error::Motor(MotorError::PinError)));
        }
        Ok(self.retag(Moving, Some(direction), Some(MotionExecutor::new(profile))))
    }

    /// Starts a move by `delta` from the current angle; see
    /// [`StepperMotor::move_to`]. A target beyond the range of angles
    /// overflows, and the motor comes back unchanged.
    pub fn move_by(self, delta: Degrees, dir_written: bool) -> (r: Result<
        StepperMotor<Moving>,
        (Self, Error),
    >)
        ensures
            ({
                let here = angle_of_steps(self@.position.steps, self@.position.steps_per_rev);
                let target = here + delta.0;
                if target < i64::MIN || target > i64::MAX {
                    r matches Err(p) && p.0@ == self@ && p.1 == Error::Motion(MotionError::Overflow)
                } else {
                    match self@.move_check(target) {
                        Err(e) => r matches Err(p) && p.0@ == self@ && p.1 == e,
                        Ok(delta) => {
                            let dir = self@.move_direction(delta);
                            if self@.dir_level(dir) is Some && !dir_written {
                                r matches Err(p) && p.0@ == self@ && p.1 == Error::Motor(
                                    MotorError::PinError,
                                )
                            } else {
                                r matches Ok(m) && m@.executor matches Some(e) && e
                                    == ExecutorView::start(e.profile) && e.wf() && e.profile.wf()
                                    && e.profile.is_trapezoid_for(
                                    delta,
                                    self@.constraints.max_velocity_steps_per_sec as int,
                                    self@.constraints.max_acceleration_steps_per_sec2 as int,
                                    self@.constraints.max_acceleration_steps_per_sec2 as int,
                                ) && m@ == (MotorView {
                                    direction: Some(dir),
                                    executor: m@.executor,
                                    ..self@
                                })
                            }
                        },
                    }
                }
            }),
    {
        let here = self.position.degrees().0 as i128;
        let target = here + delta.0 as i128;
        if target < i64::MIN as i128 || target > i64::MAX as i128 {
            return Err((self, Error::Motion(MotionError::Overflow)));
        }
        self.move_to(Degrees(target as i64), dir_written)
    }

    /// Target of the trajectory `trajectory_name` of `registry`, when it is
    /// one for this motor; else the error that refuses it.
    pub fn trajectory_target(&self, trajectory_name: &str, registry: &TrajectoryRegistry) -> (r:
        Result<Degrees, Error>)
        ensures
            !has_name(registry@, trajectory_name@) ==> (r matches Err(
                Error::Trajectory(TrajectoryError::InvalidName(m)),
            ) && m@ == "trajectory '"@ + trajectory_name@ + "' not found"@),
            forall|i: int|
                0 <= i < registry@.len() && (#[trigger] registry@[i]).0@ == trajectory_name@ ==> {
                    &&& registry@[i].1.motor@ == self@.name ==> r == Ok::<Degrees, Error>(
                        registry@[i].1.target_degrees,
                    )
                    &&& registry@[i].1.motor@ != self@.name ==> (r matches Err(
                        Error::Trajectory(TrajectoryError::InvalidName(m)),
                    ) && m@ == "trajectory '"@ + trajectory_name@ + "' is for motor '"@
                        + registry@[i].1.motor@ + "'"@)
                },
    {
        let trajectory = match registry.get(trajectory_name) {
            Some(t) => t,
            None => {
                let mut msg = "trajectory '".to_owned();
                msg.append(trajectory_name);
                msg.append("' not found");
                return Err(Error::Trajectory(TrajectoryError::InvalidName(msg)));
            },
        };
        if trajectory.motor != self.name {
            let mut msg = "trajectory '".to_owned();
            msg.append(trajectory_name);
            msg.append("' is for motor '");
            msg.append(trajectory.motor.as_str());
            msg.append("'");
            return Err(Error::Trajectory(TrajectoryError::InvalidName(msg)));
        }
        Ok(trajectory.target_degrees)
    }

    /// Makes the current position the origin.
    pub fn set_origin(&mut self)
        ensures
            final(self)@ == (MotorView {
                position: PositionView { steps: 0, ..old(self)@.position },
                ..old(self)@
            }),
    {
        proof {
            use_type_invariant(&*self);
        }
        let mut position = self.position;
        position.set_origin();
        self.position = position;
    }

    /// Sets the position to the step count of an angle.
    pub fn set_position(&mut self, degrees: Degrees)
        ensures
            final(self)@ == (MotorView {
                position: PositionView {
                    steps: steps_of_angle(degrees.0 as int, old(self)@.position.steps_per_rev),
                    ..old(self)@.position
                },
                ..old(self)@
            }),
    {
        proof {
            use_type_invariant(&*self);
        }
        let mut position = self.position;
        position.set_degrees(degrees);
        self.position = position;
    }
}

impl StepperMotor<Moving> {
    /// Whether a STEP pulse is due: an error when there is no move, false
    /// once the move is complete, and an overflow when the step could not be
    /// recorded (the position is at the end of the `i64` range), so that no
    /// pulse is issued that [`StepperMotor::step`] would refuse.
    pub fn pulse_due(&self) -> (r: Result<bool, Error>)
        ensures
            match self@.executor {
                None => r == Err::<bool, Error>(Error::Motor(MotorError::NotInitialized)),
                Some(e) => if e.phase == MotionPhase::Complete {
                    r == Ok::<bool, Error>(false)
                } else if self@.position.steps + e.profile.direction.sign_of() < i64::MIN
                    || self@.position.steps + e.profile.direction.sign_of() > i64::MAX {
                    r == Err::<bool, Error>(Error::Motion(MotionError::Overflow))
                } else {
                    r == Ok::<bool, Error>(true)
                },
            },
    {
        match &self.executor {
            None => Err(Error::Motor(MotorError::NotInitialized)),
            Some(e) => {
                if e.is_complete() {
                    return Ok(false);
                }
                let sign = e.profile().direction.sign();
                let here = self.position.steps().0;
                if (sign > 0 && here == i64::MAX) || (sign < 0 && here == i64::MIN) {
                    Err(Error::Motion(MotionError::Overflow))
                } else {
                    Ok(true)
                }
            },
        }
    }

    /// Records one STEP pulse that was just issued; see [`MotorView::pulse`].
    pub fn step(&mut self) -> (r: Result<StepReport, Error>)
        ensures
            final(self)@.wf(),
            (final(self)@, r) == old(self)@.pulse(),
    {
        proof {
            use_type_invariant(&*self);
        }
        let mut executor = match self.executor {
            None => {
                return Err(Error::Motor(MotorError::NotInitialized));
            },
            Some(e) => e,
        };
        if executor.is_complete() {
            return Ok(StepReport { complete: true, wait_ns: 0 });
        }
        let sign = executor.profile().direction.sign();
        let here = self.position.steps().0;
        if (sign > 0 && here == i64::MAX) || (sign < 0 && here == i64::MIN) {
            return Err(Error::Motion(MotionError::Overflow));
        }
        let mut position = self.position;
        position.move_steps(sign);
        self.position = position;
        let interval = executor.current_interval_ns();
        let more = executor.advance();
        self.executor = Some(executor);
        let wait_ns = if more {
            if interval > PULSE_WIDTH_NS {
                interval - PULSE_WIDTH_NS
            } else {
                0
            }
        } else {
            0
        };
        Ok(StepReport { complete: !more, wait_ns })
    }

    /// Whether the move is complete (or there is none).
    pub fn is_complete(&self) -> (r: bool)
        ensures
            r == (match self@.executor {
                None => true,
                Some(e) => e.phase == MotionPhase::Complete,
            }),
    {
        match &self.executor {
            None => true,
            Some(e) => e.is_complete(),
        }
    }

    /// Share of the move done, in parts per million; a whole without a move.
    pub fn progress(&self) -> (r: u32)
        ensures
            r == (match self@.executor {
                None => 1_000_000,
                Some(e) => if e.profile.total_steps == 0 {
                    1_000_000
                } else {
                    e.step * 1_000_000 / e.profile.total_steps as int
                },
            }),
    {
        proof {
            use_type_invariant(self);
        }
        match &self.executor {
            None => 1_000_000,
            Some(e) => e.progress(),
        }
    }

    /// Current phase of the move; complete without a move.
    pub fn phase(&self) -> (r: MotionPhase)
        ensures
            r == (match self@.executor {
                None => MotionPhase::Complete,
                Some(e) => e.phase,
            }),
    {
        match &self.executor {
            None => MotionPhase::Complete,
            Some(e) => e.phase(),
        }
    }

    /// Ends the move, complete or not, and returns the idle motor. The
    /// position is where the pulses issued so far have left it.
    pub fn finish(self) -> (r: StepperMotor<Idle>)
        ensures
            r@ == (MotorView { executor: None, ..self@ }),
    {
        let direction = self.current_direction;
        self.retag(Idle, direction, None)
    }
}

} // verus!
