//! Absolute position of a motor, in steps from its origin.

use vstd::prelude::*;

use crate::config::units::{angle_of_steps, steps_of_angle, Degrees, Steps};

verus! {

/// What a position holds: a step count and the steps per revolution used to
/// convert it to an angle.
pub struct PositionView {
    /// Steps from the origin.
    pub steps: int,
    /// Steps per output revolution.
    pub steps_per_rev: int,
}

/// Absolute position tracker.
#[derive(Debug, Clone, Copy, Default)]
pub struct Position {
    steps: Steps,
    steps_per_revolution: u32,
}

impl View for Position {
    type V = PositionView;

    closed spec fn view(&self) -> PositionView {
        PositionView { steps: self.steps.0 as int, steps_per_rev: self.steps_per_revolution as int }
    }
}

impl Position {
    /// A tracker at the origin.
    pub fn new(steps_per_revolution: u32) -> (r: Self)
        ensures
            r@ == (PositionView { steps: 0, steps_per_rev: steps_per_revolution as int }),
    {
        Position { steps: Steps(0), steps_per_revolution }
    }

    /// A tracker at `steps`.
    pub fn at(steps: Steps, steps_per_revolution: u32) -> (r: Self)
        ensures
            r@ == (PositionView { steps: steps.0 as int, steps_per_rev: steps_per_revolution as int }),
    {
        Position { steps, steps_per_revolution }
    }

    /// The position in steps.
    pub fn steps(&self) -> (r: Steps)
        ensures
            r.0 == self@.steps,
    {
        self.steps
    }

    /// The position as an angle (rounded away from zero).
    pub fn degrees(&self) -> (r: Degrees)
        ensures
            r.0 == angle_of_steps(self@.steps, self@.steps_per_rev),
    {
        self.steps.to_degrees(self.steps_per_revolution)
    }

    /// Sets the position in steps.
    pub fn set_steps(&mut self, steps: Steps)
        ensures
            final(self)@ == (PositionView { steps: steps.0 as int, ..old(self)@ }),
    {
        self.steps = steps;
    }

    /// Sets the position to the step count of an angle (rounded toward zero).
    pub fn set_degrees(&mut self, degrees: Degrees)
        ensures
            final(self)@ == (PositionView {
                steps: steps_of_angle(degrees.0 as int, old(self)@.steps_per_rev),
                ..old(self)@
            }),
    {
        self.steps = Steps::from_degrees(degrees, self.steps_per_revolution);
    }

    /// Moves by `delta` steps.
    pub fn move_steps(&mut self, delta: i64)
        requires
            i64::MIN <= old(self)@.steps + delta <= i64::MAX,
        ensures
            final(self)@ == (PositionView { steps: old(self)@.steps + delta, ..old(self)@ }),
    {
        self.steps = Steps(self.steps.0 + delta);
    }

    /// Moves by the step count of an angle (rounded toward zero).
    pub fn move_degrees(&mut self, delta: Degrees)
        requires
            i64::MIN <= old(self)@.steps + steps_of_angle(delta.0 as int, old(self)@.steps_per_rev)
                <= i64::MAX,
        ensures
            final(self)@ == (PositionView {
                steps: old(self)@.steps + steps_of_angle(delta.0 as int, old(self)@.steps_per_rev),
                ..old(self)@
            }),
    {
        let delta_steps = Steps::from_degrees(delta, self.steps_per_revolution).0;
        self.move_steps(delta_steps);
    }

    /// Returns to the origin.
    pub fn reset(&mut self)
        ensures
            final(self)@ == (PositionView { steps: 0, ..old(self)@ }),
    {
        self.steps = Steps(0);
    }

    /// Makes the current position the origin.
    pub fn set_origin(&mut self)
        ensures
            final(self)@ == (PositionView { steps: 0, ..old(self)@ }),
    {
        self.steps = Steps(0);
    }

    /// Steps per output revolution.
    pub fn steps_per_revolution(&self) -> (r: u32)
        ensures
            r == self@.steps_per_rev,
    {
        self.steps_per_revolution
    }

    /// Steps from here to the step count of `target`.
    pub fn steps_to(&self, target: Degrees) -> (r: i64)
        requires
            i64::MIN <= steps_of_angle(target.0 as int, self@.steps_per_rev) - self@.steps
                <= i64::MAX,
        ensures
            r == steps_of_angle(target.0 as int, self@.steps_per_rev) - self@.steps,
    {
        let target_steps = Steps::from_degrees(target, self.steps_per_revolution);
        target_steps.0 - self.steps.0
    }
}

} // verus!
