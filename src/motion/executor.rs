//! Step-by-step execution of a motion profile.

use vstd::prelude::*;

use super::profile::{MotionPhase, MotionProfile};

verus! {

/// Parts per million in a whole.
pub const PARTS_PER_MILLION: u32 = 1_000_000;

/// What an executor holds: its profile and its cursor.
pub struct ExecutorView {
    /// The profile being run.
    pub profile: MotionProfile,
    /// Number of the current step, from 0.
    pub step: int,
    /// Interval before the current step, in nanoseconds.
    pub interval: int,
    /// Current phase.
    pub phase: MotionPhase,
}

impl ExecutorView {
    /// The cursor stays within the move, and before its end unless complete.
    pub open spec fn wf(self) -> bool {
        &&& 0 <= self.step <= self.profile.total_steps
        &&& self.phase != MotionPhase::Complete ==> self.step < self.profile.total_steps
    }

    /// The state of a fresh executor for `profile`: at step 0, accelerating
    /// from the first interval, or complete when the profile has no steps.
    pub open spec fn start(profile: MotionProfile) -> ExecutorView {
        ExecutorView {
            profile,
            step: 0,
            interval: if profile.total_steps == 0 {
                u32::MAX as int
            } else {
                profile.initial_interval_ns as int
            },
            phase: if profile.total_steps == 0 {
                MotionPhase::Complete
            } else {
                MotionPhase::Accelerating
            },
        }
    }

    /// One advance: the next state and whether a pulse is due.
    ///
    /// A complete executor stays as it is. Otherwise the cursor moves on; at
    /// the end of the move the executor becomes complete with the longest
    /// interval, else it takes the profile's phase and interval for the new
    /// step.
    pub open spec fn next(self) -> (ExecutorView, bool) {
        if self.phase == MotionPhase::Complete {
            (self, false)
        } else if self.step + 1 >= self.profile.total_steps {
            (
                ExecutorView {
                    step: self.step + 1,
                    interval: u32::MAX as int,
                    phase: MotionPhase::Complete,
                    ..self
                },
                false,
            )
        } else {
            (
                ExecutorView {
                    step: self.step + 1,
                    interval: self.profile.spec_interval_at(self.step + 1),
                    phase: self.profile.spec_phase_at(self.step + 1),
                    ..self
                },
                true,
            )
        }
    }

    /// The state after `n` advances.
    pub open spec fn after(self, n: nat) -> ExecutorView
        decreases n,
    {
        if n == 0 {
            self
        } else {
            self.next().0.after((n - 1) as nat)
        }
    }
}

/// Runs a motion profile one step at a time.
#[derive(Debug, Clone, Copy)]
pub struct MotionExecutor {
    profile: MotionProfile,
    current_step: u32,
    current_interval_ns: u32,
    phase: MotionPhase,
}

impl MotionExecutor {
    /// Every executor is well-formed.
    #[verifier::type_invariant]
    closed spec fn inv(&self) -> bool {
        self@.wf()
    }
}

impl View for MotionExecutor {
    type V = ExecutorView;

    closed spec fn view(&self) -> ExecutorView {
        ExecutorView {
            profile: self.profile,
            step: self.current_step as int,
            interval: self.current_interval_ns as int,
            phase: self.phase,
        }
    }
}

impl MotionExecutor {
    /// An executor at the start of `profile`.
    pub fn new(profile: MotionProfile) -> (r: Self)
        ensures
            r@ == ExecutorView::start(profile),
    {
        let phase = if profile.is_zero() {
            MotionPhase::Complete
        } else {
            MotionPhase::Accelerating
        };
        let interval = if profile.is_zero() {
            u32::MAX
        } else {
            profile.initial_interval_ns
        };
        MotionExecutor { profile, current_step: 0, current_interval_ns: interval, phase }
    }

    /// Whether every step has been issued.
    pub fn is_complete(&self) -> (r: bool)
        ensures
            r == (self@.phase == MotionPhase::Complete),
    {
        self.phase == MotionPhase::Complete
    }

    /// Number of the current step, from 0.
    pub fn current_step(&self) -> (r: u32)
        ensures
            r == self@.step,
    {
        self.current_step
    }

    /// Steps in the whole move.
    pub fn total_steps(&self) -> (r: u32)
        ensures
            r == self@.profile.total_steps,
    {
        self.profile.total_steps
    }

    /// Steps not yet reached, never below zero.
    pub fn steps_remaining(&self) -> (r: u32)
        ensures
            r == (if self@.step <= self@.profile.total_steps {
                self@.profile.total_steps - self@.step
            } else {
                0
            }),
    {
        if self.current_step <= self.profile.total_steps {
            self.profile.total_steps - self.current_step
        } else {
            0
        }
    }

    /// The current phase.
    pub fn phase(&self) -> (r: MotionPhase)
        ensures
            r == self@.phase,
    {
        self.phase
    }

    /// Interval before the current step, in nanoseconds.
    pub fn current_interval_ns(&self) -> (r: u32)
        ensures
            r == self@.interval,
    {
        self.current_interval_ns
    }

    /// The profile being run.
    pub fn profile(&self) -> (r: &MotionProfile)
        ensures
            *r == self@.profile,
    {
        &self.profile
    }

    /// Moves to the next step; returns whether a pulse is due for it. See
    /// [`ExecutorView::next`].
    pub fn advance(&mut self) -> (r: bool)
        ensures
            (final(self)@, r) == old(self)@.next(),
            final(self)@.wf(),
    {
        proof {
            use_type_invariant(&*self);
        }
        if self.is_complete() {
            return false;
        }
        let step = self.current_step + 1;
        if step >= self.profile.total_steps {
            *self = MotionExecutor {
                profile: self.profile,
                current_step: step,
                current_interval_ns: u32::MAX,
                phase: MotionPhase::Complete,
            };
            return false;
        }
        *self = MotionExecutor {
            profile: self.profile,
            current_step: step,
            current_interval_ns: self.profile.interval_at(step),
            phase: self.profile.phase_at(step),
        };
        true
    }

    /// Returns to the start of the same profile.
    pub fn reset(&mut self)
        ensures
            final(self)@ == ExecutorView::start(old(self)@.profile),
            final(self)@.wf(),
    {
        *self = MotionExecutor::new(self.profile);
    }

    /// Share of the move done, in parts per million (rounded down); a whole
    /// for a profile without steps.
    pub fn progress(&self) -> (r: u32)
        ensures
            r == (if self@.profile.total_steps == 0 {
                PARTS_PER_MILLION as int
            } else {
                self@.step * PARTS_PER_MILLION as int / self@.profile.total_steps as int
            }),
    {
        proof {
            use_type_invariant(self);
        }
        if self.profile.total_steps == 0 {
            PARTS_PER_MILLION
        } else {
            let done = (self.current_step as u64) * (PARTS_PER_MILLION as u64);
            let total = self.profile.total_steps as u64;
            assert(done / total <= PARTS_PER_MILLION) by (nonlinear_arith)
                requires
                    done == self.current_step as int * PARTS_PER_MILLION as int,
                    self.current_step <= total,
                    total > 0,
            ;
            (done / total) as u32
        }
    }
}

} // verus!
