//! A sample machine: a counter that climbs to a target, hands its value
//! over to a descending phase, and oscillates until the descending phase
//! lands exactly on a fixed goal, at which point a terminal state reports
//! the result.
//!
//! The three phases are separate structs gathered into one storage enum,
//! so the machine also exercises hand-overs between distinct state types:
//! each transition moves the accumulated counter value into the successor
//! it constructs.

use crate::family::Family;
use crate::mode::Mode;
use crate::mode::Swap;
use vstd::prelude::*;

verus! {

/// The value at which the descending phase stops and the machine reports
/// its result.
pub const GOAL: u64 = 10;

/// The ascending phase: counts up toward its target.
#[derive(Clone, Copy, Debug, PartialEq, Eq, Structural)]
pub struct UpMode {
    /// The value accumulated so far.
    pub counter: u64,
    /// The value at which this phase hands over.
    pub target: u64,
}

/// The descending phase: counts down, watching for the goal.
#[derive(Clone, Copy, Debug, PartialEq, Eq, Structural)]
pub struct DownMode {
    /// The value accumulated so far.
    pub counter: u64,
    /// The value at which this phase hands over.
    pub target: u64,
}

/// The terminal phase: holds the result and never moves again.
#[derive(Clone, Copy, Debug, PartialEq, Eq, Structural)]
pub struct FinishedMode {
    /// The value the machine finished on.
    pub result: u64,
}

/// The storage for the counter machine: exactly one of its three phases.
#[derive(Clone, Copy, Debug, PartialEq, Eq, Structural)]
pub enum CounterMode {
    /// Counting up.
    Up(UpMode),
    /// Counting down.
    Down(DownMode),
    /// Finished, holding the result.
    Finished(FinishedMode),
}

impl UpMode {
    /// The counter after one increment, which tops out at the largest
    /// representable value.
    pub open spec fn incremented(self) -> u64 {
        if self.counter < u64::MAX {
            (self.counter + 1) as u64
        } else {
            u64::MAX
        }
    }

    /// One step while ascending: increment the counter; if it has reached
    /// the target, hand it over to a descending phase aimed at half the
    /// value.  Every step reports whether the phase changed.
    pub open spec fn step_spec(self) -> (Swap<CounterMode>, bool) {
        let c = self.incremented();
        if c >= self.target {
            (
                Swap::TransitionTo(
                    CounterMode::Down(DownMode { counter: c, target: (c / 2 + 1) as u64 }),
                ),
                true,
            )
        } else {
            (
                Swap::TransitionTo(CounterMode::Up(UpMode { counter: c, target: self.target })),
                false,
            )
        }
    }

    /// Performs one ascending step, exactly as
    /// [`step_spec`](UpMode::step_spec) describes.
    pub fn step(self) -> (r: (Swap<CounterMode>, bool))
        ensures
            r == self.step_spec(),
    {
        let c: u64 = if self.counter < u64::MAX {
            self.counter + 1
        } else {
            u64::MAX
        };
        if c >= self.target {
            (
                Swap::TransitionTo(
                    CounterMode::Down(DownMode { counter: c, target: c / 2 + 1 }),
                ),
                true,
            )
        } else {
            (
                Swap::TransitionTo(CounterMode::Up(UpMode { counter: c, target: self.target })),
                false,
            )
        }
    }
}

impl DownMode {
    /// The counter after one decrement, which bottoms out at zero.
    pub open spec fn decremented(self) -> u64 {
        if self.counter > 0 {
            (self.counter - 1) as u64
        } else {
            0
        }
    }

    /// One step while descending: decrement the counter; on the goal,
    /// finish with it as the result; at or below the target, hand it over
    /// to an ascending phase aimed at double the value (capped at the
    /// largest representable value).  Every step reports whether the phase
    /// changed.
    pub open spec fn step_spec(self) -> (Swap<CounterMode>, bool) {
        let c = self.decremented();
        if c == GOAL {
            (Swap::TransitionTo(CounterMode::Finished(FinishedMode { result: c })), true)
        } else if c <= self.target {
            (
                Swap::TransitionTo(
                    CounterMode::Up(
                        UpMode {
                            counter: c,
                            target: if c <= u64::MAX / 2 {
                                (2 * c) as u64
                            } else {
                                u64::MAX
                            },
                        },
                    ),
                ),
                true,
            )
        } else {
            (
                Swap::TransitionTo(CounterMode::Down(DownMode { counter: c, target: self.target })),
                false,
            )
        }
    }

    /// Performs one descending step, exactly as
    /// [`step_spec`](DownMode::step_spec) describes.
    pub fn step(self) -> (r: (Swap<CounterMode>, bool))
        ensures
            r == self.step_spec(),
    {
        let c: u64 = if self.counter > 0 {
            self.counter - 1
        } else {
            0
        };
        if c == GOAL {
            (Swap::TransitionTo(CounterMode::Finished(FinishedMode { result: c })), true)
        } else if c <= self.target {
            let next_target: u64 = if c <= u64::MAX / 2 {
                2 * c
            } else {
                u64::MAX
            };
            (
                Swap::TransitionTo(CounterMode::Up(UpMode { counter: c, target: next_target })),
                true,
            )
        } else {
            (
                Swap::TransitionTo(CounterMode::Down(DownMode { counter: c, target: self.target })),
                false,
            )
        }
    }
}

impl FinishedMode {
    /// One step once finished: stay, unchanged, forever.
    pub open spec fn step_spec(self) -> (Swap<CounterMode>, bool) {
        (Swap::Stay(CounterMode::Finished(self)), false)
    }

    /// Performs one terminal step, exactly as
    /// [`step_spec`](FinishedMode::step_spec) describes.
    pub fn step(self) -> (r: (Swap<CounterMode>, bool))
        ensures
            r == self.step_spec(),
    {
        (Swap::Stay(CounterMode::Finished(self)), false)
    }
}

impl CounterMode {
    /// The result the machine has reported, if it has finished.
    pub open spec fn result_spec(&self) -> Option<u64> {
        match self {
            CounterMode::Finished(f) => Some(f.result),
            _ => None,
        }
    }

    /// Returns the final result, or `None` while the machine is still
    /// counting.
    pub fn get_result(&self) -> (r: Option<u64>)
        ensures
            r == self.result_spec(),
    {
        match self {
            CounterMode::Finished(f) => Some(f.result),
            _ => None,
        }
    }

    /// Returns true once the machine has finished and holds a result.
    pub fn has_result(&self) -> (r: bool)
        ensures
            r == (self.result_spec() is Some),
    {
        match self {
            CounterMode::Finished(_) => true,
            _ => false,
        }
    }
}

impl Mode for CounterMode {
    type Base = CounterMode;

    type Input = ();

    type Output = bool;

    open spec fn inv(&self) -> bool {
        true
    }

    open spec fn base_spec(&self) -> CounterMode {
        *self
    }

    open spec fn with_base(self, b: CounterMode) -> CounterMode {
        b
    }

    open spec fn swap_spec(self, input: ()) -> (Swap<CounterMode>, bool) {
        match self {
            CounterMode::Up(u) => u.step_spec(),
            CounterMode::Down(d) => d.step_spec(),
            CounterMode::Finished(f) => f.step_spec(),
        }
    }

    proof fn base_coherent(self, b: CounterMode) {
    }

    proof fn stay_unchanged(self, input: ()) {
    }

    proof fn swap_spec_preserves_inv(self, input: ()) {
    }

    fn as_base(&self) -> (r: &CounterMode) {
        self
    }

    fn as_base_mut(&mut self) -> (r: &mut CounterMode) {
        self
    }

    fn swap(self, input: ()) -> (r: (Swap<CounterMode>, bool)) {
        match self {
            CounterMode::Up(u) => u.step(),
            CounterMode::Down(d) => d.step(),
            CounterMode::Finished(f) => f.step(),
        }
    }
}

/// The counter machine's family: stored in place, no transition context,
/// reporting on each step whether the phase changed.
pub struct CounterFamily;

impl Family for CounterFamily {
    type Base = CounterMode;

    type Input = ();

    type Output = bool;

    type Mode = CounterMode;
}

/// The counter machine stored behind the exclusive-owner pointer adapter:
/// the transition step moves a box instead of the state value.
pub struct BoxedCounterFamily;

impl Family for BoxedCounterFamily {
    type Base = CounterMode;

    type Input = ();

    type Output = bool;

    type Mode = Box<CounterMode>;
}

/// The counter machine stored behind the uniform-interface wrapper: an
/// automaton over this family manipulates the wrapper, which delegates to
/// the state it owns.
pub struct WrappedCounterFamily;

impl Family for WrappedCounterFamily {
    type Base = CounterMode;

    type Input = ();

    type Output = bool;

    type Mode = crate::mode_wrapper::ModeWrapper<CounterMode>;
}

/// The value a phase holds: the counter being accumulated, or the result
/// once finished.
pub open spec fn held_value(m: CounterMode) -> u64 {
    match m {
        CounterMode::Up(u) => u.counter,
        CounterMode::Down(d) => d.counter,
        CounterMode::Finished(f) => f.result,
    }
}

/// The value one step computes from the phase it acts on: the incremented
/// counter while ascending, the decremented counter while descending, the
/// unchanged result once finished.
pub open spec fn stepped_value(m: CounterMode) -> u64 {
    match m {
        CounterMode::Up(u) => u.incremented(),
        CounterMode::Down(d) => d.decremented(),
        CounterMode::Finished(f) => f.result,
    }
}

/// The finished phase is terminal: every further step elects to stay with
/// the very same state, keeps the result, and reports that nothing
/// changed.
pub proof fn lemma_finished_is_terminal(f: FinishedMode)
    ensures
        CounterMode::Finished(f).swap_spec(()).0 == Swap::Stay(CounterMode::Finished(f)),
        !CounterMode::Finished(f).swap_spec(()).1,
{
}

/// Ownership transfer: the machine's single accumulated value is threaded
/// through every step.  The mode a step installs — whether the phase
/// changed or not — holds exactly the one value the step computed from its
/// predecessor; it is moved into the successor, never duplicated alongside
/// it.
pub proof fn lemma_step_threads_value(m: CounterMode)
    ensures
        held_value(m.swap_spec(()).0.carried()) == stepped_value(m),
{
}

} // verus!
