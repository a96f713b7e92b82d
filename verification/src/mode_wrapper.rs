//! The uniform-interface adapter over a stored mode: an owning wrapper
//! that exposes borrowing and an in-place transition step without leaking
//! the concrete state type it holds.

use crate::mode::Mode;
use crate::mode::Swap;
use vstd::pervasive::unreached;
use vstd::prelude::*;

verus! {

/// The container-facing interface of a wrapper: everything a machine needs
/// in order to observe its current state and drive transitions, stated
/// without naming the concrete state type the wrapper owns.
///
/// Code written against this trait manipulates the wrapped state only
/// through its base view and the in-place step
/// [`perform_transitions`](AnyModeWrapper::perform_transitions), whose
/// behaviour is fixed by the specification-level map
/// [`step_spec`](AnyModeWrapper::step_spec).
pub trait AnyModeWrapper: Sized {
    /// The interface through which the wrapped state is observed.
    type Base;

    /// Context passed into each transition step.
    type Input;

    /// The auxiliary value each transition step reports.
    type Output;

    /// Well-formedness of the wrapper: it owns a state, and a valid one.
    spec fn wrapper_inv(&self) -> bool;

    /// The wrapped state as seen through the base interface.
    spec fn wrapper_base(&self) -> Self::Base;

    /// The wrapper after the base view of its state has been overwritten
    /// with `b`.
    spec fn wrapper_with_base(self, b: Self::Base) -> Self;

    /// One transition step as a mathematical map: the wrapper afterwards,
    /// and the auxiliary output it reports.
    spec fn step_spec(self, input: Self::Input) -> (Self, Self::Output);

    /// Borrows the wrapped state through the base interface.
    fn borrow_mode(&self) -> (r: &Self::Base)
        requires
            self.wrapper_inv(),
        ensures
            *r == self.wrapper_base(),
    ;

    /// Mutably borrows the wrapped state through the base interface.
    fn borrow_mode_mut(&mut self) -> (r: &mut Self::Base)
        requires
            old(self).wrapper_inv(),
        ensures
            *r == old(self).wrapper_base(),
            *final(self) == old(self).wrapper_with_base(*final(r)),
    ;

    /// Drives one transition step in place: the wrapped state decides,
    /// through its own one-shot rule, whether to stay or to hand the slot
    /// over to a successor, and the wrapper afterwards owns whichever mode
    /// the decision installed.
    fn perform_transitions(&mut self, input: Self::Input) -> (out: Self::Output)
        requires
            old(self).wrapper_inv(),
        ensures
            final(self).wrapper_inv(),
            *final(self) == old(self).step_spec(input).0,
            out == old(self).step_spec(input).1,
    ;
}

/// An owning wrapper around one concrete mode, implementing
/// [`AnyModeWrapper`] by delegating to that mode's own behaviour and
/// transition rule.
///
/// The slot the mode lives in is empty only transiently, in the middle of
/// a transition step, after the old mode has been taken out by value and
/// before the mode its decision carries has been installed; at every call
/// boundary the wrapper owns exactly one mode.
pub struct ModeWrapper<T: Mode> {
    mode: Option<T>,
}

impl<T: Mode> ModeWrapper<T> {
    /// The wrapper owns a current mode.
    pub closed spec fn holds_mode(self) -> bool {
        self.mode is Some
    }

    /// The mode the wrapper currently owns.
    pub closed spec fn wrapped_mode(self) -> T {
        self.mode->0
    }

    /// The wrapper owning exactly `m`.
    pub closed spec fn wrapping(m: T) -> Self {
        ModeWrapper { mode: Some(m) }
    }

    /// A wrapper built by [`wrapping`](ModeWrapper::wrapping) owns the mode
    /// it was built from.
    pub proof fn lemma_wrapping(m: T)
        ensures
            Self::wrapping(m).holds_mode(),
            Self::wrapping(m).wrapped_mode() == m,
    {
    }

    /// A wrapper that owns a mode is exactly the wrapper built from that
    /// mode.
    pub proof fn lemma_wrapper_complete(self)
        requires
            self.holds_mode(),
        ensures
            self == Self::wrapping(self.wrapped_mode()),
    {
    }

    /// The wrapper's two faces agree: the in-place step through the
    /// uniform interface installs exactly the mode carried by the
    /// wrapper's own swap decision, and reports the same output.
    pub proof fn lemma_faces_agree(self, input: T::Input)
        ensures
            self.step_spec(input).0 == self.swap_spec(input).0.carried(),
            self.step_spec(input).1 == self.swap_spec(input).1,
    {
    }

    /// Creates a new wrapper around the specified mode.
    pub fn new(mode: T) -> (w: Self)
        ensures
            w == Self::wrapping(mode),
            w.holds_mode(),
            w.wrapped_mode() == mode,
    {
        Self { mode: Some(mode) }
    }
}

impl<T: Mode> AnyModeWrapper for ModeWrapper<T> {
    type Base = T::Base;

    type Input = T::Input;

    type Output = T::Output;

    open spec fn wrapper_inv(&self) -> bool {
        self.holds_mode() && self.wrapped_mode().inv()
    }

    open spec fn wrapper_base(&self) -> T::Base {
        self.wrapped_mode().base_spec()
    }

    open spec fn wrapper_with_base(self, b: T::Base) -> Self {
        Self::wrapping(self.wrapped_mode().with_base(b))
    }

    open spec fn step_spec(self, input: T::Input) -> (Self, T::Output) {
        let (decision, out) = self.wrapped_mode().swap_spec(input);
        (Self::wrapping(decision.carried()), out)
    }

    fn borrow_mode(&self) -> (r: &T::Base) {
        match &self.mode {
            Some(m) => m.as_base(),
            None => unreached(),
        }
    }

    fn borrow_mode_mut(&mut self) -> (r: &mut T::Base) {
        match &mut self.mode {
            Some(m) => m.as_base_mut(),
            None => unreached(),
        }
    }

    fn perform_transitions(&mut self, input: T::Input) -> (out: T::Output) {
        let current = self.mode.take().unwrap();
        let (decision, out) = current.swap(input);
        proof {
            old(self).wrapped_mode().swap_spec_preserves_inv(input);
        }
        self.mode = Some(decision.into_carried());
        out
    }
}

/// A wrapper is itself a mode over the same base view: taking the wrapped
/// state's transition decision and re-wrapping whichever mode it carries.
/// A family can therefore declare its storage as `ModeWrapper<M>` and let
/// an automaton manipulate the wrapper exactly as it would the state
/// itself.
impl<T: Mode> Mode for ModeWrapper<T> {
    type Base = T::Base;

    type Input = T::Input;

    type Output = T::Output;

    open spec fn inv(&self) -> bool {
        self.holds_mode() && self.wrapped_mode().inv()
    }

    open spec fn base_spec(&self) -> T::Base {
        self.wrapped_mode().base_spec()
    }

    open spec fn with_base(self, b: T::Base) -> Self {
        Self::wrapping(self.wrapped_mode().with_base(b))
    }

    open spec fn swap_spec(self, input: T::Input) -> (Swap<Self>, T::Output) {
        let (decision, out) = self.wrapped_mode().swap_spec(input);
        (
            match decision {
                Swap::Stay(m) => Swap::Stay(Self::wrapping(m)),
                Swap::TransitionTo(m) => Swap::TransitionTo(Self::wrapping(m)),
            },
            out,
        )
    }

    proof fn base_coherent(self, b: T::Base) {
        self.wrapped_mode().base_coherent(b);
    }

    proof fn stay_unchanged(self, input: T::Input) {
        self.wrapped_mode().stay_unchanged(input);
    }

    proof fn swap_spec_preserves_inv(self, input: T::Input) {
        self.wrapped_mode().swap_spec_preserves_inv(input);
    }

    fn as_base(&self) -> (r: &T::Base) {
        match &self.mode {
            Some(m) => m.as_base(),
            None => unreached(),
        }
    }

    fn as_base_mut(&mut self) -> (r: &mut T::Base) {
        match &mut self.mode {
            Some(m) => m.as_base_mut(),
            None => unreached(),
        }
    }

    fn swap(self, input: T::Input) -> (r: (Swap<Self>, T::Output)) {
        let current = self.mode.unwrap();
        let (decision, out) = current.swap(input);
        (
            match decision {
                Swap::Stay(m) => Swap::Stay(Self::new(m)),
                Swap::TransitionTo(m) => Swap::TransitionTo(Self::new(m)),
            },
            out,
        )
    }
}

} // verus!
