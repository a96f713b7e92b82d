//! The contract a single state of a machine implements: a one-shot,
//! value-consuming transition rule, together with the base view through
//! which the state is observed from outside.

use vstd::prelude::*;

verus! {

/// The decision a transition rule hands back: either keep the current mode
/// or install the successor it carries.
///
/// Both variants carry a mode because [`Mode::swap`] receives the current
/// mode by value: a rule that elects to stay must hand the very same value
/// back, a fact every implementation proves once and for all through
/// [`Mode::stay_unchanged`].  Making the decision an explicit tag avoids
/// any appeal to value identity.
pub enum Swap<M> {
    /// Keep the current mode; the carried value is the mode itself,
    /// unchanged.
    Stay(M),
    /// Replace the current mode with the carried successor.
    TransitionTo(M),
}

impl<M> Swap<M> {
    /// The mode carried by either variant: the one to be installed as
    /// current after the transition step.
    pub open spec fn carried(self) -> M {
        match self {
            Swap::Stay(m) => m,
            Swap::TransitionTo(m) => m,
        }
    }

    /// Unwraps the carried mode, whichever variant holds it.
    pub fn into_carried(self) -> (m: M)
        ensures
            m == self.carried(),
    {
        match self {
            Swap::Stay(m) => m,
            Swap::TransitionTo(m) => m,
        }
    }
}

/// A state within some family of cooperating states.
///
/// A mode privately owns whatever data it needs.  It is observed from
/// outside only through its [`Base`](Mode::Base) view, and it leaves the
/// machine only through [`swap`](Mode::swap), which consumes it by value so
/// that its resources can move directly into the successor.
///
/// The behaviour of `swap` is fixed by the specification-level map
/// [`swap_spec`](Mode::swap_spec); three laws tie the pieces together:
/// reading and writing the base view are coherent, a rule that elects to
/// stay changes nothing, and valid modes only ever produce valid modes.
pub trait Mode: Sized {
    /// The interface through which the state is observed from outside the
    /// machine.  For a family stored as one concrete type this is that type
    /// itself.
    type Base;

    /// Context passed into each transition; `()` where none is needed.
    type Input;

    /// The auxiliary value each transition reports back to the caller that
    /// drove the step; `()` where none is needed.
    type Output;

    /// Well-formedness of this mode value.
    spec fn inv(&self) -> bool;

    /// The state as seen through the `Base` interface.
    spec fn base_spec(&self) -> Self::Base;

    /// The state after its base view has been overwritten with `b`.
    spec fn with_base(self, b: Self::Base) -> Self;

    /// The transition rule as a mathematical map from mode and input to a
    /// decision and an auxiliary output.
    spec fn swap_spec(self, input: Self::Input) -> (Swap<Self>, Self::Output);

    /// Reading and writing through the base view are coherent: writing back
    /// what was read changes nothing, and what was written is what is then
    /// read.
    proof fn base_coherent(self, b: Self::Base)
        requires
            self.inv(),
        ensures
            self.with_base(self.base_spec()) == self,
            self.with_base(b).base_spec() == b,
    ;

    /// A rule that elects to stay hands the mode back unchanged.
    proof fn stay_unchanged(self, input: Self::Input)
        requires
            self.inv(),
        ensures
            self.swap_spec(input).0 matches Swap::Stay(m) ==> m == self,
    ;

    /// A valid mode only ever produces a valid mode.
    proof fn swap_spec_preserves_inv(self, input: Self::Input)
        requires
            self.inv(),
        ensures
            self.swap_spec(input).0.carried().inv(),
    ;

    /// Borrows the state through its base interface.
    fn as_base(&self) -> (r: &Self::Base)
        requires
            self.inv(),
        ensures
            *r == self.base_spec(),
    ;

    /// Mutably borrows the state through its base interface.
    fn as_base_mut(&mut self) -> (r: &mut Self::Base)
        requires
            old(self).inv(),
        ensures
            *r == old(self).base_spec(),
            *final(self) == old(self).with_base(*final(r)),
    ;

    /// The one-shot transition: consumes the mode together with `input` and
    /// returns the decision and the auxiliary output, exactly as
    /// [`swap_spec`](Mode::swap_spec) describes.  Because the rule receives
    /// the mode by value, it can move any internal resource directly into
    /// the successor it constructs, and because the value is consumed, the
    /// rule cannot be invoked on it a second time.
    fn swap(self, input: Self::Input) -> (r: (Swap<Self>, Self::Output))
        requires
            self.inv(),
        ensures
            r == self.swap_spec(input),
    ;
}

/// The exclusive-owner storage adapter: a `Box<M>` is itself a mode, with
/// the same base view and the same transition rule as its pointee.  A
/// family whose states carry a large payload can declare its storage as
/// `Box<M>`, so that the transition step moves a pointer rather than the
/// payload.
impl<T: Mode> Mode for Box<T> {
    type Base = T::Base;

    type Input = T::Input;

    type Output = T::Output;

    open spec fn inv(&self) -> bool {
        (**self).inv()
    }

    open spec fn base_spec(&self) -> T::Base {
        (**self).base_spec()
    }

    open spec fn with_base(self, b: T::Base) -> Box<T> {
        Box::new((*self).with_base(b))
    }

    open spec fn swap_spec(self, input: T::Input) -> (Swap<Box<T>>, T::Output) {
        let (decision, out) = (*self).swap_spec(input);
        (
            match decision {
                Swap::Stay(m) => Swap::Stay(Box::new(m)),
                Swap::TransitionTo(m) => Swap::TransitionTo(Box::new(m)),
            },
            out,
        )
    }

    proof fn base_coherent(self, b: T::Base) {
        (*self).base_coherent(b);
    }

    proof fn stay_unchanged(self, input: T::Input) {
        (*self).stay_unchanged(input);
    }

    proof fn swap_spec_preserves_inv(self, input: T::Input) {
        (*self).swap_spec_preserves_inv(input);
    }

    fn as_base(&self) -> (r: &T::Base) {
        (**self).as_base()
    }

    fn as_base_mut(&mut self) -> (r: &mut T::Base) {
        (**self).as_base_mut()
    }

    fn swap(self, input: T::Input) -> (r: (Swap<Box<T>>, T::Output)) {
        let (decision, out) = (*self).swap(input);
        (
            match decision {
                Swap::Stay(m) => Swap::Stay(Box::new(m)),
                Swap::TransitionTo(m) => Swap::TransitionTo(Box::new(m)),
            },
            out,
        )
    }
}

} // verus!
