//! The container that owns the single current state of a machine and
//! drives its transition step.

use crate::family::Family;
use crate::mode::Mode;
use vstd::pervasive::unreached;
use vstd::prelude::*;

verus! {

/// A state machine over the modes of one [`Family`].
///
/// The automaton owns exactly one current mode at every call boundary —
/// never zero, never more than one.  The slot it lives in is empty only
/// transiently, in the middle of an advance step, after the old mode has
/// been taken out and before its successor has been installed; no operation
/// can be invoked at such a moment, because the step holds the automaton
/// exclusively until it completes.  Every operation states the
/// single-ownership fact [`wf`](Automaton::wf) about the value it returns
/// or leaves behind.
///
/// The current mode is accessible only through the family's base interface,
/// via [`borrow_mode`](Automaton::borrow_mode) and
/// [`borrow_mode_mut`](Automaton::borrow_mode_mut).  The advance step,
/// [`next`](Automaton::next) and
/// [`next_with_result`](Automaton::next_with_result), takes the current
/// mode out of the slot by value, hands it to its own one-shot
/// [`swap`](Mode::swap) rule together with the caller's input, and installs
/// whatever successor the rule decided on.
pub struct Automaton<F: Family> {
    mode: Option<F::Mode>,
}

impl<F: Family> Automaton<F> {
    /// The automaton holds a current mode: true of every automaton a
    /// constructor returns, and preserved by every operation.
    pub closed spec fn wf(self) -> bool {
        self.mode is Some
    }

    /// The mode the automaton currently holds.
    pub closed spec fn current_mode(self) -> F::Mode {
        self.mode->0
    }

    /// The mode that one advance step on `input` installs: the one carried
    /// by the current mode's transition decision.
    pub open spec fn advanced_mode(self, input: F::Input) -> F::Mode {
        self.current_mode().swap_spec(input).0.carried()
    }

    /// The auxiliary output that one advance step on `input` reports.
    pub open spec fn advanced_output(self, input: F::Input) -> F::Output {
        self.current_mode().swap_spec(input).1
    }

    /// The automaton after one advance step on `input`.
    /// [`lemma_advanced`](Automaton::lemma_advanced) characterizes it: it
    /// holds exactly the mode [`advanced_mode`](Automaton::advanced_mode)
    /// names.
    pub closed spec fn advanced(self, input: F::Input) -> Self {
        Automaton { mode: Some(self.advanced_mode(input)) }
    }

    /// The automaton after one advance step holds exactly the mode the
    /// current mode's transition decision carries — one mode, no more.
    pub proof fn lemma_advanced(self, input: F::Input)
        ensures
            self.advanced(input).wf(),
            self.advanced(input).current_mode() == self.advanced_mode(input),
    {
    }

    /// The automaton after a whole sequence of advance steps, one per
    /// input, in order.
    pub open spec fn advanced_many(self, inputs: Seq<F::Input>) -> Self
        decreases inputs.len(),
    {
        if inputs.len() == 0 {
            self
        } else {
            self.advanced(inputs[0]).advanced_many(inputs.drop_first())
        }
    }

    /// Single ownership across every call sequence: after any sequence of
    /// advance steps on a well-formed automaton holding a valid mode, the
    /// automaton still holds exactly one mode — never zero, never more than
    /// one — and that mode is valid.
    pub proof fn lemma_advance_sequence_single_mode(self, inputs: Seq<F::Input>)
        requires
            self.wf(),
            self.current_mode().inv(),
        ensures
            self.advanced_many(inputs).wf(),
            self.advanced_many(inputs).current_mode().inv(),
        decreases inputs.len(),
    {
        if inputs.len() > 0 {
            self.current_mode().swap_spec_preserves_inv(inputs[0]);
            self.advanced(inputs[0]).lemma_advance_sequence_single_mode(inputs.drop_first());
        }
    }

    /// Creates an automaton with `mode` installed as the current mode; no
    /// further constraints.
    pub fn with_mode(mode: F::Mode) -> (a: Self)
        ensures
            a.wf(),
            a.current_mode() == mode,
    {
        Self { mode: Some(mode) }
    }

    /// Drives one transition step: takes ownership of the current mode,
    /// invokes its one-shot [`swap`](Mode::swap) rule with `input`, and
    /// installs the mode the decision carries — the same value when the
    /// rule elected to stay, the successor otherwise.  The rule's auxiliary
    /// output is returned to the caller.
    pub fn next_with_result(automaton: &mut Self, input: F::Input) -> (r: F::Output)
        requires
            old(automaton).wf(),
            old(automaton).current_mode().inv(),
        ensures
            final(automaton).wf(),
            final(automaton).current_mode().inv(),
            *final(automaton) == old(automaton).advanced(input),
            final(automaton).current_mode() == old(automaton).advanced_mode(input),
            r == old(automaton).advanced_output(input),
    {
        let current = automaton.mode.take().unwrap();
        let (decision, out) = current.swap(input);
        proof {
            old(automaton).current_mode().swap_spec_preserves_inv(input);
        }
        automaton.mode = Some(decision.into_carried());
        out
    }

    /// Drives one transition step exactly as
    /// [`next_with_result`](Automaton::next_with_result) does, discarding
    /// the auxiliary output.
    pub fn next(automaton: &mut Self, input: F::Input)
        requires
            old(automaton).wf(),
            old(automaton).current_mode().inv(),
        ensures
            final(automaton).wf(),
            final(automaton).current_mode().inv(),
            *final(automaton) == old(automaton).advanced(input),
            final(automaton).current_mode() == old(automaton).advanced_mode(input),
    {
        let _ = Self::next_with_result(automaton, input);
    }

    /// Borrows the current mode through the family's base interface.
    pub fn borrow_mode(&self) -> (r: &F::Base)
        requires
            self.wf(),
            self.current_mode().inv(),
        ensures
            *r == self.current_mode().base_spec(),
    {
        match &self.mode {
            Some(m) => m.as_base(),
            None => unreached(),
        }
    }

    /// Mutably borrows the current mode through the family's base
    /// interface.  The mode the automaton holds afterwards is the old one
    /// with its base view overwritten by whatever the caller left in the
    /// returned reference.
    pub fn borrow_mode_mut(&mut self) -> (r: &mut F::Base)
        requires
            old(self).wf(),
            old(self).current_mode().inv(),
        ensures
            final(self).wf(),
            *r == old(self).current_mode().base_spec(),
            final(self).current_mode() == old(self).current_mode().with_base(*final(r)),
    {
        match &mut self.mode {
            Some(m) => m.as_base_mut(),
            None => unreached(),
        }
    }
}

impl<F: Family> Automaton<F> where F::Mode: Default {
    /// Creates an automaton holding the storage type's default value,
    /// equivalent to `with_mode(Default::default())`.
    pub fn new() -> (a: Self)
        ensures
            a.wf(),
            <F::Mode as core::default::Default>::default.ensures((), a.current_mode()),
    {
        Self { mode: Some(Default::default()) }
    }
}

impl<F: Family> Default for Automaton<F> where F::Mode: Default {
    /// Creates an automaton holding the storage type's default value,
    /// equivalent to [`Automaton::new`].
    fn default() -> (a: Self)
        ensures
            a.wf(),
            <F::Mode as core::default::Default>::default.ensures((), a.current_mode()),
    {
        Self::new()
    }
}

/// Stay idempotence: when the current mode's transition rule elects to
/// stay, the advance step installs the very mode that was already current,
/// so the automaton — and with it the externally observable base state —
/// is identical before and after.
pub proof fn lemma_stay_preserves_observable<F: Family>(a: Automaton<F>, input: F::Input)
    requires
        a.wf(),
        a.current_mode().inv(),
        a.current_mode().swap_spec(input).0 is Stay,
    ensures
        a.advanced(input) == a,
        a.advanced_mode(input) == a.current_mode(),
        a.advanced_mode(input).base_spec() == a.current_mode().base_spec(),
{
    a.current_mode().stay_unchanged(input);
}

} // verus!
