//! The grouping declaration that ties a set of cooperating states together
//! and fixes the types they share.

use crate::mode::Mode;
use vstd::prelude::*;

verus! {

/// A zero-instance declaration grouping the states that may legally
/// transition among each other.
///
/// A family is never instantiated: a unit struct implements this trait
/// purely to fix, for one machine, the externally exposed [`Base`]
/// interface, the [`Mode`] storage actually held by the automaton (the
/// state type itself, or an owning pointer to it), the [`Input`] context a
/// transition receives and the [`Output`] it reports.  An automaton over
/// one family can only ever hold, and can only ever install, that family's
/// storage type, so composing states of two different families is rejected
/// when the program is compiled.
///
/// [`Base`]: Family::Base
/// [`Mode`]: Family::Mode
/// [`Input`]: Family::Input
/// [`Output`]: Family::Output
pub trait Family: Sized {
    /// The interface through which the current state is observed from
    /// outside the automaton.
    type Base;

    /// Context passed into each transition; `()` where none is needed.
    type Input;

    /// The auxiliary value each transition reports; `()` where none is
    /// needed.
    type Output;

    /// The storage actually held by the automaton: the state type itself,
    /// or an owning pointer to it.  Its base view, input and output are the
    /// ones this family declares.
    type Mode: Mode<Base = Self::Base, Input = Self::Input, Output = Self::Output>;
}

} // verus!
