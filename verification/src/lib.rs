//! A state-machine library built around an ownership-transferring
//! transition protocol, with its behaviour stated and proved as contracts.
//!
//! An [`Automaton`] owns exactly one active state (a *mode*) drawn from a
//! [`Family`] of cooperating states, and exposes it only through the
//! family's declared *base* interface.  A mode transitions itself out by
//! consuming its own value and producing a successor, so internal
//! resources move instead of being copied, and a rule, once invoked,
//! cannot be invoked on the same value again.
//!
//! The pieces:
//! - [`Mode`]: the contract every state implements — its one-shot,
//!   value-consuming `swap` rule, pinned down by a specification-level
//!   map and three laws (base-view coherence, stay-means-unchanged, and
//!   validity preservation).
//! - [`Swap`]: the explicit tagged decision a rule hands back — stay, or
//!   transition to the carried successor.
//! - [`Family`]: a zero-instance grouping declaration fixing the base,
//!   storage, input and output types of one machine's states.
//! - [`Automaton`]: the container that owns the single current mode and
//!   drives the transition step.
//! - [`AnyModeWrapper`] and [`ModeWrapper`]: the uniform-interface adapter
//!   that lets a stored mode be borrowed and stepped in place without
//!   leaking its concrete type.
//! - An exclusive-owner pointer adapter: `Box<M>` is itself a mode, so
//!   large-payload states can transition by moving a pointer.
//! - Sample machines in [`counter`] and [`tape`] exercising the protocol,
//!   hand-overs that move accumulated values, and input/output
//!   parameterization.

pub mod automaton;
pub mod counter;
pub mod family;
pub mod mode;
pub mod mode_wrapper;
pub mod tape;

pub use automaton::Automaton;
pub use family::Family;
pub use mode::Mode;
pub use mode::Swap;
pub use mode_wrapper::AnyModeWrapper;
pub use mode_wrapper::ModeWrapper;
