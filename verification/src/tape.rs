//! A sample machine: a six-state tape machine whose transition table is
//! keyed by the current state and the bit under the head.  The tape itself
//! is carried as the transition input and handed back through the output,
//! so the machine also exercises input/output parameterization: the state
//! is the mode, the tape is context.
//!
//! The head sits at a fixed bit position of a sixteen-bit tape word; a
//! shift of the whole word stands for a move of the head.

use crate::family::Family;
use crate::mode::Mode;
use crate::mode::Swap;
use vstd::prelude::*;

verus! {

/// The bit position of the head on the tape word.
pub const HEAD: u16 = 8;

/// The tape bit under the head, as a mask.
pub const MASK: u16 = 1u16 << HEAD;

/// What a table entry does to the bit under the head.
#[derive(Clone, Copy, Debug, PartialEq, Eq, Structural)]
pub enum PrintOp {
    /// Clear the bit under the head.
    Clear,
    /// Set the bit under the head.
    Print,
}

/// How a table entry moves the head, expressed as a shift of the tape.
#[derive(Clone, Copy, Debug, PartialEq, Eq, Structural)]
pub enum ShiftOp {
    /// Shift the tape left: the head moves toward the low end.
    Left,
    /// Shift the tape right: the head moves toward the high end.
    Right,
}

/// The six states of the tape machine; `H` is the halt state.
#[derive(Clone, Copy, Debug, PartialEq, Eq, Structural)]
pub enum TapeState {
    /// The start state.
    A,
    /// A working state.
    B,
    /// A working state.
    C,
    /// A working state.
    D,
    /// A working state.
    E,
    /// The halt state: once reached, the machine never moves again.
    H,
}

/// The bit under the head of `tape`: zero or one.
pub open spec fn head_bit_spec(tape: u16) -> u16 {
    (tape >> HEAD) & 1
}

/// Reads the bit under the head of `tape`.
pub fn head_bit(tape: u16) -> (bit: u16)
    ensures
        bit == head_bit_spec(tape),
{
    (tape >> HEAD) & 1
}

/// The transition table: for a state and the bit under the head, the next
/// state and what to do to the tape — or nothing, on the way to a halt.
pub open spec fn table_spec(state: TapeState, bit: u16) -> (TapeState, Option<
    (PrintOp, ShiftOp),
>) {
    match state {
        TapeState::A => if bit == 0 {
            (TapeState::H, None)
        } else {
            (TapeState::B, Some((PrintOp::Clear, ShiftOp::Right)))
        },
        TapeState::B => if bit == 0 {
            (TapeState::C, Some((PrintOp::Clear, ShiftOp::Right)))
        } else {
            (TapeState::B, Some((PrintOp::Print, ShiftOp::Right)))
        },
        TapeState::C => if bit == 0 {
            (TapeState::D, Some((PrintOp::Print, ShiftOp::Left)))
        } else {
            (TapeState::C, Some((PrintOp::Print, ShiftOp::Right)))
        },
        TapeState::D => if bit == 0 {
            (TapeState::E, Some((PrintOp::Clear, ShiftOp::Left)))
        } else {
            (TapeState::D, Some((PrintOp::Print, ShiftOp::Left)))
        },
        TapeState::E => if bit == 0 {
            (TapeState::A, Some((PrintOp::Print, ShiftOp::Right)))
        } else {
            (TapeState::E, Some((PrintOp::Print, ShiftOp::Left)))
        },
        TapeState::H => (TapeState::H, None),
    }
}

/// Looks up the transition table.
pub fn table(state: TapeState, bit: u16) -> (r: (TapeState, Option<(PrintOp, ShiftOp)>))
    ensures
        r == table_spec(state, bit),
{
    match state {
        TapeState::A => if bit == 0 {
            (TapeState::H, None)
        } else {
            (TapeState::B, Some((PrintOp::Clear, ShiftOp::Right)))
        },
        TapeState::B => if bit == 0 {
            (TapeState::C, Some((PrintOp::Clear, ShiftOp::Right)))
        } else {
            (TapeState::B, Some((PrintOp::Print, ShiftOp::Right)))
        },
        TapeState::C => if bit == 0 {
            (TapeState::D, Some((PrintOp::Print, ShiftOp::Left)))
        } else {
            (TapeState::C, Some((PrintOp::Print, ShiftOp::Right)))
        },
        TapeState::D => if bit == 0 {
            (TapeState::E, Some((PrintOp::Clear, ShiftOp::Left)))
        } else {
            (TapeState::D, Some((PrintOp::Print, ShiftOp::Left)))
        },
        TapeState::E => if bit == 0 {
            (TapeState::A, Some((PrintOp::Print, ShiftOp::Right)))
        } else {
            (TapeState::E, Some((PrintOp::Print, ShiftOp::Left)))
        },
        TapeState::H => (TapeState::H, None),
    }
}

/// The tape after a table entry's action: print or clear the bit under
/// the head, then shift; or the tape unchanged where the entry does
/// nothing.
pub open spec fn apply_op_spec(tape: u16, op: Option<(PrintOp, ShiftOp)>) -> u16 {
    match op {
        None => tape,
        Some((print_op, shift_op)) => {
            let printed = match print_op {
                PrintOp::Print => tape | MASK,
                PrintOp::Clear => tape & !MASK,
            };
            match shift_op {
                ShiftOp::Left => printed << 1,
                ShiftOp::Right => printed >> 1,
            }
        },
    }
}

/// Applies a table entry's action to the tape.
pub fn apply_op(tape: u16, op: Option<(PrintOp, ShiftOp)>) -> (r: u16)
    ensures
        r == apply_op_spec(tape, op),
{
    match op {
        None => tape,
        Some((print_op, shift_op)) => {
            let printed: u16 = match print_op {
                PrintOp::Print => tape | MASK,
                PrintOp::Clear => tape & !MASK,
            };
            match shift_op {
                ShiftOp::Left => printed << 1u16,
                ShiftOp::Right => printed >> 1u16,
            }
        },
    }
}

impl Mode for TapeState {
    type Base = TapeState;

    type Input = u16;

    type Output = (u16, bool);

    open spec fn inv(&self) -> bool {
        true
    }

    open spec fn base_spec(&self) -> TapeState {
        *self
    }

    open spec fn with_base(self, b: TapeState) -> TapeState {
        b
    }

    open spec fn swap_spec(self, tape: u16) -> (Swap<TapeState>, (u16, bool)) {
        let (next, op) = table_spec(self, head_bit_spec(tape));
        (
            if next == self {
                Swap::Stay(self)
            } else {
                Swap::TransitionTo(next)
            },
            (apply_op_spec(tape, op), next != TapeState::H),
        )
    }

    proof fn base_coherent(self, b: TapeState) {
    }

    proof fn stay_unchanged(self, tape: u16) {
    }

    proof fn swap_spec_preserves_inv(self, tape: u16) {
    }

    fn as_base(&self) -> (r: &TapeState) {
        self
    }

    fn as_base_mut(&mut self) -> (r: &mut TapeState) {
        self
    }

    fn swap(self, tape: u16) -> (r: (Swap<TapeState>, (u16, bool))) {
        let (next, op) = table(self, head_bit(tape));
        let out_tape = apply_op(tape, op);
        (
            if next == self {
                Swap::Stay(self)
            } else {
                Swap::TransitionTo(next)
            },
            (out_tape, next != TapeState::H),
        )
    }
}

impl Default for TapeState {
    /// The machine starts in state `A`.
    fn default() -> (r: Self)
        ensures
            r == TapeState::A,
    {
        TapeState::A
    }
}

/// The tape machine's family: the state stored in place, the tape word
/// passed in as context, the rewritten tape and a keep-running flag handed
/// back on every step.
pub struct TapeFamily;

impl Family for TapeFamily {
    type Base = TapeState;

    type Input = u16;

    type Output = (u16, bool);

    type Mode = TapeState;
}

} // verus!
