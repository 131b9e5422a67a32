//! The faults of the fetch-decode-execute cycle.

use vstd::prelude::*;
use crate::instruction::Instruction;

verus! {

/// A byte was needed at `position` and the program has none there: the
/// program counter ran off the end, or a `PUSH` lacks an operand byte.
#[derive(Clone, Copy, Debug, PartialEq, Eq, Structural)]
pub struct UnexpectedEndError {
    pub position: usize,
}

/// The byte at `position` is no opcode.
#[derive(Clone, Copy, Debug, PartialEq, Eq, Structural)]
pub struct UnknownInstructionError {
    pub byte: u8,
    pub position: usize,
}

/// The `PUSH` at `position` names a constant that the pool does not hold.
#[derive(Clone, Copy, Debug, PartialEq, Eq, Structural)]
pub struct BadConstsIndexError {
    pub index: u16,
    pub position: usize,
}

/// The instruction at `position` needs more operands than the stack holds.
#[derive(Clone, Copy, Debug, PartialEq, Eq, Structural)]
pub struct EmptyStackError {
    pub position: usize,
}

/// The `DIV` at `position` met a divisor equal to zero.
#[derive(Clone, Copy, Debug, PartialEq, Eq, Structural)]
pub struct ZeroDivisionError {
    pub position: usize,
}

/// The instruction at `position` is a jump or `RET`. The instruction set
/// reserves their opcodes; the machine does not execute them.
#[derive(Clone, Copy, Debug, PartialEq, Eq, Structural)]
pub struct UnsupportedInstructionError {
    pub instruction: Instruction,
    pub position: usize,
}

/// Why a run stopped before `HLT`. Each fault of the fetch-decode-execute
/// cycle has exactly one variant.
#[derive(Clone, Copy, Debug, PartialEq, Eq, Structural)]
pub enum InterpretationError {
    UnexpectedEndError(UnexpectedEndError),
    UnknownInstructionError(UnknownInstructionError),
    BadConstsIndexError(BadConstsIndexError),
    EmptyStackError(EmptyStackError),
    ZeroDivisionError(ZeroDivisionError),
    UnsupportedInstructionError(UnsupportedInstructionError),
}

impl InterpretationError {
    /// The program offset that the error points at.
    pub open spec fn spec_position(self) -> usize {
        match self {
            InterpretationError::UnexpectedEndError(e) => e.position,
            InterpretationError::UnknownInstructionError(e) => e.position,
            InterpretationError::BadConstsIndexError(e) => e.position,
            InterpretationError::EmptyStackError(e) => e.position,
            InterpretationError::ZeroDivisionError(e) => e.position,
            InterpretationError::UnsupportedInstructionError(e) => e.position,
        }
    }

    /// The program offset that the error points at.
    #[verifier::when_used_as_spec(spec_position)]
    pub fn position(self) -> (position: usize)
        ensures
            position == self.spec_position(),
    {
        match self {
            InterpretationError::UnexpectedEndError(e) => e.position,
            InterpretationError::UnknownInstructionError(e) => e.position,
            InterpretationError::BadConstsIndexError(e) => e.position,
            InterpretationError::EmptyStackError(e) => e.position,
            InterpretationError::ZeroDivisionError(e) => e.position,
            InterpretationError::UnsupportedInstructionError(e) => e.position,
        }
    }
}

} // verus!
