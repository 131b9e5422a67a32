//! The instruction set and its byte encoding.

use vstd::prelude::*;
use crate::errors::{InterpretationError, UnknownInstructionError};

verus! {

/// The instruction set. Each variant is one opcode byte: its place in this
/// list, counted from zero.
#[derive(Clone, Copy, Debug, PartialEq, Eq, Structural)]
pub enum Instruction {
    NOP,
    PUSH,
    ADD,
    SUB,
    MUL,
    DIV,
    JMP,
    JE,
    JNE,
    JG,
    JL,
    JGE,
    JLE,
    RET,
    DBG,
    HLT,
}

/// Number of opcodes; the recognised opcode bytes are those below it.
pub const OPCODE_COUNT: u8 = 16;

/// The instruction that an opcode byte stands for, if any.
pub open spec fn instruction_of(byte: u8) -> Option<Instruction> {
    if byte == 0 {
        Some(Instruction::NOP)
    } else if byte == 1 {
        Some(Instruction::PUSH)
    } else if byte == 2 {
        Some(Instruction::ADD)
    } else if byte == 3 {
        Some(Instruction::SUB)
    } else if byte == 4 {
        Some(Instruction::MUL)
    } else if byte == 5 {
        Some(Instruction::DIV)
    } else if byte == 6 {
        Some(Instruction::JMP)
    } else if byte == 7 {
        Some(Instruction::JE)
    } else if byte == 8 {
        Some(Instruction::JNE)
    } else if byte == 9 {
        Some(Instruction::JG)
    } else if byte == 10 {
        Some(Instruction::JL)
    } else if byte == 11 {
        Some(Instruction::JGE)
    } else if byte == 12 {
        Some(Instruction::JLE)
    } else if byte == 13 {
        Some(Instruction::RET)
    } else if byte == 14 {
        Some(Instruction::DBG)
    } else if byte == 15 {
        Some(Instruction::HLT)
    } else {
        None
    }
}

/// The constant-pool index that the two operand bytes of a `PUSH` hold:
/// little-endian, low byte first.
pub open spec fn index_of(lo: u8, hi: u8) -> int {
    lo as int + 256 * (hi as int)
}

impl Instruction {
    /// The opcode byte of the instruction.
    pub open spec fn spec_opcode(self) -> u8 {
        match self {
            Instruction::NOP => 0,
            Instruction::PUSH => 1,
            Instruction::ADD => 2,
            Instruction::SUB => 3,
            Instruction::MUL => 4,
            Instruction::DIV => 5,
            Instruction::JMP => 6,
            Instruction::JE => 7,
            Instruction::JNE => 8,
            Instruction::JG => 9,
            Instruction::JL => 10,
            Instruction::JGE => 11,
            Instruction::JLE => 12,
            Instruction::RET => 13,
            Instruction::DBG => 14,
            Instruction::HLT => 15,
        }
    }

    /// How many operand bytes follow the opcode byte.
    pub open spec fn spec_operand_width(self) -> usize {
        match self {
            Instruction::PUSH => 2,
            _ => 0,
        }
    }

    /// Whether the instruction transfers control. The machine decodes these
    /// and refuses to execute them.
    pub open spec fn spec_is_control_flow(self) -> bool {
        6 <= self.spec_opcode() <= 13
    }

    /// The opcode byte of the instruction.
    #[verifier::when_used_as_spec(spec_opcode)]
    pub fn opcode(self) -> (byte: u8)
        ensures
            byte == self.spec_opcode(),
            instruction_of(byte) == Some(self),
    {
        match self {
            Instruction::NOP => 0,
            Instruction::PUSH => 1,
            Instruction::ADD => 2,
            Instruction::SUB => 3,
            Instruction::MUL => 4,
            Instruction::DIV => 5,
            Instruction::JMP => 6,
            Instruction::JE => 7,
            Instruction::JNE => 8,
            Instruction::JG => 9,
            Instruction::JL => 10,
            Instruction::JGE => 11,
            Instruction::JLE => 12,
            Instruction::RET => 13,
            Instruction::DBG => 14,
            Instruction::HLT => 15,
        }
    }

    /// The instruction that `byte` stands for; `None` for a byte that is no
    /// opcode.
    pub fn from_byte(byte: u8) -> (inst: Option<Instruction>)
        ensures
            inst == instruction_of(byte),
    {
        match byte {
            0 => Some(Instruction::NOP),
            1 => Some(Instruction::PUSH),
            2 => Some(Instruction::ADD),
            3 => Some(Instruction::SUB),
            4 => Some(Instruction::MUL),
            5 => Some(Instruction::DIV),
            6 => Some(Instruction::JMP),
            7 => Some(Instruction::JE),
            8 => Some(Instruction::JNE),
            9 => Some(Instruction::JG),
            10 => Some(Instruction::JL),
            11 => Some(Instruction::JGE),
            12 => Some(Instruction::JLE),
            13 => Some(Instruction::RET),
            14 => Some(Instruction::DBG),
            15 => Some(Instruction::HLT),
            _ => None,
        }
    }

    /// How many operand bytes follow the opcode byte: two for `PUSH`, none
    /// for every other instruction.
    #[verifier::when_used_as_spec(spec_operand_width)]
    pub fn operand_width(self) -> (width: usize)
        ensures
            width == self.spec_operand_width(),
    {
        match self {
            Instruction::PUSH => 2,
            _ => 0,
        }
    }

    /// Whether the instruction transfers control: the jumps and `RET`.
    #[verifier::when_used_as_spec(spec_is_control_flow)]
    pub fn is_control_flow(self) -> (yes: bool)
        ensures
            yes == self.spec_is_control_flow(),
    {
        match self {
            Instruction::JMP
            | Instruction::JE
            | Instruction::JNE
            | Instruction::JG
            | Instruction::JL
            | Instruction::JGE
            | Instruction::JLE
            | Instruction::RET => true,
            _ => false,
        }
    }
}

/// Decodes the byte found at `offset` of a program. A byte that is no opcode
/// is reported together with the offset it was found at.
pub fn decode_opcode(byte: u8, offset: usize) -> (decoded: Result<Instruction, InterpretationError>)
    ensures
        decoded == match instruction_of(byte) {
            Some(inst) => Ok::<Instruction, InterpretationError>(inst),
            None => Err(
                InterpretationError::UnknownInstructionError(
                    (UnknownInstructionError { byte, position: offset }),
                ),
            ),
        },
{
    match Instruction::from_byte(byte) {
        Some(inst) => Ok(inst),
        None => Err(
            InterpretationError::UnknownInstructionError(
                UnknownInstructionError { byte, position: offset },
            ),
        ),
    }
}

/// Reads the constant-pool index out of the two operand bytes of a `PUSH`,
/// low byte first.
pub fn read_index(lo: u8, hi: u8) -> (index: u16)
    ensures
        index == index_of(lo, hi),
{
    let low: u16 = lo as u16;
    let high: u16 = hi as u16;
    low + high * 256
}

/// The two operand bytes that encode `index` after a `PUSH` opcode, low byte
/// first.
pub fn index_bytes(index: u16) -> (bytes: (u8, u8))
    ensures
        index_of(bytes.0, bytes.1) == index,
{
    ((index % 256) as u8, (index / 256) as u8)
}

/// Decoding inverts encoding, and a byte that decodes is the opcode of what
/// it decodes to: the sixteen opcodes and the sixteen instructions pair off.
pub proof fn opcode_round_trip(inst: Instruction, byte: u8)
    ensures
        instruction_of(inst.spec_opcode()) == Some(inst),
        inst.spec_opcode() < OPCODE_COUNT,
        instruction_of(byte) matches Some(found) ==> found.spec_opcode() == byte,
        instruction_of(byte) is Some <==> byte < OPCODE_COUNT,
{
}

/// Two operand-byte pairs that hold the same index are the same pair, and
/// every pair holds an index below 65536.
pub proof fn index_encoding_is_injective(lo: u8, hi: u8, lo2: u8, hi2: u8)
    ensures
        0 <= index_of(lo, hi) <= u16::MAX,
        index_of(lo, hi) == index_of(lo2, hi2) ==> lo == lo2 && hi == hi2,
{
}

} // verus!
