//! A stack-based bytecode interpreter over a single numeric value type.
//!
//! A program is a flat byte array: one opcode byte per instruction, and for
//! `PUSH` two more bytes holding a little-endian index into the constant
//! pool. The machine fetches, decodes and executes until `HLT` or the first
//! fault. Arithmetic on values is done by a unit that the caller supplies;
//! the machine decides which operands reach it and where the answer goes.

pub mod errors;
pub mod instruction;
pub mod laws;
pub mod machine;
pub mod parser;
pub mod value;
pub mod vm;

pub use errors::{
    BadConstsIndexError, EmptyStackError, InterpretationError, UnexpectedEndError,
    UnknownInstructionError, UnsupportedInstructionError, ZeroDivisionError,
};
pub use instruction::{decode_opcode, index_bytes, read_index, Instruction};
pub use machine::Machine;
pub use parser::errors::LexError;
pub use parser::tokens::Loc;
pub use value::{BinOp, Value};
pub use vm::VM;
