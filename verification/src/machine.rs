//! The machine as mathematics: its state, what one instruction does to it,
//! and where a run ends.

use vstd::prelude::*;
use crate::errors::{
    BadConstsIndexError, EmptyStackError, InterpretationError, UnexpectedEndError,
    UnknownInstructionError, UnsupportedInstructionError, ZeroDivisionError,
};
use crate::instruction::{index_of, instruction_of, Instruction};
use crate::value::{BinOp, Value};

verus! {

/// The state of the machine as mathematics: what a `VM` is a view of.
pub struct Machine {
    /// The loaded program.
    pub program: Seq<u8>,
    /// The constant pool.
    pub consts: Seq<Value>,
    /// The operand stack; its last element is the top.
    pub stack: Seq<Value>,
    /// Offset of the next opcode byte.
    pub pc: nat,
    /// Set by a run, cleared by `HLT`.
    pub running: bool,
    /// What `DBG` has emitted so far, oldest first.
    pub output: Seq<Value>,
}

/// The fault of needing a byte at `position` where the program has none.
pub open spec fn unexpected_end(position: nat) -> InterpretationError {
    InterpretationError::UnexpectedEndError(UnexpectedEndError { position: position as usize })
}

/// The fault of meeting `byte`, which is no opcode, at `position`.
pub open spec fn unknown_instruction(byte: u8, position: nat) -> InterpretationError {
    InterpretationError::UnknownInstructionError(
        UnknownInstructionError { byte, position: position as usize },
    )
}

/// The fault of a `PUSH` at `position` that names the missing constant `index`.
pub open spec fn bad_consts_index(index: int, position: nat) -> InterpretationError {
    InterpretationError::BadConstsIndexError(
        BadConstsIndexError { index: index as u16, position: position as usize },
    )
}

/// The fault of an instruction at `position` that finds the stack too short.
pub open spec fn empty_stack(position: nat) -> InterpretationError {
    InterpretationError::EmptyStackError(EmptyStackError { position: position as usize })
}

/// The fault of a `DIV` at `position` whose divisor is zero.
pub open spec fn zero_division(position: nat) -> InterpretationError {
    InterpretationError::ZeroDivisionError(ZeroDivisionError { position: position as usize })
}

/// The fault of meeting a jump or `RET` at `position`.
pub open spec fn unsupported(instruction: Instruction, position: nat) -> InterpretationError {
    InterpretationError::UnsupportedInstructionError(
        UnsupportedInstructionError { instruction, position: position as usize },
    )
}

impl Machine {
    /// The machine as it is built: nothing loaded, nothing on the stack,
    /// program counter at zero, not running.
    pub open spec fn fresh() -> Machine {
        Machine {
            program: Seq::empty(),
            consts: Seq::empty(),
            stack: Seq::empty(),
            pc: 0,
            running: false,
            output: Seq::empty(),
        }
    }

    /// The same machine with the running flag set.
    pub open spec fn started(self) -> Machine {
        Machine { running: true, ..self }
    }

    /// The instruction under the program counter, where a byte is there and
    /// is an opcode.
    pub open spec fn current(self) -> Option<Instruction> {
        if self.pc < self.program.len() {
            instruction_of(self.program[self.pc as int])
        } else {
            None
        }
    }

    /// The index in the operand bytes that follow the program counter.
    pub open spec fn push_index(self) -> int {
        index_of(self.program[self.pc as int + 1], self.program[self.pc as int + 2])
    }

    /// The value on top of the stack: the one pushed last, popped first.
    pub open spec fn top(self) -> Value {
        self.stack[self.stack.len() - 1]
    }

    /// The value under the top: pushed before it, popped after it.
    pub open spec fn below(self) -> Value {
        self.stack[self.stack.len() - 2]
    }

    /// The error that executing the next instruction raises; `None` where it
    /// executes. The checks stand in the order in which the machine makes
    /// them, so every state has at most one fault.
    pub open spec fn fault(self) -> Option<InterpretationError> {
        if self.pc >= self.program.len() {
            Some(unexpected_end(self.pc))
        } else {
            let byte = self.program[self.pc as int];
            match instruction_of(byte) {
                None => Some(unknown_instruction(byte, self.pc)),
                Some(Instruction::NOP) | Some(Instruction::HLT) => None,
                Some(Instruction::PUSH) => {
                    if self.pc + 2 >= self.program.len() {
                        Some(unexpected_end(self.program.len()))
                    } else if self.push_index() >= self.consts.len() {
                        Some(bad_consts_index(self.push_index(), self.pc))
                    } else {
                        None
                    }
                },
                Some(Instruction::ADD) | Some(Instruction::SUB) | Some(Instruction::MUL) => {
                    if self.stack.len() < 2 {
                        Some(empty_stack(self.pc))
                    } else {
                        None
                    }
                },
                Some(Instruction::DIV) => {
                    if self.stack.len() < 2 {
                        Some(empty_stack(self.pc))
                    } else if self.top().spec_is_zero() {
                        Some(zero_division(self.pc))
                    } else {
                        None
                    }
                },
                Some(Instruction::DBG) => {
                    if self.stack.len() < 1 {
                        Some(empty_stack(self.pc))
                    } else {
                        None
                    }
                },
                Some(inst) => Some(unsupported(inst, self.pc)),
            }
        }
    }

    /// The state that a fault leaves behind. Nothing is rolled back: the
    /// operands popped before the fault was found stay popped. A stack too
    /// short for the instruction is left empty; a division by zero has
    /// consumed both of its operands. The program counter stays on the
    /// faulting instruction.
    pub open spec fn frozen(self) -> Machine {
        match self.fault() {
            Some(InterpretationError::EmptyStackError(_)) => Machine {
                stack: Seq::empty(),
                ..self
            },
            Some(InterpretationError::ZeroDivisionError(_)) => Machine {
                stack: self.stack.take(self.stack.len() - 2),
                ..self
            },
            _ => self,
        }
    }

    /// What the next instruction asks of the arithmetic unit: the operation,
    /// its left operand and its right operand. `ADD` and `MUL` hand over the
    /// top first; `SUB` and `DIV` take the value under the top as minuend
    /// and dividend, and the top as subtrahend and divisor.
    pub open spec fn demand(self) -> Option<(BinOp, Value, Value)> {
        match self.current() {
            Some(Instruction::ADD) => Some((BinOp::Add, self.top(), self.below())),
            Some(Instruction::SUB) => Some((BinOp::Sub, self.below(), self.top())),
            Some(Instruction::MUL) => Some((BinOp::Mul, self.top(), self.below())),
            Some(Instruction::DIV) => Some((BinOp::Div, self.below(), self.top())),
            _ => None,
        }
    }

    /// The state after an arithmetic instruction whose answer is `result`:
    /// both operands gone, the answer on top, the program counter one on.
    pub open spec fn settle(self, result: Value) -> Machine {
        Machine {
            stack: self.stack.take(self.stack.len() - 2).push(result),
            pc: self.pc + 1,
            ..self
        }
    }

    /// The state after an instruction that asks no arithmetic and does not
    /// fault.
    pub open spec fn advance(self) -> Machine {
        match self.current() {
            Some(Instruction::PUSH) => Machine {
                stack: self.stack.push(self.consts[self.push_index()]),
                pc: self.pc + 3,
                ..self
            },
            Some(Instruction::DBG) => Machine {
                stack: self.stack.drop_last(),
                output: self.output.push(self.top()),
                pc: self.pc + 1,
                ..self
            },
            Some(Instruction::HLT) => Machine { running: false, ..self },
            _ => Machine { pc: self.pc + 1, ..self },
        }
    }
}

/// One instruction takes `m` to `next`: it does not fault, and where it asks
/// arithmetic, `next` holds an answer that `alu` can give.
pub open spec fn steps_to<A: Fn(BinOp, Value, Value) -> Value>(
    alu: A,
    m: Machine,
    next: Machine,
) -> bool {
    &&& m.fault() is None
    &&& match m.demand() {
        Some(asked) => exists|result: Value| #[trigger]
            alu.ensures(asked, result) && next == m.settle(result),
        None => next == m.advance(),
    }
}

/// `n` instructions, each executed while the machine was running, take `m`
/// to `end`.
pub open spec fn reach<A: Fn(BinOp, Value, Value) -> Value>(
    alu: A,
    m: Machine,
    end: Machine,
    n: nat,
) -> bool
    decreases n,
{
    if n == 0 {
        end == m
    } else {
        m.running && exists|mid: Machine| #[trigger]
            steps_to(alu, m, mid) && reach(alu, mid, end, (n - 1) as nat)
    }
}

/// Whether the bytes from `pc` on form straight-line code that stops at a
/// `HLT`: every byte met is an opcode that the machine executes, every
/// `PUSH` has both operand bytes and names a constant among the `pool`
/// first ones, and with `depth` values on the stack at `pc` no instruction
/// finds the stack too short.
pub open spec fn straight_line(program: Seq<u8>, pool: nat, pc: nat, depth: nat) -> bool
    decreases program.len() - pc,
{
    if pc >= program.len() {
        false
    } else {
        match instruction_of(program[pc as int]) {
            Some(Instruction::HLT) => true,
            Some(Instruction::NOP) => straight_line(program, pool, pc + 1, depth),
            Some(Instruction::PUSH) => {
                &&& pc + 2 < program.len()
                &&& index_of(program[pc as int + 1], program[pc as int + 2]) < pool
                &&& straight_line(program, pool, pc + 3, depth + 1)
            },
            Some(Instruction::ADD) | Some(Instruction::SUB) | Some(Instruction::MUL) | Some(
                Instruction::DIV,
            ) => depth >= 2 && straight_line(program, pool, pc + 1, (depth - 1) as nat),
            Some(Instruction::DBG) => depth >= 1 && straight_line(
                program,
                pool,
                pc + 1,
                (depth - 1) as nat,
            ),
            _ => false,
        }
    }
}

impl Machine {
    /// Whether what lies ahead of the program counter is well formed for the
    /// pool and the stack that the machine holds now.
    pub open spec fn well_formed(self) -> bool {
        straight_line(self.program, self.consts.len(), self.pc, self.stack.len())
    }

    /// Whether the machine's next fault, if any, is a division by zero.
    pub open spec fn faults_at_most_by_zero(self) -> bool {
        match self.fault() {
            None => true,
            Some(InterpretationError::ZeroDivisionError(_)) => true,
            Some(_) => false,
        }
    }
}

/// Whether `alu` computes the function `f`: whatever it answers to a question
/// is what `f` gives for it.
pub open spec fn computes<A: Fn(BinOp, Value, Value) -> Value>(
    alu: A,
    f: spec_fn(BinOp, Value, Value) -> Value,
) -> bool {
    forall|op: BinOp, left: Value, right: Value, result: Value| #[trigger]
        alu.ensures((op, left, right), result) ==> result == f(op, left, right)
}

impl Machine {
    /// The state after the next instruction, which does not fault, when
    /// arithmetic is the function `f`.
    pub open spec fn next(self, f: spec_fn(BinOp, Value, Value) -> Value) -> Machine {
        match self.demand() {
            Some((op, left, right)) => self.settle(f(op, left, right)),
            None => self.advance(),
        }
    }

    /// A bound on the instructions that a run can still execute: none once
    /// halted, else one more than the bytes ahead of the program counter.
    pub open spec fn remaining(self) -> nat {
        if !self.running {
            0
        } else if self.pc < self.program.len() {
            (self.program.len() - self.pc + 1) as nat
        } else {
            1
        }
    }
}

/// Where a run from `m` ends when arithmetic is the function `f`: the final
/// state, and the error if the run ends in one. A machine that is not
/// running stays as it is.
pub open spec fn outcome(f: spec_fn(BinOp, Value, Value) -> Value, m: Machine) -> (
    Machine,
    Option<InterpretationError>,
)
    decreases m.remaining(),
{
    if !m.running {
        (m, None)
    } else if m.fault() is Some {
        (m.frozen(), m.fault())
    } else {
        outcome(f, m.next(f))
    }
}

} // verus!
