//! The executable machine.

use vstd::prelude::*;
use crate::errors::{
    BadConstsIndexError, EmptyStackError, InterpretationError, UnexpectedEndError,
    UnsupportedInstructionError, ZeroDivisionError,
};
use crate::instruction::{decode_opcode, read_index, Instruction};
use crate::laws::{reach_extend, reach_keeps_outcome, well_formed_reach};
use crate::machine::{
    computes, empty_stack, outcome, reach, steps_to, unexpected_end, Machine,
};
use crate::value::{BinOp, Value};

verus! {

/// The virtual machine: a program, a constant pool, an operand stack, a
/// program counter and a running flag.
pub struct VM {
    stack: Vec<Value>,
    program: Vec<u8>,
    consts: Vec<Value>,
    pc: usize,
    running: bool,
    output: Vec<Value>,
}

impl View for VM {
    type V = Machine;

    closed spec fn view(&self) -> Machine {
        Machine {
            program: self.program@,
            consts: self.consts@,
            stack: self.stack@,
            pc: self.pc as nat,
            running: self.running,
            output: self.output@,
        }
    }
}

impl VM {
    /// A machine with nothing loaded.
    pub fn new() -> (vm: VM)
        ensures
            vm@ == Machine::fresh(),
    {
        VM {
            stack: Vec::new(),
            program: Vec::new(),
            consts: Vec::new(),
            pc: 0,
            running: false,
            output: Vec::new(),
        }
    }

    /// Appends `value` to the constant pool.
    pub fn add_const(&mut self, value: Value)
        ensures
            final(self)@ == (Machine { consts: old(self)@.consts.push(value), ..old(self)@ }),
    {
        self.consts.push(value);
    }

    /// Replaces the program. The program counter, the stack and the running
    /// flag stay as they are.
    pub fn load_program(&mut self, program: Vec<u8>)
        ensures
            final(self)@ == (Machine { program: program@, ..old(self)@ }),
    {
        self.program = program;
    }

    /// The program byte at `at`, or the fault of running off the end.
    fn fetch(&self, at: usize) -> (byte: Result<u8, InterpretationError>)
        ensures
            byte == if at < self@.program.len() {
                Ok::<u8, InterpretationError>(self@.program[at as int])
            } else {
                Err(unexpected_end(at as nat))
            },
            self@.program.len() <= usize::MAX,
    {
        if at < self.program.len() {
            Ok(self.program[at])
        } else {
            Err(InterpretationError::UnexpectedEndError(UnexpectedEndError { position: at }))
        }
    }

    /// Pops the top of the stack, or reports that there is none.
    fn pop(&mut self) -> (popped: Result<Value, InterpretationError>)
        ensures
            match popped {
                Ok(value) => old(self)@.stack.len() > 0 && value == old(self)@.top()
                    && final(self)@ == (Machine {
                    stack: old(self)@.stack.drop_last(),
                    ..old(self)@
                }),
                Err(e) => old(self)@.stack.len() == 0 && final(self)@ == old(self)@
                    && e == empty_stack(old(self)@.pc),
            },
    {
        match self.stack.pop() {
            Some(value) => Ok(value),
            None => Err(InterpretationError::EmptyStackError(EmptyStackError { position: self.pc })),
        }
    }

    /// Pops the two operands of an arithmetic instruction: the top first.
    fn pop_pair(&mut self) -> (popped: Result<(Value, Value), InterpretationError>)
        ensures
            match popped {
                Ok((first, second)) => old(self)@.stack.len() >= 2 && first == old(self)@.top()
                    && second == old(self)@.below() && final(self)@ == (Machine {
                    stack: old(self)@.stack.take(old(self)@.stack.len() - 2),
                    ..old(self)@
                }),
                Err(e) => old(self)@.stack.len() < 2 && e == empty_stack(old(self)@.pc)
                    && final(self)@ == (Machine { stack: Seq::empty(), ..old(self)@ }),
            },
    {
        let first = match self.pop() {
            Ok(value) => value,
            Err(e) => {
                assert(self@.stack =~= Seq::empty());
                return Err(e);
            },
        };
        let second = match self.pop() {
            Ok(value) => value,
            Err(e) => {
                assert(self@.stack =~= Seq::empty());
                return Err(e);
            },
        };
        assert(self@.stack =~= old(self)@.stack.take(old(self)@.stack.len() - 2));
        Ok((first, second))
    }

    /// Fetches, decodes and executes the instruction under the program
    /// counter, whether or not the running flag is set.
    ///
    /// `NOP` moves on. `PUSH` reads its two operand bytes and pushes the
    /// constant they name. `ADD`, `SUB`, `MUL` and `DIV` pop the top and then
    /// the value under it, ask `alu` for the answer and push it. `DBG` pops
    /// a value and appends it to the emitted values. `HLT` clears the running
    /// flag and leaves the program counter where it is. A fault is returned
    /// as it is found, with what was popped until then gone and the program
    /// counter still on the instruction.
    pub fn run_one_instr<A: Fn(BinOp, Value, Value) -> Value>(&mut self, alu: &A) -> (res: Result<
        (),
        InterpretationError,
    >)
        requires
            forall|op: BinOp, left: Value, right: Value| alu.requires((op, left, right)),
        ensures
            match res {
                Ok(()) => steps_to(*alu, old(self)@, final(self)@),
                Err(e) => old(self)@.fault() == Some(e) && final(self)@ == old(self)@.frozen(),
            },
    {
        let byte = match self.fetch(self.pc) {
            Ok(byte) => byte,
            Err(e) => { return Err(e); },
        };
        let inst = match decode_opcode(byte, self.pc) {
            Ok(inst) => inst,
            Err(e) => { return Err(e); },
        };
        match inst {
            Instruction::NOP => {
                self.pc += 1;
            },
            Instruction::PUSH => {
                let b1 = match self.fetch(self.pc + 1) {
                    Ok(byte) => byte,
                    Err(e) => { return Err(e); },
                };
                let b2 = match self.fetch(self.pc + 2) {
                    Ok(byte) => byte,
                    Err(e) => { return Err(e); },
                };
                let index: u16 = read_index(b1, b2);
                if index as usize >= self.consts.len() {
                    return Err(
                        InterpretationError::BadConstsIndexError(
                            BadConstsIndexError { index, position: self.pc },
                        ),
                    );
                }
                let val = self.consts[index as usize];
                self.stack.push(val);
                self.pc += 3;
            },
            Instruction::ADD => {
                let (a, b) = match self.pop_pair() {
                    Ok(pair) => pair,
                    Err(e) => { return Err(e); },
                };
                let sum = alu(BinOp::Add, a, b);
                self.stack.push(sum);
                self.pc += 1;
                proof {
                    settled(*alu, old(self)@, (BinOp::Add, a, b), sum, self@);
                }
            },
            Instruction::SUB => {
                let (a, b) = match self.pop_pair() {
                    Ok(pair) => pair,
                    Err(e) => { return Err(e); },
                };
                let difference = alu(BinOp::Sub, b, a);
                self.stack.push(difference);
                self.pc += 1;
                proof {
                    settled(*alu, old(self)@, (BinOp::Sub, b, a), difference, self@);
                }
            },
            Instruction::MUL => {
                let (a, b) = match self.pop_pair() {
                    Ok(pair) => pair,
                    Err(e) => { return Err(e); },
                };
                let product = alu(BinOp::Mul, a, b);
                self.stack.push(product);
                self.pc += 1;
                proof {
                    settled(*alu, old(self)@, (BinOp::Mul, a, b), product, self@);
                }
            },
            Instruction::DIV => {
                let (a, b) = match self.pop_pair() {
                    Ok(pair) => pair,
                    Err(e) => { return Err(e); },
                };
                if a.is_zero() {
                    return Err(
                        InterpretationError::ZeroDivisionError(
                            ZeroDivisionError { position: self.pc },
                        ),
                    );
                }
                let quotient = alu(BinOp::Div, b, a);
                self.stack.push(quotient);
                self.pc += 1;
                proof {
                    settled(*alu, old(self)@, (BinOp::Div, b, a), quotient, self@);
                }
            },
            Instruction::JMP
            | Instruction::JE
            | Instruction::JNE
            | Instruction::JG
            | Instruction::JL
            | Instruction::JGE
            | Instruction::JLE
            | Instruction::RET => {
                return Err(
                    InterpretationError::UnsupportedInstructionError(
                        UnsupportedInstructionError { instruction: inst, position: self.pc },
                    ),
                );
            },
            Instruction::DBG => {
                let a = match self.pop() {
                    Ok(value) => value,
                    Err(e) => {
                        assert(self@.stack =~= Seq::empty());
                        return Err(e);
                    },
                };
                self.output.push(a);
                self.pc += 1;
            },
            Instruction::HLT => {
                self.running = false;
            },
        }
        Ok(())
    }

    /// Runs the program: sets the running flag, then executes instruction
    /// after instruction until `HLT` clears the flag or an instruction
    /// faults. The first fault ends the run and is returned; the machine is
    /// left as the fault left it.
    ///
    /// Some chain of executed instructions leads from the started machine to
    /// a last state. On success that state is halted and is the final one.
    /// On failure it is the state whose next instruction raised the error.
    /// Where the unit computes a function, final state and result are those
    /// of `outcome` for that function. Well-formed straight-line code can
    /// fail in one way only, by dividing by zero.
    pub fn run<A: Fn(BinOp, Value, Value) -> Value>(&mut self, alu: &A) -> (res: Result<
        (),
        InterpretationError,
    >)
        requires
            forall|op: BinOp, left: Value, right: Value| alu.requires((op, left, right)),
        ensures
            exists|last: Machine, n: nat| #[trigger]
                reach(*alu, old(self)@.started(), last, n) && match res {
                    Ok(()) => !last.running && final(self)@ == last,
                    Err(e) => last.running && last.fault() == Some(e) && final(self)@
                        == last.frozen(),
                },
            forall|f: spec_fn(BinOp, Value, Value) -> Value|
                computes(*alu, f) ==> {
                    let (end, error) = #[trigger] outcome(f, old(self)@.started());
                    final(self)@ == end && res == match error {
                        None => Ok::<(), InterpretationError>(()),
                        Some(e) => Err(e),
                    }
                },
            old(self)@.well_formed() ==> match res {
                Ok(()) => true,
                Err(e) => e is ZeroDivisionError,
            },
    {
        self.running = true;
        let ghost start = self@;
        let ghost mut n: nat = 0;
        while self.running
            invariant
                forall|op: BinOp, left: Value, right: Value| alu.requires((op, left, right)),
                start == old(self)@.started(),
                reach(*alu, start, self@, n),
            decreases self@.remaining(),
        {
            let ghost before = self@;
            match self.run_one_instr(alu) {
                Ok(()) => {
                    proof {
                        reach_extend(*alu, start, before, self@, n);
                        n = n + 1;
                    }
                },
                Err(e) => {
                    proof {
                        if start.well_formed() {
                            well_formed_reach(*alu, start, before, n);
                        }
                        assert forall|f: spec_fn(BinOp, Value, Value) -> Value|
                            computes(*alu, f) implies #[trigger] outcome(f, start) == (
                            self@,
                            Some(e),
                        ) by {
                            reach_keeps_outcome(*alu, f, start, before, n);
                        }
                    }
                    return Err(e);
                },
            }
        }
        proof {
            assert forall|f: spec_fn(BinOp, Value, Value) -> Value|
                computes(*alu, f) implies #[trigger] outcome(f, start) == (
                self@,
                None::<InterpretationError>,
            ) by {
                reach_keeps_outcome(*alu, f, start, self@, n);
            }
        }
        Ok(())
    }

    /// The operand stack, bottom first.
    pub fn stack(&self) -> (stack: &Vec<Value>)
        ensures
            stack@ == self@.stack,
    {
        &self.stack
    }

    /// Offset of the next opcode byte.
    pub fn pc(&self) -> (pc: usize)
        ensures
            pc == self@.pc,
    {
        self.pc
    }

    /// Whether a run has started and `HLT` has not cleared the flag since.
    pub fn is_running(&self) -> (running: bool)
        ensures
            running == self@.running,
    {
        self.running
    }

    /// What `DBG` has emitted so far, oldest first.
    pub fn output(&self) -> (output: &Vec<Value>)
        ensures
            output@ == self@.output,
    {
        &self.output
    }

    /// Makes the machine ready for another run of what is loaded: empties
    /// the stack and the emitted values, puts the program counter back to
    /// zero and clears the running flag. Program and constant pool stay.
    pub fn reset(&mut self)
        ensures
            final(self)@ == (Machine {
                program: old(self)@.program,
                consts: old(self)@.consts,
                ..Machine::fresh()
            }),
    {
        self.stack = Vec::new();
        self.output = Vec::new();
        self.pc = 0;
        self.running = false;
    }
}

/// An arithmetic instruction that did not fault, got `result` for what it
/// asked and put it in place of its operands has taken its step.
proof fn settled<A: Fn(BinOp, Value, Value) -> Value>(
    alu: A,
    m: Machine,
    asked: (BinOp, Value, Value),
    result: Value,
    next: Machine,
)
    requires
        m.fault() is None,
        m.demand() == Some(asked),
        alu.ensures(asked, result),
        next == m.settle(result),
    ensures
        steps_to(alu, m, next),
{
    assert(alu.ensures(m.demand().unwrap(), result));
}

} // verus!
