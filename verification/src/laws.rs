//! What holds of every machine: theorems about the model that the
//! executable machine is proved against.

use vstd::prelude::*;
use crate::errors::InterpretationError;
use crate::instruction::Instruction;
use crate::machine::{
    bad_consts_index, computes, outcome, reach, steps_to, unexpected_end, unknown_instruction,
    unsupported, zero_division, Machine,
};
use crate::value::{BinOp, Value};

verus! {

/// A run that has reached `b` and takes one more instruction has reached
/// where that instruction leads.
pub proof fn reach_extend<A: Fn(BinOp, Value, Value) -> Value>(
    alu: A,
    a: Machine,
    b: Machine,
    c: Machine,
    n: nat,
)
    requires
        reach(alu, a, b, n),
        b.running,
        steps_to(alu, b, c),
    ensures
        reach(alu, a, c, n + 1),
    decreases n,
{
    if n == 0 {
        assert(reach(alu, c, c, 0));
    } else {
        let mid = choose|mid: Machine| #[trigger]
            steps_to(alu, a, mid) && reach(alu, mid, b, (n - 1) as nat);
        reach_extend(alu, mid, b, c, (n - 1) as nat);
    }
}

/// Well-formed code faults only by dividing by zero, and stays well formed
/// over every instruction that executes.
pub proof fn well_formed_step<A: Fn(BinOp, Value, Value) -> Value>(
    alu: A,
    m: Machine,
    next: Machine,
)
    requires
        m.well_formed(),
    ensures
        m.faults_at_most_by_zero(),
        steps_to(alu, m, next) ==> next.well_formed(),
{
}

/// Well-formedness is kept along a whole run.
pub proof fn well_formed_reach<A: Fn(BinOp, Value, Value) -> Value>(
    alu: A,
    m: Machine,
    end: Machine,
    n: nat,
)
    requires
        m.well_formed(),
        reach(alu, m, end, n),
    ensures
        end.well_formed(),
        end.faults_at_most_by_zero(),
    decreases n,
{
    if n == 0 {
        well_formed_step(alu, m, m);
    } else {
        let mid = choose|mid: Machine| #[trigger]
            steps_to(alu, m, mid) && reach(alu, mid, end, (n - 1) as nat);
        well_formed_step(alu, m, mid);
        well_formed_reach(alu, mid, end, (n - 1) as nat);
    }
}

/// A run through any chain of instructions ends where the run of its last
/// state ends, when the unit computes `f`.
pub proof fn reach_keeps_outcome<A: Fn(BinOp, Value, Value) -> Value>(
    alu: A,
    f: spec_fn(BinOp, Value, Value) -> Value,
    m: Machine,
    end: Machine,
    n: nat,
)
    requires
        computes(alu, f),
        reach(alu, m, end, n),
    ensures
        outcome(f, m) == outcome(f, end),
    decreases n,
{
    if n > 0 {
        let mid = choose|mid: Machine| #[trigger]
            steps_to(alu, m, mid) && reach(alu, mid, end, (n - 1) as nat);
        reach_keeps_outcome(alu, f, mid, end, (n - 1) as nat);
    }
}

/// A machine whose next instruction faults executes nothing more.
pub proof fn fault_ends_run<A: Fn(BinOp, Value, Value) -> Value>(
    alu: A,
    m: Machine,
    end: Machine,
    n: nat,
)
    requires
        m.fault() is Some,
        reach(alu, m, end, n),
    ensures
        n == 0,
        end == m,
{
}

/// `PUSH` followed at once by `HLT`: a run from there executes exactly these
/// two, ends halted on the `HLT`, and has put the named constant on top of
/// what the stack held. Nothing else has changed. With a pool of one
/// constant and an empty stack, the stack ends as that constant alone.
pub proof fn push_then_halt<A: Fn(BinOp, Value, Value) -> Value>(
    alu: A,
    m: Machine,
    end: Machine,
    n: nat,
)
    requires
        m.running,
        m.pc + 3 < m.program.len(),
        m.program[m.pc as int] == Instruction::PUSH.spec_opcode(),
        m.program[m.pc as int + 3] == Instruction::HLT.spec_opcode(),
        m.push_index() < m.consts.len(),
        reach(alu, m, end, n),
        !end.running,
    ensures
        n == 2,
        end == (Machine {
            stack: m.stack.push(m.consts[m.push_index()]),
            pc: m.pc + 3,
            running: false,
            ..m
        }),
{
    reveal_with_fuel(reach, 3);
}

/// `ADD` and `MUL` do not care which of the two operands was pushed first,
/// as long as the unit's operation does not: exchanging the two values on
/// top of the stack changes nothing in where the instruction can lead.
pub proof fn add_mul_ignore_operand_order<A: Fn(BinOp, Value, Value) -> Value>(
    alu: A,
    m: Machine,
    under: Seq<Value>,
    a: Value,
    b: Value,
    next: Machine,
)
    requires
        m.current() == Some(Instruction::ADD) || m.current() == Some(Instruction::MUL),
        m.stack == under.push(a).push(b),
        forall|op: BinOp, left: Value, right: Value, result: Value|
            (op == BinOp::Add || op == BinOp::Mul) ==> (#[trigger] alu.ensures(
                (op, left, right),
                result,
            ) <==> alu.ensures((op, right, left), result)),
    ensures
        steps_to(alu, m, next) <==> steps_to(
            alu,
            Machine { stack: under.push(b).push(a), ..m },
            next,
        ),
{
    let swapped = Machine { stack: under.push(b).push(a), ..m };
    let op = if m.current() == Some(Instruction::ADD) {
        BinOp::Add
    } else {
        BinOp::Mul
    };
    assert(m.stack.take(m.stack.len() - 2) =~= under);
    assert(swapped.stack.take(swapped.stack.len() - 2) =~= under);
    if steps_to(alu, m, next) {
        let result = choose|result: Value| #[trigger]
            alu.ensures((op, b, a), result) && next == m.settle(result);
        assert(alu.ensures(swapped.demand().unwrap(), result));
    }
    if steps_to(alu, swapped, next) {
        let result = choose|result: Value| #[trigger]
            alu.ensures((op, a, b), result) && next == swapped.settle(result);
        assert(alu.ensures(m.demand().unwrap(), result));
    }
}

/// `SUB` after pushing `a` and then `b` asks the unit for `a` minus `b`: the
/// value pushed earlier is the minuend. The instruction leads exactly to
/// the states that hold an answer to that question in place of the two.
pub proof fn sub_takes_earlier_operand_as_minuend<A: Fn(BinOp, Value, Value) -> Value>(
    alu: A,
    m: Machine,
    under: Seq<Value>,
    a: Value,
    b: Value,
    next: Machine,
)
    requires
        m.current() == Some(Instruction::SUB),
        m.stack == under.push(a).push(b),
    ensures
        m.fault() is None,
        m.demand() == Some((BinOp::Sub, a, b)),
        steps_to(alu, m, next) <==> exists|result: Value| #[trigger]
            alu.ensures((BinOp::Sub, a, b), result) && next == (Machine {
                stack: under.push(result),
                pc: m.pc + 1,
                ..m
            }),
{
    assert(m.stack.take(m.stack.len() - 2) =~= under);
    if exists|result: Value| #[trigger]
        alu.ensures((BinOp::Sub, a, b), result) && next == (Machine {
            stack: under.push(result),
            pc: m.pc + 1,
            ..m
        }) {
        let result = choose|result: Value| #[trigger]
            alu.ensures((BinOp::Sub, a, b), result) && next == (Machine {
                stack: under.push(result),
                pc: m.pc + 1,
                ..m
            });
        assert(alu.ensures(m.demand().unwrap(), result) && next == m.settle(result));
    }
}

/// `DIV` with a zero on top of at least one more value faults with a
/// division by zero at the program counter, whatever the dividend, and
/// leaves the stack without either operand.
pub proof fn div_by_zero_faults(m: Machine, under: Seq<Value>, dividend: Value, divisor: Value)
    requires
        m.current() == Some(Instruction::DIV),
        m.stack == under.push(dividend).push(divisor),
        divisor.spec_is_zero(),
    ensures
        m.fault() == Some(zero_division(m.pc)),
        m.frozen() == (Machine { stack: under, ..m }),
{
    assert(m.stack.take(m.stack.len() - 2) =~= under);
}

/// Nothing but a `DIV` that finds a zero on top of at least two values
/// faults as a division by zero.
pub proof fn zero_division_needs_zero_divisor(m: Machine)
    requires
        m.fault() matches Some(InterpretationError::ZeroDivisionError(_)),
    ensures
        m.current() == Some(Instruction::DIV),
        m.stack.len() >= 2,
        m.top().spec_is_zero(),
        m.fault() == Some(zero_division(m.pc)),
{
}

/// A byte under the program counter that is none of the sixteen opcodes
/// faults as an unknown instruction, naming the byte and its offset, and
/// leaves the machine untouched.
pub proof fn unknown_opcode_faults(m: Machine)
    requires
        m.pc < m.program.len(),
        m.program[m.pc as int] >= 16,
    ensures
        m.fault() == Some(unknown_instruction(m.program[m.pc as int], m.pc)),
        m.frozen() == m,
{
}

/// A program that ends where a byte is needed faults as an unexpected end:
/// at the program counter when no opcode is there, and at the end of the
/// program when a `PUSH` lacks one or both operand bytes. The machine is
/// left untouched.
pub proof fn truncated_program_faults(m: Machine)
    requires
        m.pc >= m.program.len() || (m.current() == Some(Instruction::PUSH) && m.pc + 2
            >= m.program.len()),
    ensures
        m.fault() == Some(
            unexpected_end(
                if m.pc >= m.program.len() {
                    m.pc
                } else {
                    m.program.len()
                },
            ),
        ),
        m.frozen() == m,
{
}

/// A complete `PUSH` whose index is not below the pool's length faults as a
/// bad constant index, naming the index and the offset of the `PUSH`, and
/// leaves the machine untouched.
pub proof fn push_beyond_pool_faults(m: Machine)
    requires
        m.current() == Some(Instruction::PUSH),
        m.pc + 2 < m.program.len(),
        m.push_index() >= m.consts.len(),
    ensures
        m.fault() == Some(bad_consts_index(m.push_index(), m.pc)),
        m.frozen() == m,
{
}

/// A jump or `RET` under the program counter faults as unsupported, naming
/// the instruction and its offset, and leaves the machine untouched.
pub proof fn control_flow_faults(m: Machine, inst: Instruction)
    requires
        m.current() == Some(inst),
        inst.spec_is_control_flow(),
    ensures
        m.fault() == Some(unsupported(inst, m.pc)),
        m.frozen() == m,
{
}

} // verus!
