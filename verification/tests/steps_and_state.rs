use stackvm::{
    BinOp, EmptyStackError, InterpretationError, UnexpectedEndError, Value, VM,
};

fn num(x: f64) -> Value {
    Value::from_bits(x.to_bits())
}

fn float_alu(op: BinOp, left: Value, right: Value) -> Value {
    let l = f64::from_bits(left.to_bits());
    let r = f64::from_bits(right.to_bits());
    num(match op {
        BinOp::Add => l + r,
        BinOp::Sub => l - r,
        BinOp::Mul => l * r,
        BinOp::Div => l / r,
    })
}

/// Answers every question with its left operand.
fn left_alu(_op: BinOp, left: Value, _right: Value) -> Value {
    left
}

/// Answers every question with a number that names the operation.
fn tag_alu(op: BinOp, _left: Value, _right: Value) -> Value {
    Value::from_bits(match op {
        BinOp::Add => 100,
        BinOp::Sub => 200,
        BinOp::Mul => 300,
        BinOp::Div => 400,
    })
}

fn loaded(consts: &[u64], program: Vec<u8>) -> VM {
    let mut vm = VM::new();
    for c in consts {
        vm.add_const(Value::from_bits(*c));
    }
    vm.load_program(program);
    vm
}

#[test]
fn each_operation_hands_over_its_operands_in_its_own_order() {
    // constants 11 (pushed first) and 22 (pushed second, on top)
    for (opcode, left) in [(2u8, 22u64), (3, 11), (4, 22), (5, 11)] {
        let mut vm = loaded(&[11, 22], vec![1, 0, 0, 1, 1, 0, opcode, 15]);
        assert_eq!(vm.run(&left_alu), Ok(()));
        assert_eq!(vm.stack(), &vec![Value::from_bits(left)]);
    }
}

#[test]
fn each_opcode_asks_for_its_own_operation() {
    for (opcode, tag) in [(2u8, 100u64), (3, 200), (4, 300), (5, 400)] {
        let mut vm = loaded(&[11, 22], vec![1, 0, 0, 1, 1, 0, opcode, 15]);
        assert_eq!(vm.run(&tag_alu), Ok(()));
        assert_eq!(vm.stack(), &vec![Value::from_bits(tag)]);
    }
}

#[test]
fn the_answer_replaces_both_operands_and_nothing_below() {
    let mut vm = loaded(&[7, 11, 22], vec![1, 0, 0, 1, 1, 0, 1, 2, 0, 2, 15]);
    assert_eq!(vm.run(&tag_alu), Ok(()));
    assert_eq!(vm.stack(), &vec![Value::from_bits(7), Value::from_bits(100)]);
}

#[test]
fn a_closure_can_be_the_unit() {
    let bias = 5u64;
    let unit = |_op: BinOp, l: Value, r: Value| {
        Value::from_bits(l.to_bits() + r.to_bits() + bias)
    };
    let mut vm = loaded(&[1, 2], vec![1, 0, 0, 1, 1, 0, 2, 15]);
    assert_eq!(vm.run(&unit), Ok(()));
    assert_eq!(vm.stack(), &vec![Value::from_bits(8)]);
}

#[test]
fn single_steps_move_the_program_counter_by_instruction_length() {
    let mut vm = loaded(&[1, 2], vec![0, 1, 1, 0, 1, 0, 0, 2, 14, 15]);
    assert_eq!(vm.run_one_instr(&tag_alu), Ok(()));
    assert_eq!(vm.pc(), 1);
    assert_eq!(vm.run_one_instr(&tag_alu), Ok(()));
    assert_eq!(vm.pc(), 4);
    assert_eq!(vm.stack(), &vec![Value::from_bits(2)]);
    assert_eq!(vm.run_one_instr(&tag_alu), Ok(()));
    assert_eq!(vm.pc(), 7);
    assert_eq!(vm.run_one_instr(&tag_alu), Ok(()));
    assert_eq!(vm.pc(), 8);
    assert_eq!(vm.stack(), &vec![Value::from_bits(100)]);
    assert_eq!(vm.run_one_instr(&tag_alu), Ok(()));
    assert_eq!(vm.pc(), 9);
    assert!(vm.stack().is_empty());
    assert_eq!(vm.output(), &vec![Value::from_bits(100)]);
    assert!(!vm.is_running());
}

#[test]
fn halt_clears_the_flag_and_stays_put() {
    let mut vm = loaded(&[], vec![0, 15, 0]);
    assert_eq!(vm.run(&tag_alu), Ok(()));
    assert_eq!(vm.pc(), 1);
    assert!(!vm.is_running());
    // a step on the halted machine executes the HLT again
    assert_eq!(vm.run_one_instr(&tag_alu), Ok(()));
    assert_eq!(vm.pc(), 1);
    assert!(!vm.is_running());
}

#[test]
fn a_step_runs_whether_or_not_the_flag_is_set() {
    let mut vm = loaded(&[3], vec![1, 0, 0]);
    assert!(!vm.is_running());
    assert_eq!(vm.run_one_instr(&tag_alu), Ok(()));
    assert_eq!(vm.stack(), &vec![Value::from_bits(3)]);
    assert!(!vm.is_running());
}

#[test]
fn a_failed_step_reports_and_freezes() {
    let mut vm = loaded(&[3], vec![1, 0, 0, 2, 15]);
    assert_eq!(vm.run_one_instr(&tag_alu), Ok(()));
    assert_eq!(
        vm.run_one_instr(&tag_alu),
        Err(InterpretationError::EmptyStackError(EmptyStackError { position: 3 }))
    );
    assert_eq!(vm.pc(), 3);
    assert!(vm.stack().is_empty());
    // the same fault again, on what is left
    assert_eq!(
        vm.run_one_instr(&tag_alu),
        Err(InterpretationError::EmptyStackError(EmptyStackError { position: 3 }))
    );
}

#[test]
fn loading_a_program_resets_nothing() {
    let mut vm = loaded(&[3], vec![1, 0, 0, 15]);
    assert_eq!(vm.run(&tag_alu), Ok(()));
    assert_eq!(vm.pc(), 3);
    vm.load_program(vec![1, 0, 0, 15]);
    assert_eq!(vm.pc(), 3);
    assert_eq!(vm.stack(), &vec![Value::from_bits(3)]);
    // the run goes on from the stale program counter: it meets the HLT
    assert_eq!(vm.run(&tag_alu), Ok(()));
    assert_eq!(vm.stack(), &vec![Value::from_bits(3)]);
    vm.load_program(vec![15]);
    assert_eq!(
        vm.run(&tag_alu),
        Err(InterpretationError::UnexpectedEndError(UnexpectedEndError { position: 3 }))
    );
}

#[test]
fn reset_makes_the_machine_ready_for_the_same_program() {
    let mut vm = loaded(
        &[2.0f64.to_bits(), 3.0f64.to_bits()],
        vec![1, 0, 0, 1, 1, 0, 2, 1, 0, 0, 14, 15],
    );
    assert_eq!(vm.run(&float_alu), Ok(()));
    assert_eq!(vm.stack(), &vec![num(5.0)]);
    assert_eq!(vm.output(), &vec![num(2.0)]);
    vm.reset();
    assert!(vm.stack().is_empty());
    assert!(vm.output().is_empty());
    assert_eq!(vm.pc(), 0);
    assert!(!vm.is_running());
    assert_eq!(vm.run(&float_alu), Ok(()));
    assert_eq!(vm.stack(), &vec![num(5.0)]);
    assert_eq!(vm.output(), &vec![num(2.0)]);
}

#[test]
fn constants_can_be_added_after_loading() {
    let mut vm = VM::new();
    vm.load_program(vec![1, 1, 0, 15]);
    vm.add_const(Value::from_bits(1));
    vm.add_const(Value::from_bits(2));
    assert_eq!(vm.run(&tag_alu), Ok(()));
    assert_eq!(vm.stack(), &vec![Value::from_bits(2)]);
}
