use stackvm::{
    decode_opcode, index_bytes, read_index, Instruction, InterpretationError, LexError, Loc,
    UnexpectedEndError, UnknownInstructionError, Value, ZeroDivisionError,
};

const ALL: [Instruction; 16] = [
    Instruction::NOP,
    Instruction::PUSH,
    Instruction::ADD,
    Instruction::SUB,
    Instruction::MUL,
    Instruction::DIV,
    Instruction::JMP,
    Instruction::JE,
    Instruction::JNE,
    Instruction::JG,
    Instruction::JL,
    Instruction::JGE,
    Instruction::JLE,
    Instruction::RET,
    Instruction::DBG,
    Instruction::HLT,
];

#[test]
fn opcodes_are_the_ordinals() {
    for (i, inst) in ALL.iter().enumerate() {
        assert_eq!(inst.opcode() as usize, i);
    }
}

#[test]
fn decoding_inverts_encoding() {
    for inst in ALL {
        assert_eq!(Instruction::from_byte(inst.opcode()), Some(inst));
        assert_eq!(decode_opcode(inst.opcode(), 9), Ok(inst));
    }
}

#[test]
fn every_other_byte_fails_to_decode() {
    for byte in 16..=255u8 {
        assert_eq!(Instruction::from_byte(byte), None);
        assert_eq!(
            decode_opcode(byte, 77),
            Err(InterpretationError::UnknownInstructionError(UnknownInstructionError {
                byte,
                position: 77,
            }))
        );
    }
}

#[test]
fn only_push_has_operand_bytes() {
    for inst in ALL {
        let expected = if inst == Instruction::PUSH { 2 } else { 0 };
        assert_eq!(inst.operand_width(), expected);
    }
}

#[test]
fn control_flow_is_jumps_and_ret() {
    for inst in ALL {
        let expected = (6..=13).contains(&inst.opcode());
        assert_eq!(inst.is_control_flow(), expected);
    }
}

#[test]
fn index_bytes_are_little_endian() {
    assert_eq!(read_index(0, 0), 0);
    assert_eq!(read_index(1, 0), 1);
    assert_eq!(read_index(0, 1), 256);
    assert_eq!(read_index(0x34, 0x12), 0x1234);
    assert_eq!(read_index(255, 255), 65535);
    assert_eq!(index_bytes(0x1234), (0x34, 0x12));
    assert_eq!(index_bytes(65535), (255, 255));
}

#[test]
fn index_round_trips_for_every_index() {
    for index in 0..=u16::MAX {
        let (lo, hi) = index_bytes(index);
        assert_eq!(read_index(lo, hi), index);
        assert_eq!([lo, hi], index.to_le_bytes());
    }
}

#[test]
fn zero_test_follows_the_number_not_the_encoding() {
    assert!(Value::from_bits(0.0f64.to_bits()).is_zero());
    assert!(Value::from_bits((-0.0f64).to_bits()).is_zero());
    for x in [1.0, -1.0, f64::MIN_POSITIVE, f64::from_bits(1), f64::INFINITY, f64::NAN, 1e-320] {
        assert_eq!(Value::from_bits(x.to_bits()).is_zero(), x == 0.0);
        assert!(!Value::from_bits(x.to_bits()).is_zero());
    }
}

#[test]
fn value_keeps_its_bits() {
    for bits in [0u64, 1, 0x8000_0000_0000_0000, 0x7ff8_0000_0000_0001, u64::MAX] {
        assert_eq!(Value::from_bits(bits).to_bits(), bits);
    }
    assert_ne!(Value::from_bits(0), Value::from_bits(0x8000_0000_0000_0000));
}

#[test]
fn errors_point_at_their_position() {
    let e = InterpretationError::ZeroDivisionError(ZeroDivisionError { position: 6 });
    assert_eq!(e.position(), 6);
    let e = InterpretationError::UnexpectedEndError(UnexpectedEndError { position: 0 });
    assert_eq!(e.position(), 0);
    let e = InterpretationError::UnknownInstructionError(UnknownInstructionError {
        byte: 99,
        position: 12,
    });
    assert_eq!(e.position(), 12);
}

#[test]
fn lex_errors_carry_place_and_text() {
    let loc = Loc { line: 3, column: 14 };
    assert_eq!(LexError::MalformedNumLit(loc).loc(), loc);
    assert_eq!(LexError::UnexpectedToken(loc).loc(), loc);
    assert_eq!(LexError::UnknownLexem(loc).loc(), loc);
    assert_eq!(LexError::MalformedNumLit(loc).description(), "неправильный float литерал");
    assert_eq!(LexError::UnexpectedToken(loc).description(), "неожиданное появление");
    assert_eq!(LexError::UnknownLexem(loc).description(), "неизвестная лексема");
}
