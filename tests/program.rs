use perfaware_8086::decoder::decode;
use perfaware_8086::instruction::Instruction;
use perfaware_8086::op_code::OpCode;
use perfaware_8086::program::Program;

#[test]
fn lookup_inside_instruction_is_invalid_address() {
    let d = decode(&[0x89, 0xC3], false);
    assert_eq!(d.program.get_instruction_at_byte(0).unwrap().op_code, OpCode::Mov);
    let inside = d.program.get_instruction_at_byte(1).unwrap();
    assert_eq!(inside.op_code, OpCode::InvalidAddress);
    assert_eq!(inside.length, 0);
    assert!(inside.decoded_string.is_none());
}

#[test]
fn lookup_is_repeatable() {
    let d = decode(&[0xB8, 0x05, 0x00, 0x89, 0xC3], false);
    for offset in 0..8usize {
        let a = d.program.get_instruction_at_byte(offset).unwrap();
        let b = d.program.get_instruction_at_byte(offset).unwrap();
        assert_eq!(a.op_code, b.op_code);
        assert_eq!(a.start_byte, b.start_byte);
        assert_eq!(a.decoded_string, b.decoded_string);
    }
    assert_eq!(d.program.get_instruction_at_byte(3).unwrap().start_byte, 3);
    assert_eq!(d.program.get_instruction_at_byte(2).unwrap().op_code, OpCode::InvalidAddress);
    assert_eq!(d.program.get_instruction_at_byte(5).unwrap().op_code, OpCode::EndOfProgram);
    assert_eq!(d.program.get_instruction_at_byte(500).unwrap().op_code, OpCode::EndOfProgram);
}

#[test]
fn inserted_instruction_is_found_at_its_start() {
    let mut p = Program::new(4);
    let i = Instruction::new(OpCode::Mov, None, None, Some(String::from("MOV")), 1, 2, None);
    p.insert_instruction(i);
    assert_eq!(p.get_instruction_at_byte(1).unwrap().op_code, OpCode::Mov);
    assert_eq!(p.get_instruction_at_byte(0).unwrap().op_code, OpCode::InvalidAddress);
    assert_eq!(p.get_instruction_at_byte(2).unwrap().op_code, OpCode::InvalidAddress);
    assert_eq!(p.get_instruction_at_byte(4).unwrap().op_code, OpCode::EndOfProgram);
    assert_eq!(p.bytes_len(), 4);
}

#[test]
fn sentinels_carry_nothing() {
    for (i, op) in [
        (Instruction::invalid(), OpCode::Invalid),
        (Instruction::invalid_address(), OpCode::InvalidAddress),
        (Instruction::end_of_program(), OpCode::EndOfProgram),
    ] {
        assert_eq!(i.op_code, op);
        assert!(i.dest_operand.is_none() && i.src_operand.is_none());
        assert!(i.time_estimation.is_none());
        assert_eq!(i.length, 0);
    }
}
