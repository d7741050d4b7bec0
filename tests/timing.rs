use perfaware_8086::decoder::{decode, decode_at};
use perfaware_8086::effective_address::get_eac_string_and_operand;
use perfaware_8086::instruction::{InstructionOperand, InstructionTime, OperandType, TimingError};
use perfaware_8086::op_code::{get_op_code, get_str, OpCode};
use perfaware_8086::register::util::{get_register_string, get_register_string_and_operand};
use perfaware_8086::register::{byte, word};
use perfaware_8086::text::push_decimal;

fn memory(rm: u8, mode: u8, lo: u8, hi: u8) -> InstructionOperand {
    get_eac_string_and_operand(rm, mode, lo, hi).unwrap().1
}

#[test]
fn add_to_memory_with_base_index_displacement_costs_eleven_ea() {
    let d = decode(&[0x01, 0x43, 0x04], true);
    let i = d.program.get_instruction_at_byte(0).unwrap();
    assert_eq!(i.decoded_string.as_deref(), Some("ADD [BP + DI + 4], AX"));
    let t = i.time_estimation.unwrap();
    assert_eq!(t.cycles_ea, 11);
    assert_eq!(t.cycles_base, 16);
    assert_eq!(t.total_time(), 27);
    assert_eq!(t.get_string(), "27 (16 + 11ea)");
}

#[test]
fn effective_address_cost_table() {
    assert_eq!(InstructionTime::get_operand_ea_cycles(&memory(6, 0, 0x10, 0)), 6);
    assert_eq!(InstructionTime::get_operand_ea_cycles(&memory(7, 0, 0, 0)), 5);
    assert_eq!(InstructionTime::get_operand_ea_cycles(&memory(4, 0, 0, 0)), 5);
    assert_eq!(InstructionTime::get_operand_ea_cycles(&memory(7, 1, 3, 0)), 9);
    assert_eq!(InstructionTime::get_operand_ea_cycles(&memory(3, 0, 0, 0)), 7);
    assert_eq!(InstructionTime::get_operand_ea_cycles(&memory(0, 0, 0, 0)), 7);
    assert_eq!(InstructionTime::get_operand_ea_cycles(&memory(2, 0, 0, 0)), 8);
    assert_eq!(InstructionTime::get_operand_ea_cycles(&memory(1, 0, 0, 0)), 8);
    assert_eq!(InstructionTime::get_operand_ea_cycles(&memory(0, 2, 1, 1)), 11);
    assert_eq!(InstructionTime::get_operand_ea_cycles(&memory(2, 2, 1, 1)), 12);
    assert_eq!(InstructionTime::get_operand_ea_cycles(&memory(6, 1, 0, 0)), 9);
    assert_eq!(InstructionTime::get_operand_ea_cycles(&memory(6, 0, 0, 0)), 6);
    assert_eq!(InstructionTime::get_operand_ea_cycles(&memory(0, 1, 0, 0)), 11);
    let reg = get_register_string_and_operand(0, true).unwrap().1;
    assert_eq!(InstructionTime::get_operand_ea_cycles(&reg), 0);
    assert_eq!(InstructionTime::get_cycles_for_ea(&memory(3, 1, 4, 0), &reg), 11);
}

#[test]
fn base_costs() {
    let ax = get_register_string_and_operand(word::AX, true).unwrap().1;
    let bx = get_register_string_and_operand(word::BX, true).unwrap().1;
    let mut lit = InstructionOperand::new(OperandType::LITERAL);
    lit.literal = Some(3);
    let mem = memory(7, 0, 0, 0);
    let est = |op, d: &InstructionOperand, s: &InstructionOperand| {
        InstructionTime::new_from_estimation(op, d, s)
    };
    assert_eq!(est(OpCode::Mov, &bx, &ax), Ok(InstructionTime::new(2, 0)));
    assert_eq!(est(OpCode::Mov, &bx, &lit), Ok(InstructionTime::new(4, 0)));
    assert_eq!(est(OpCode::Mov, &ax, &mem), Ok(InstructionTime::new(10, 0)));
    assert_eq!(est(OpCode::Mov, &mem, &ax), Ok(InstructionTime::new(10, 0)));
    assert_eq!(est(OpCode::Mov, &bx, &mem), Ok(InstructionTime::new(8, 5)));
    assert_eq!(est(OpCode::Mov, &mem, &bx), Ok(InstructionTime::new(9, 5)));
    assert_eq!(est(OpCode::Mov, &mem, &lit), Ok(InstructionTime::new(10, 5)));
    assert_eq!(est(OpCode::Add, &bx, &ax), Ok(InstructionTime::new(3, 0)));
    assert_eq!(est(OpCode::Sub, &bx, &mem), Ok(InstructionTime::new(9, 5)));
    assert_eq!(est(OpCode::Add, &mem, &bx), Ok(InstructionTime::new(16, 5)));
    assert_eq!(est(OpCode::Add, &mem, &lit), Ok(InstructionTime::new(17, 5)));
    assert_eq!(est(OpCode::Sub, &ax, &lit), Ok(InstructionTime::new(4, 0)));
    assert_eq!(est(OpCode::Cmp, &bx, &ax), Err(TimingError::NotImplemented));
    assert_eq!(est(OpCode::Jnz, &lit, &lit), Err(TimingError::NotImplemented));
    assert_eq!(est(OpCode::EndOfProgram, &bx, &ax), Err(TimingError::Sentinel));
}

#[test]
fn timing_text() {
    assert_eq!(InstructionTime::new(4, 0).get_string(), "4");
    assert_eq!(InstructionTime::new(8, 5).get_string(), "13 (8 + 5ea)");
}

#[test]
fn untimed_decode_has_no_estimates() {
    let (_, _, i) = decode_at(&[0x01, 0x43, 0x04], 0);
    assert!(i.time_estimation.is_none());
    let d = decode(&[0x01, 0x43, 0x04], false);
    assert!(d.program.get_instruction_at_byte(0).unwrap().time_estimation.is_none());
}

#[test]
fn catalog_strings() {
    assert_eq!(get_str(OpCode::Loopnz), "LOOPNZ");
    assert_eq!(get_str(OpCode::Cmp), "CMP");
    assert_eq!(word::get_str(word::SI), "SI");
    assert_eq!(word::get_str(9), "INVALID_REGISTER");
    assert_eq!(byte::get_str(byte::BH), "BH");
    assert_eq!(get_register_string(2, false), "DL");
    assert_eq!(get_register_string(2, true), "DX");
    assert_eq!(get_op_code(0b101), OpCode::Sub);
    assert_eq!(get_op_code(0b111), OpCode::Cmp);
    assert_eq!(get_op_code(0b000), OpCode::Add);
    assert_eq!(get_op_code(0b010), OpCode::Invalid);
}

#[test]
fn effective_address_text_and_operand() {
    let (text, o) = get_eac_string_and_operand(6, 0, 0x34, 0x12).unwrap();
    assert_eq!(text, "[4660]");
    assert_eq!(o.eac_displacement, Some(0x1234));
    assert_eq!(o.eac_reg_0, None);
    let (text, o) = get_eac_string_and_operand(6, 1, 7, 0).unwrap();
    assert_eq!(text, "[BP + 7]");
    assert_eq!(o.eac_reg_0, Some(word::BP));
    assert_eq!(get_eac_string_and_operand(0, 0, 0, 0).unwrap().0, "[BX + SI]");
    assert!(get_eac_string_and_operand(8, 0, 0, 0).is_none());
}

#[test]
fn decimal_text() {
    let mut s = String::from("x=");
    push_decimal(&mut s, 0);
    push_decimal(&mut s, 65535);
    assert_eq!(s, "x=065535");
}
