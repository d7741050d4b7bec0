use perfaware_8086::decoder::{decode, decode_at};
use perfaware_8086::instruction::{InstructionOperand, OperandType};
use perfaware_8086::op_code::OpCode;

fn text_of(bytes: &[u8]) -> String {
    let (length, _, instruction) = decode_at(bytes, 0);
    assert_eq!(length, bytes.len());
    instruction.decoded_string.unwrap()
}

#[test]
fn mov_immediate_word_to_accumulator() {
    let bytes = [0xB8u8, 0x05, 0x00];
    let d = decode(&bytes, false);
    assert_eq!(d.error_at, None);
    assert_eq!(d.listing, "bits 16\n\nMOV AX, 5\n");
    let i = d.program.get_instruction_at_byte(0).unwrap();
    assert_eq!(i.op_code, OpCode::Mov);
    assert_eq!(i.length, 3);
    assert_eq!(i.start_byte, 0);
    assert_eq!(i.decoded_string.as_deref(), Some("MOV AX, 5"));
    let dest = i.dest_operand.unwrap();
    assert_eq!(dest.operand_type, OperandType::REGISTER);
    assert_eq!(dest.register, Some(0));
    assert_eq!(dest.register_word, Some(true));
    assert_eq!(i.src_operand.unwrap().literal, Some(5));
    assert_eq!(
        d.program.get_instruction_at_byte(3).unwrap().op_code,
        OpCode::EndOfProgram
    );
}

#[test]
fn mov_immediate_byte_register() {
    assert_eq!(text_of(&[0xB1, 0x0C]), "MOV CL, 12");
    assert_eq!(text_of(&[0xBA, 0x6C, 0x0F]), "MOV DX, 3948");
}

#[test]
fn register_to_register_forms() {
    assert_eq!(text_of(&[0x89, 0xD9]), "MOV CX, BX");
    assert_eq!(text_of(&[0x88, 0xE5]), "MOV CH, AH");
    assert_eq!(text_of(&[0x01, 0xC3]), "ADD BX, AX");
    assert_eq!(text_of(&[0x29, 0xC3]), "SUB BX, AX");
    assert_eq!(text_of(&[0x39, 0xD8]), "CMP AX, BX");
}

#[test]
fn memory_operand_forms() {
    assert_eq!(text_of(&[0x8A, 0x00]), "MOV AL, [BX + SI]");
    assert_eq!(text_of(&[0x8B, 0x56, 0x00]), "MOV DX, [BP + 0]");
    assert_eq!(text_of(&[0x8A, 0x60, 0x04]), "MOV AH, [BX + SI + 4]");
    assert_eq!(text_of(&[0x8A, 0x80, 0x87, 0x13]), "MOV AL, [BX + SI + 4999]");
    assert_eq!(text_of(&[0x89, 0x09]), "MOV [BX + DI], CX");
    assert_eq!(text_of(&[0x8B, 0x1E, 0x82, 0x0D]), "MOV BX, [3458]");
    assert_eq!(text_of(&[0x03, 0x18]), "ADD BX, [BX + SI]");
}

#[test]
fn direct_address_has_no_base_register() {
    let (length, _, i) = decode_at(&[0x8B, 0x2E, 0x05, 0x00], 0);
    assert_eq!(length, 4);
    let src = i.src_operand.unwrap();
    assert_eq!(src.operand_type, OperandType::EAC);
    assert_eq!(src.eac_reg_0, None);
    assert_eq!(src.eac_reg_1, None);
    assert_eq!(src.eac_displacement, Some(5));
    assert_eq!(i.decoded_string.unwrap(), "MOV BP, [5]");
}

#[test]
fn immediate_to_register_memory_forms() {
    assert_eq!(text_of(&[0xC6, 0x03, 0x07]), "MOV [BP + DI], byte 7");
    assert_eq!(text_of(&[0xC7, 0x85, 0x85, 0x03, 0x5B]), "MOV [DI + 901], word 91");
    assert_eq!(text_of(&[0x83, 0xC6, 0x02]), "ADD SI, word 2");
    assert_eq!(text_of(&[0x83, 0xED, 0x02]), "SUB BP, word 2");
    assert_eq!(text_of(&[0x80, 0x3F, 0x22]), "CMP [BX], byte 34");
    assert_eq!(text_of(&[0x81, 0xC1, 0x00, 0x01]), "ADD CX, word 256");
}

#[test]
fn sign_extended_immediate_is_stored_without_extension() {
    let (length, _, i) = decode_at(&[0x83, 0xC6, 0xFE], 0);
    assert_eq!(length, 3);
    assert_eq!(i.src_operand.unwrap().literal, Some(0xFE));
}

#[test]
fn accumulator_forms() {
    assert_eq!(text_of(&[0xA1, 0xFB, 0x09]), "MOV AX, [2555]");
    assert_eq!(text_of(&[0xA3, 0xFA, 0x09]), "MOV [2554], AX");
    assert_eq!(text_of(&[0x05, 0xE8, 0x03]), "ADD AX, [1000]");
    assert_eq!(text_of(&[0x2D, 0x10, 0x00]), "SUB AX, [16]");
    assert_eq!(text_of(&[0x3C, 0x09]), "CMP AX, [9]");
}

#[test]
fn jump_forms() {
    assert_eq!(text_of(&[0x75, 0xFE]), "JNZ $-2");
    assert_eq!(text_of(&[0x74, 0x05]), "JE $+5");
    assert_eq!(text_of(&[0x7C, 0x00]), "JL $+0");
    assert_eq!(text_of(&[0xE2, 0x80]), "LOOP $-128");
    assert_eq!(text_of(&[0xE3, 0x7F]), "JCXZ $+127");
    let (_, _, i) = decode_at(&[0x75, 0xFE], 0);
    assert_eq!(i.src_operand, None);
    assert_eq!(i.dest_operand.unwrap().literal, Some(0xFFFE));
}

#[test]
fn decode_stops_at_unknown_opcode() {
    let bytes = [0xB8u8, 0x05, 0x00, 0xF4, 0xB8, 0x01, 0x00];
    let d = decode(&bytes, false);
    assert_eq!(d.error_at, Some(3));
    assert_eq!(d.listing, "bits 16\n\nMOV AX, 5\n");
    assert_eq!(d.program.get_instruction_at_byte(0).unwrap().op_code, OpCode::Mov);
    assert_eq!(
        d.program.get_instruction_at_byte(4).unwrap().op_code,
        OpCode::InvalidAddress
    );
}

#[test]
fn decode_stops_at_truncated_instruction() {
    let d = decode(&[0x89, 0xD9, 0xB8, 0x05], false);
    assert_eq!(d.error_at, Some(2));
    assert_eq!(d.listing, "bits 16\n\nMOV CX, BX\n");
}

#[test]
fn decode_rejects_unknown_sub_opcode() {
    let (length, _, i) = decode_at(&[0x80, 0x0F, 0x22], 0);
    assert_eq!(length, 0);
    assert_eq!(i.op_code, OpCode::Invalid);
}

#[test]
fn empty_buffer_decodes_to_empty_program() {
    let d = decode(&[], false);
    assert_eq!(d.error_at, None);
    assert_eq!(d.listing, "bits 16\n\n");
    assert_eq!(d.program.bytes_len(), 0);
    assert_eq!(
        d.program.get_instruction_at_byte(0).unwrap().op_code,
        OpCode::EndOfProgram
    );
}

#[test]
fn operand_constructor_leaves_fields_empty() {
    let o = InstructionOperand::new(OperandType::LITERAL);
    assert_eq!(o.operand_type, OperandType::LITERAL);
    assert_eq!(o.literal, None);
    assert_eq!(o.register, None);
}

#[test]
fn word_move_immediate_reads_bit_one_as_sign_extend() {
    let (length, line, i) = decode_at(&[0xC7, 0x06, 0xE8, 0x03, 0xFF, 0x7F], 0);
    assert_eq!(length, 5);
    assert_eq!(line, "MOV [1000], word 255\n");
    assert_eq!(i.src_operand.unwrap().literal, Some(0xFF));
}
