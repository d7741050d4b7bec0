use vstd::prelude::*;
use vstd::string::*;

use crate::effective_address::{
    address_text, eac_base, eac_displacement, eac_index, eac_operand, get_eac_string_and_operand,
    le_word, DIRECT_ADDRESS, MEM_0_BIT, MEM_16_BIT, MEM_8_BIT, REGISTER,
};
use crate::instruction::{
    estimate, literal_operand, sentinel, timing_operands, register_operand, Instruction, InstructionOperand, InstructionTime,
    OperandType,
};
use crate::program::Program;
use crate::op_code::{self, jump_op, mnemonic, subcode_op, OpCode};
use crate::register::util::{get_register_string_and_operand, register_name};
use crate::register::word::{self, AX};
use crate::text::{decimal, push_decimal, push_signed_decimal, signed_decimal};

verus! {

/// What the decoder reads at one offset: an operation, its operands, its
/// encoded length and its rendered text.
pub struct Form {
    pub op_code: OpCode,
    pub dest: Option<InstructionOperand>,
    pub src: Option<InstructionOperand>,
    pub length: nat,
    pub text: Seq<char>,
}

/// The byte at `i`, or zero past either end.
pub open spec fn byte_at(b: Seq<u8>, i: int) -> u8 {
    if 0 <= i < b.len() {
        b[i]
    } else {
        0
    }
}

/// `o` with its width flag set to `w`.
pub open spec fn with_width(o: InstructionOperand, w: bool) -> InstructionOperand {
    InstructionOperand { register_word: Some(w), ..o }
}

/// Value of a byte read as a two's complement signed number.
pub open spec fn signed_byte(x: u8) -> int {
    if x < 128 {
        x as int
    } else {
        x - 256
    }
}

/// A byte sign-extended to sixteen bits.
pub open spec fn sign_extend(x: u8) -> u16 {
    if x < 128 {
        x as u16
    } else {
        (x + 0xff00) as u16
    }
}

/// Text `OP dest, src`.
pub open spec fn binary_text(op: OpCode, d: Seq<char>, s: Seq<char>) -> Seq<char> {
    mnemonic(op) + " "@ + d + ", "@ + s
}

/// Text `OP dest`.
pub open spec fn unary_text(op: OpCode, d: Seq<char>) -> Seq<char> {
    mnemonic(op) + " "@ + d
}

/// Number of displacement bytes that follow the mode/reg/rm byte.
pub open spec fn disp_len(mode: u8, rm: u8) -> nat {
    if mode == MEM_8_BIT {
        1
    } else if mode == MEM_16_BIT || (mode == MEM_0_BIT && rm == DIRECT_ADDRESS) {
        2
    } else {
        0
    }
}

/// Addressing mode field of the mode/reg/rm byte after the opcode.
pub open spec fn mode_of(b: Seq<u8>, pos: int) -> u8 {
    byte_at(b, pos + 1) >> 6
}

/// r/m field of the mode/reg/rm byte after the opcode.
pub open spec fn rm_of(b: Seq<u8>, pos: int) -> u8 {
    byte_at(b, pos + 1) & 7
}

/// Low displacement byte, zero when the mode has none.
pub open spec fn disp_lo(b: Seq<u8>, pos: int) -> u8 {
    if disp_len(mode_of(b, pos), rm_of(b, pos)) >= 1 {
        byte_at(b, pos + 2)
    } else {
        0
    }
}

/// High displacement byte, zero when the mode has no 16-bit displacement.
pub open spec fn disp_hi(b: Seq<u8>, pos: int) -> u8 {
    if disp_len(mode_of(b, pos), rm_of(b, pos)) == 2 {
        byte_at(b, pos + 3)
    } else {
        0
    }
}

/// The register/memory operand that the mode/reg/rm byte at `pos + 1` selects.
pub open spec fn rm_operand(b: Seq<u8>, pos: int, w: bool) -> InstructionOperand {
    let mode = mode_of(b, pos);
    let rm = rm_of(b, pos);
    if mode == REGISTER {
        register_operand(rm, w)
    } else {
        with_width(eac_operand(rm, mode, disp_lo(b, pos), disp_hi(b, pos)), w)
    }
}

/// Text of that operand.
pub open spec fn rm_text(b: Seq<u8>, pos: int, w: bool) -> Seq<char> {
    let mode = mode_of(b, pos);
    let rm = rm_of(b, pos);
    if mode == REGISTER {
        register_name(rm, w)
    } else {
        address_text(
            eac_base(rm, mode),
            eac_index(rm),
            eac_displacement(rm, mode, disp_lo(b, pos), disp_hi(b, pos)),
        )
    }
}

/// Move immediate to register: `1011 w reg`, then one or two data bytes.
pub open spec fn mov_immediate_reg_form(b: Seq<u8>, pos: int) -> Form {
    let b0 = byte_at(b, pos);
    let w = b0 & 8 != 0;
    let reg = b0 & 7;
    let data = if w {
        le_word(byte_at(b, pos + 1), byte_at(b, pos + 2))
    } else {
        byte_at(b, pos + 1) as u16
    };
    Form {
        op_code: OpCode::Mov,
        dest: Some(register_operand(reg, w)),
        src: Some(literal_operand(data, None)),
        length: if w {
            3
        } else {
            2
        },
        text: binary_text(OpCode::Mov, register_name(reg, w), decimal(data as nat)),
    }
}

/// Register/memory to/from register: `op d w`, `mode reg rm`, displacement.
pub open spec fn reg_mem_reg_form(op: OpCode, b: Seq<u8>, pos: int) -> Form {
    let b0 = byte_at(b, pos);
    let d = b0 & 2 != 0;
    let w = b0 & 1 != 0;
    let reg = (byte_at(b, pos + 1) >> 3) & 7;
    let reg_op = register_operand(reg, w);
    let reg_text = register_name(reg, w);
    Form {
        op_code: op,
        dest: Some(
            if d {
                reg_op
            } else {
                rm_operand(b, pos, w)
            },
        ),
        src: Some(
            if d {
                rm_operand(b, pos, w)
            } else {
                reg_op
            },
        ),
        length: 2 + disp_len(mode_of(b, pos), rm_of(b, pos)),
        text: if d {
            binary_text(op, reg_text, rm_text(b, pos, w))
        } else {
            binary_text(op, rm_text(b, pos, w), reg_text)
        },
    }
}

/// `word ` or `byte `.
pub open spec fn size_text(w: bool) -> Seq<char> {
    if w {
        "word "@
    } else {
        "byte "@
    }
}

/// The operation of an immediate to register/memory form.
pub open spec fn immediate_op(b: Seq<u8>, pos: int) -> OpCode {
    if byte_at(b, pos) >> 1 == op_code::MOV_IMMEDIATE_REG_MEM {
        OpCode::Mov
    } else {
        subcode_op((byte_at(b, pos + 1) >> 3) & 7)
    }
}

/// Immediate to register/memory: `100000 s w` (arithmetic) or `1100011 w`
/// (move), `mode sub rm`, displacement, then one data byte, or two when `w`
/// is set and the sign-extend bit `s` (bit 1 of the opcode byte, in either
/// form) is not. The data byte is kept as it
/// is, without sign extension.
pub open spec fn immediate_reg_mem_form(b: Seq<u8>, pos: int) -> Option<Form> {
    let b0 = byte_at(b, pos);
    let op = immediate_op(b, pos);
    let s = b0 & 2 != 0;
    let w = b0 & 1 != 0;
    let dl = disp_len(mode_of(b, pos), rm_of(b, pos));
    let wide = w && !s;
    let data_lo = byte_at(b, pos + 2 + dl);
    let data = if wide {
        le_word(data_lo, byte_at(b, pos + 3 + dl))
    } else {
        data_lo as u16
    };
    if op == OpCode::Invalid {
        None
    } else {
        Some(
            Form {
                op_code: op,
                dest: Some(rm_operand(b, pos, w)),
                src: Some(literal_operand(data, Some(w))),
                length: 2 + dl + if wide {
                    2nat
                } else {
                    1nat
                },
                text: binary_text(op, rm_text(b, pos, w), size_text(w) + decimal(data as nat)),
            },
        )
    }
}

/// Memory/immediate with accumulator: `op w`, then one address byte, or
/// two when `w` is set. The memory side is a direct address.
pub open spec fn mem_acc_form(op: OpCode, b: Seq<u8>, pos: int, to_memory: bool) -> Form {
    let w = byte_at(b, pos) & 1 != 0;
    let lo = byte_at(b, pos + 1);
    let hi = if w {
        byte_at(b, pos + 2)
    } else {
        0
    };
    let acc = register_operand(AX, true);
    let mem = with_width(eac_operand(DIRECT_ADDRESS, MEM_0_BIT, lo, hi), w);
    let mem_text = address_text(None, None, Some(le_word(lo, hi)));
    Form {
        op_code: op,
        dest: Some(
            if to_memory {
                mem
            } else {
                acc
            },
        ),
        src: Some(
            if to_memory {
                acc
            } else {
                mem
            },
        ),
        length: if w {
            3
        } else {
            2
        },
        text: if to_memory {
            binary_text(op, mem_text, word::name(AX))
        } else {
            binary_text(op, word::name(AX), mem_text)
        },
    }
}

/// Conditional jump or loop: opcode, then a signed 8-bit displacement,
/// stored sign-extended as the destination operand.
pub open spec fn jump_form(op: OpCode, b: Seq<u8>, pos: int) -> Form {
    let disp = byte_at(b, pos + 1);
    Form {
        op_code: op,
        dest: Some(literal_operand(sign_extend(disp), None)),
        src: None,
        length: 2,
        text: unary_text(op, "$"@ + signed_decimal(signed_byte(disp))),
    }
}

/// The form that the opcode at `pos` selects, trying four, six, seven and
/// then eight leading bits; the byte stream is not yet checked to be long
/// enough.
pub open spec fn opcode_form(b: Seq<u8>, pos: int) -> Option<Form> {
    let b0 = byte_at(b, pos);
    if b0 >> 4 == op_code::MOV_IMMEDIATE_REG {
        Some(mov_immediate_reg_form(b, pos))
    } else if b0 >> 2 == op_code::MOV_REG_MEM_REG {
        Some(reg_mem_reg_form(OpCode::Mov, b, pos))
    } else if b0 >> 2 == op_code::ADD_REG_MEM_REG {
        Some(reg_mem_reg_form(OpCode::Add, b, pos))
    } else if b0 >> 2 == op_code::SUB_REG_MEM_REG {
        Some(reg_mem_reg_form(OpCode::Sub, b, pos))
    } else if b0 >> 2 == op_code::CMP_REG_MEM_REG {
        Some(reg_mem_reg_form(OpCode::Cmp, b, pos))
    } else if b0 >> 2 == op_code::IMMEDIATE_REG_MEM {
        immediate_reg_mem_form(b, pos)
    } else if b0 >> 1 == op_code::MOV_IMMEDIATE_REG_MEM {
        immediate_reg_mem_form(b, pos)
    } else if b0 >> 1 == op_code::MOV_MEM_ACC {
        Some(mem_acc_form(OpCode::Mov, b, pos, false))
    } else if b0 >> 1 == op_code::MOV_ACC_MEM {
        Some(mem_acc_form(OpCode::Mov, b, pos, true))
    } else if b0 >> 1 == op_code::ADD_IMMEDIATE_ACC {
        Some(mem_acc_form(OpCode::Add, b, pos, false))
    } else if b0 >> 1 == op_code::SUB_IMMEDIATE_ACC {
        Some(mem_acc_form(OpCode::Sub, b, pos, false))
    } else if b0 >> 1 == op_code::CMP_IMMEDIATE_ACC {
        Some(mem_acc_form(OpCode::Cmp, b, pos, false))
    } else {
        match jump_op(b0) {
            Some(op) => Some(jump_form(op, b, pos)),
            None => None,
        }
    }
}

/// The instruction decoded at `pos`: `None` when no opcode matches or the
/// byte stream ends inside the instruction.
pub open spec fn decode_form(b: Seq<u8>, pos: int) -> Option<Form> {
    match opcode_form(b, pos) {
        Some(f) => if 0 <= pos && pos + f.length <= b.len() {
            Some(f)
        } else {
            None
        },
        None => None,
    }
}

/// Whether `r`, the result of a form decoder at `start`, holds `f`: its
/// length, its text line, and the instruction with its text and no timing.
pub open spec fn decoded_as(r: (usize, String, Instruction), f: Form, start: int) -> bool {
    &&& r.0 == f.length
    &&& r.1@ == f.text + "\n"@
    &&& r.2.op_code == f.op_code
    &&& r.2.dest_operand == f.dest
    &&& r.2.src_operand == f.src
    &&& r.2.decoded_string is Some
    &&& r.2.decoded_string.unwrap()@ == f.text
    &&& r.2.start_byte == start
    &&& r.2.length == f.length
    &&& r.2.time_estimation is None
}

/// The byte `k` places after `current`, or zero past the end.
fn byte_after(bytes: &[u8], current: usize, k: usize) -> (r: u8)
    requires
        current < bytes@.len(),
    ensures
        r == byte_at(bytes@, current + k),
{
    if k < bytes.len() - current {
        bytes[current + k]
    } else {
        0
    }
}

/// Pushes `OP dest, src` and a line break to `output`; returns the text
/// without the line break.
pub fn output_fmt_op_dest_source(
    output: &mut String,
    op_str: &str,
    destination_str: &str,
    source_str: &str,
) -> (r: String)
    ensures
        r@ == op_str@ + " "@ + destination_str@ + ", "@ + source_str@,
        final(output)@ == old(output)@ + r@ + "\n"@,
{
    let mut string = String::new();
    string.append(op_str);
    string.append(" ");
    string.append(destination_str);
    string.append(", ");
    string.append(source_str);
    output.append(string.as_str());
    output.append("\n");
    assert(string@ =~= op_str@ + " "@ + destination_str@ + ", "@ + source_str@);
    string
}

/// Pushes `OP dest` and a line break to `output`; returns the text without
/// the line break.
pub fn output_fmt_op_dest(output: &mut String, op_str: &str, destination_str: &str) -> (r: String)
    ensures
        r@ == op_str@ + " "@ + destination_str@,
        final(output)@ == old(output)@ + r@ + "\n"@,
{
    let mut string = String::new();
    string.append(op_str);
    string.append(" ");
    string.append(destination_str);
    output.append(string.as_str());
    output.append("\n");
    assert(string@ =~= op_str@ + " "@ + destination_str@);
    string
}

/// Decodes the register/memory operand that the mode/reg/rm byte at
/// `current + 1` selects: the number of displacement bytes, its text, and
/// the operand.
fn decode_rm(bytes: &[u8], current: usize, w: bool) -> (r: (usize, String, InstructionOperand))
    requires
        current < bytes@.len(),
    ensures
        r.0 == disp_len(mode_of(bytes@, current as int), rm_of(bytes@, current as int)),
        r.1@ == rm_text(bytes@, current as int, w),
        r.2 == rm_operand(bytes@, current as int, w),
{
    let b1 = byte_after(bytes, current, 1);
    let mode = b1 >> 6;
    let rm = b1 & 7;
    assert(b1 & 7 < 8) by (bit_vector);
    if mode == REGISTER {
        let (s, o) = get_register_string_and_operand(rm, w).unwrap();
        (0, s, o)
    } else {
        let dl: usize = if mode == MEM_8_BIT {
            1
        } else if mode == MEM_16_BIT || (mode == MEM_0_BIT && rm == DIRECT_ADDRESS) {
            2
        } else {
            0
        };
        let lo = if dl >= 1 {
            byte_after(bytes, current, 2)
        } else {
            0
        };
        let hi = if dl == 2 {
            byte_after(bytes, current, 3)
        } else {
            0
        };
        let (s, mut o) = get_eac_string_and_operand(rm, mode, lo, hi).unwrap();
        o.register_word = Some(w);
        (dl, s, o)
    }
}

/// Decodes a move of an immediate to a register.
fn decode_mov_immediate_reg(bytes: &[u8], current: usize) -> (r: (usize, String, Instruction))
    requires
        current < bytes@.len(),
    ensures
        decoded_as(r, mov_immediate_reg_form(bytes@, current as int), current as int),
{
    let mut output = String::new();
    let op_str = op_code::get_str(OpCode::Mov);
    let b0 = byte_after(bytes, current, 0);
    let w = b0 & 8 != 0;
    let reg = b0 & 7;
    let (reg_str, reg_operand) = get_register_string_and_operand(reg, w).unwrap();
    let lo = byte_after(bytes, current, 1);
    let data: u16 = if w {
        lo as u16 + byte_after(bytes, current, 2) as u16 * 256
    } else {
        lo as u16
    };
    let mut data_str = String::new();
    push_decimal(&mut data_str, data as u64);
    let decoded = output_fmt_op_dest_source(
        &mut output,
        op_str,
        reg_str.as_str(),
        data_str.as_str(),
    );
    let mut src_operand = InstructionOperand::new(OperandType::LITERAL);
    src_operand.literal = Some(data);
    let length: usize = if w {
        3
    } else {
        2
    };
    let instruction = Instruction::new(
        OpCode::Mov,
        Some(reg_operand),
        Some(src_operand),
        Some(decoded),
        current,
        length,
        None,
    );
    assert(output@ =~= mov_immediate_reg_form(bytes@, current as int).text + "\n"@);
    (length, output, instruction)
}

/// Decodes a move, add, subtract or compare between a register and a
/// register or memory operand.
fn decode_reg_mem_reg(op: OpCode, bytes: &[u8], current: usize) -> (r: (usize, String, Instruction))
    requires
        current < bytes@.len(),
    ensures
        decoded_as(r, reg_mem_reg_form(op, bytes@, current as int), current as int),
{
    let mut output = String::new();
    let op_str = op_code::get_str(op);
    let b0 = byte_after(bytes, current, 0);
    let direction = b0 & 2 != 0;
    let word = b0 & 1 != 0;
    let b1 = byte_after(bytes, current, 1);
    let reg = (b1 >> 3) & 7;
    let (reg_str, reg_operand) = get_register_string_and_operand(reg, word).unwrap();
    let (dl, rm_str, rm_operand) = decode_rm(bytes, current, word);
    let length: usize = 2 + dl;
    let instruction = if direction {
        let decoded = output_fmt_op_dest_source(
            &mut output,
            op_str,
            reg_str.as_str(),
            rm_str.as_str(),
        );
        Instruction::new(
            op,
            Some(reg_operand),
            Some(rm_operand),
            Some(decoded),
            current,
            length,
            None,
        )
    } else {
        let decoded = output_fmt_op_dest_source(
            &mut output,
            op_str,
            rm_str.as_str(),
            reg_str.as_str(),
        );
        Instruction::new(
            op,
            Some(rm_operand),
            Some(reg_operand),
            Some(decoded),
            current,
            length,
            None,
        )
    };
    assert(output@ =~= reg_mem_reg_form(op, bytes@, current as int).text + "\n"@);
    (length, output, instruction)
}

/// Decodes a move, add, subtract or compare of an immediate to a register
/// or memory operand. The length is zero for a sub-opcode that names no
/// operation.
fn decode_immediate_reg_mem(bytes: &[u8], current: usize) -> (r: (usize, String, Instruction))
    requires
        current < bytes@.len(),
    ensures
        match immediate_reg_mem_form(bytes@, current as int) {
            Some(f) => decoded_as(r, f, current as int),
            None => r.0 == 0 && r.2 == sentinel(OpCode::Invalid),
        },
{
    let b0 = byte_after(bytes, current, 0);
    let b1 = byte_after(bytes, current, 1);
    let op = if b0 >> 1 == op_code::MOV_IMMEDIATE_REG_MEM {
        OpCode::Mov
    } else {
        op_code::get_op_code((b1 >> 3) & 7)
    };
    if op == OpCode::Invalid {
        return (0, String::new(), Instruction::invalid());
    }
    let mut output = String::new();
    let op_str = op_code::get_str(op);
    let sign_bit = b0 & 2 != 0;
    let word = b0 & 1 != 0;
    let (dl, rm_str, rm_operand) = decode_rm(bytes, current, word);
    let wide = word && !sign_bit;
    let data_lo = byte_after(bytes, current, 2 + dl);
    let data: u16 = if wide {
        data_lo as u16 + byte_after(bytes, current, 3 + dl) as u16 * 256
    } else {
        data_lo as u16
    };
    let mut data_string = if word {
        String::from_str("word ")
    } else {
        String::from_str("byte ")
    };
    push_decimal(&mut data_string, data as u64);
    let decoded = output_fmt_op_dest_source(
        &mut output,
        op_str,
        rm_str.as_str(),
        data_string.as_str(),
    );
    let mut src_operand = InstructionOperand::new(OperandType::LITERAL);
    src_operand.literal = Some(data);
    src_operand.register_word = Some(word);
    let length: usize = 2 + dl + if wide {
        2
    } else {
        1
    };
    let instruction = Instruction::new(
        op,
        Some(rm_operand),
        Some(src_operand),
        Some(decoded),
        current,
        length,
        None,
    );
    assert(output@ =~= immediate_reg_mem_form(bytes@, current as int).unwrap().text + "\n"@);
    (length, output, instruction)
}

/// Decodes a move between memory and the accumulator, or an add, subtract
/// or compare of the accumulator with a direct address. `dir_acc_mem` is
/// set for the move from the accumulator to memory.
fn decode_mem_acc(op: OpCode, bytes: &[u8], current: usize, dir_acc_mem: bool) -> (r: (
    usize,
    String,
    Instruction,
))
    requires
        current < bytes@.len(),
    ensures
        decoded_as(r, mem_acc_form(op, bytes@, current as int, dir_acc_mem), current as int),
{
    let mut output = String::new();
    let op_str = op_code::get_str(op);
    let b0 = byte_after(bytes, current, 0);
    let word = b0 & 1 != 0;
    let reg_string = word::get_str(AX);
    let addr_lo = byte_after(bytes, current, 1);
    let addr_hi = if word {
        byte_after(bytes, current, 2)
    } else {
        0
    };
    let (address_string, mut mem_operand) = get_eac_string_and_operand(
        DIRECT_ADDRESS,
        MEM_0_BIT,
        addr_lo,
        addr_hi,
    ).unwrap();
    mem_operand.register_word = Some(word);
    let mut acc_operand = InstructionOperand::new(OperandType::REGISTER);
    acc_operand.register = Some(AX);
    acc_operand.register_word = Some(true);
    let length: usize = if word {
        3
    } else {
        2
    };
    let instruction = if dir_acc_mem {
        let decoded = output_fmt_op_dest_source(
            &mut output,
            op_str,
            address_string.as_str(),
            reg_string.as_str(),
        );
        Instruction::new(
            op,
            Some(mem_operand),
            Some(acc_operand),
            Some(decoded),
            current,
            length,
            None,
        )
    } else {
        let decoded = output_fmt_op_dest_source(
            &mut output,
            op_str,
            reg_string.as_str(),
            address_string.as_str(),
        );
        Instruction::new(
            op,
            Some(acc_operand),
            Some(mem_operand),
            Some(decoded),
            current,
            length,
            None,
        )
    };
    assert(output@ =~= mem_acc_form(op, bytes@, current as int, dir_acc_mem).text + "\n"@);
    (length, output, instruction)
}

/// Decodes a conditional jump or loop with an 8-bit signed displacement.
fn decode_ip_inc_8(op: OpCode, bytes: &[u8], current: usize) -> (r: (usize, String, Instruction))
    requires
        current < bytes@.len(),
    ensures
        decoded_as(r, jump_form(op, bytes@, current as int), current as int),
{
    let mut output = String::new();
    let op_str = op_code::get_str(op);
    let disp = byte_after(bytes, current, 1);
    let increment: i8 = if disp < 128 {
        disp as i8
    } else {
        (disp as i16 - 256) as i8
    };
    let stored: u16 = if disp < 128 {
        disp as u16
    } else {
        disp as u16 + 0xff00
    };
    let mut increment_string = String::from_str("$");
    push_signed_decimal(&mut increment_string, increment);
    proof {
        reveal_strlit("$");
    }
    let decoded = output_fmt_op_dest(&mut output, op_str, increment_string.as_str());
    let mut dest_operand = InstructionOperand::new(OperandType::LITERAL);
    dest_operand.literal = Some(stored);
    let instruction = Instruction::new(
        op,
        Some(dest_operand),
        None,
        Some(decoded),
        current,
        2,
        None,
    );
    assert(output@ =~= jump_form(op, bytes@, current as int).text + "\n"@);
    (2, output, instruction)
}

/// Decodes the instruction that starts at `current`. The length is zero
/// when no opcode matches there or the bytes end inside the instruction.
pub fn decode_at(bytes: &[u8], current: usize) -> (r: (usize, String, Instruction))
    requires
        current < bytes@.len(),
    ensures
        match decode_form(bytes@, current as int) {
            Some(f) => decoded_as(r, f, current as int),
            None => r.0 == 0 && r.2 == sentinel(OpCode::Invalid),
        },
{
    let b0 = byte_after(bytes, current, 0);
    let r = if b0 >> 4 == op_code::MOV_IMMEDIATE_REG {
        decode_mov_immediate_reg(bytes, current)
    } else if b0 >> 2 == op_code::MOV_REG_MEM_REG {
        decode_reg_mem_reg(OpCode::Mov, bytes, current)
    } else if b0 >> 2 == op_code::ADD_REG_MEM_REG {
        decode_reg_mem_reg(OpCode::Add, bytes, current)
    } else if b0 >> 2 == op_code::SUB_REG_MEM_REG {
        decode_reg_mem_reg(OpCode::Sub, bytes, current)
    } else if b0 >> 2 == op_code::CMP_REG_MEM_REG {
        decode_reg_mem_reg(OpCode::Cmp, bytes, current)
    } else if b0 >> 2 == op_code::IMMEDIATE_REG_MEM {
        decode_immediate_reg_mem(bytes, current)
    } else if b0 >> 1 == op_code::MOV_IMMEDIATE_REG_MEM {
        decode_immediate_reg_mem(bytes, current)
    } else if b0 >> 1 == op_code::MOV_MEM_ACC {
        decode_mem_acc(OpCode::Mov, bytes, current, false)
    } else if b0 >> 1 == op_code::MOV_ACC_MEM {
        decode_mem_acc(OpCode::Mov, bytes, current, true)
    } else if b0 >> 1 == op_code::ADD_IMMEDIATE_ACC {
        decode_mem_acc(OpCode::Add, bytes, current, false)
    } else if b0 >> 1 == op_code::SUB_IMMEDIATE_ACC {
        decode_mem_acc(OpCode::Sub, bytes, current, false)
    } else if b0 >> 1 == op_code::CMP_IMMEDIATE_ACC {
        decode_mem_acc(OpCode::Cmp, bytes, current, false)
    } else {
        match op_code::get_jump_op_code(b0) {
            Some(op) => decode_ip_inc_8(op, bytes, current),
            None => (0, String::new(), Instruction::invalid()),
        }
    };
    if r.0 == 0 || r.0 > bytes.len() - current {
        (0, String::new(), Instruction::invalid())
    } else {
        r
    }
}

/// The cycle estimate recorded for an instruction, when one exists.
pub open spec fn timing_of(
    op: OpCode,
    dest: Option<InstructionOperand>,
    src: Option<InstructionOperand>,
) -> Option<InstructionTime> {
    match (dest, src) {
        (Some(d), Some(s)) => match estimate(op, d, s) {
            Ok((base, ea)) => Some(InstructionTime { cycles_base: base as usize, cycles_ea: ea as usize }),
            Err(_) => None,
        },
        _ => None,
    }
}

/// Both operands, where present, are a combination the timing table takes.
pub open spec fn timeable(
    op: OpCode,
    dest: Option<InstructionOperand>,
    src: Option<InstructionOperand>,
) -> bool {
    match (dest, src) {
        (Some(d), Some(s)) => timing_operands(op, d, s),
        _ => true,
    }
}

/// Every decoded instruction has operands that the timing table takes.
proof fn lemma_decoded_timeable(b: Seq<u8>, pos: int)
    requires
        decode_form(b, pos) is Some,
    ensures
        timeable(
            decode_form(b, pos).unwrap().op_code,
            decode_form(b, pos).unwrap().dest,
            decode_form(b, pos).unwrap().src,
        ),
{
}

/// Offsets at which decoding, started at `pos`, finds an instruction.
pub open spec fn starts_from(b: Seq<u8>, pos: int) -> Set<int>
    decreases b.len() - pos,
{
    if 0 <= pos < b.len() {
        match decode_form(b, pos) {
            Some(f) => if f.length > 0 {
                starts_from(b, pos + f.length).insert(pos)
            } else {
                Set::empty()
            },
            None => Set::empty(),
        }
    } else {
        Set::empty()
    }
}

/// Offset at which decoding, started at `pos`, stops: the end of the
/// bytes, or the first offset where no instruction can be decoded.
pub open spec fn stop_from(b: Seq<u8>, pos: int) -> int
    decreases b.len() - pos,
{
    if 0 <= pos < b.len() {
        match decode_form(b, pos) {
            Some(f) => if f.length > 0 {
                stop_from(b, pos + f.length)
            } else {
                pos
            },
            None => pos,
        }
    } else {
        pos
    }
}

/// Listing of the instructions decoded from `pos` on, one per line.
pub open spec fn listing_from(b: Seq<u8>, pos: int) -> Seq<char>
    decreases b.len() - pos,
{
    if 0 <= pos < b.len() {
        match decode_form(b, pos) {
            Some(f) => if f.length > 0 {
                f.text + "\n"@ + listing_from(b, pos + f.length)
            } else {
                Seq::empty()
            },
            None => Seq::empty(),
        }
    } else {
        Seq::empty()
    }
}

/// Whether `i` is the instruction decoded at `start`, with the cycle
/// estimate when `timed` is set.
pub open spec fn decoded_instruction(b: Seq<u8>, start: int, i: Instruction, timed: bool) -> bool {
    match decode_form(b, start) {
        Some(f) => {
            &&& i.op_code == f.op_code
            &&& i.dest_operand == f.dest
            &&& i.src_operand == f.src
            &&& i.decoded_string is Some
            &&& i.decoded_string.unwrap()@ == f.text
            &&& i.start_byte == start
            &&& i.length == f.length
            &&& i.time_estimation == if timed {
                timing_of(f.op_code, f.dest, f.src)
            } else {
                None
            }
        },
        None => false,
    }
}

/// Whether `p` is the program decoded from `b`: its recorded instructions
/// are exactly those that decoding from the start finds.
pub open spec fn decodes_to(p: Program, b: Seq<u8>, timed: bool) -> bool {
    &&& p.wf()
    &&& p.len_spec() == b.len()
    &&& forall|k: usize| #[trigger]
        p.instruction_map().contains_key(k) <==> starts_from(b, 0).contains(k as int)
    &&& forall|k: usize| #[trigger]
        p.instruction_map().contains_key(k) ==> decoded_instruction(
            b,
            k as int,
            p.instruction_map()[k],
            timed,
        )
}

/// Header line of a listing.
pub open spec fn listing_header() -> Seq<char> {
    "bits 16\n\n"@
}

/// The result of decoding a byte buffer: the program, its listing, and the
/// offset at which decoding stopped on bytes that match no instruction.
pub struct Disassembly {
    pub program: Program,
    pub listing: String,
    pub error_at: Option<usize>,
}

/// The cycle estimate of a decoded instruction, when one exists.
fn estimate_instruction(instruction: &Instruction) -> (r: Option<InstructionTime>)
    requires
        timeable(instruction.op_code, instruction.dest_operand, instruction.src_operand),
    ensures
        r == timing_of(instruction.op_code, instruction.dest_operand, instruction.src_operand),
{
    match (instruction.dest_operand, instruction.src_operand) {
        (Some(d), Some(s)) => match InstructionTime::new_from_estimation(instruction.op_code, &d, &s) {
            Ok(t) => Some(t),
            Err(_) => None,
        },
        _ => None,
    }
}

/// Decodes `bytes` from the start until the end or the first offset where
/// no instruction can be decoded. With `estimate_cycles`, each instruction
/// carries its cycle estimate where the timing table has one.
pub fn decode(bytes: &[u8], estimate_cycles: bool) -> (r: Disassembly)
    ensures
        decodes_to(r.program, bytes@, estimate_cycles),
        r.listing@ == listing_header() + listing_from(bytes@, 0),
        r.error_at == if stop_from(bytes@, 0) < bytes@.len() {
            Some(stop_from(bytes@, 0) as usize)
        } else {
            None::<usize>
        },
{
    let ghost b = bytes@;
    let mut program = Program::new(bytes.len());
    let mut output = String::from_str("bits 16\n\n");
    let mut curr: usize = 0;
    let mut error_at: Option<usize> = None;
    while error_at.is_none() && curr < bytes.len()
        invariant
            curr <= b.len(),
            b == bytes@,
            program.wf(),
            program.len_spec() == b.len(),
            forall|k: usize| #[trigger]
                program.instruction_map().contains_key(k) ==> {
                    &&& starts_from(b, 0).contains(k as int)
                    &&& k + program.instruction_map()[k].length <= curr
                    &&& decoded_instruction(b, k as int, program.instruction_map()[k], estimate_cycles)
                },
            forall|k: int| #[trigger]
                starts_from(b, 0).contains(k) ==> (0 <= k < curr && program.instruction_map().contains_key(
                    k as usize,
                )) || starts_from(b, curr as int).contains(k),
            forall|k: int| #[trigger]
                starts_from(b, curr as int).contains(k) ==> starts_from(b, 0).contains(k),
            stop_from(b, curr as int) == stop_from(b, 0),
            output@ + listing_from(b, curr as int) == listing_header() + listing_from(b, 0),
            match error_at {
                Some(e) => e == curr && curr < b.len() && decode_form(b, curr as int) is None,
                None => true,
            },
        decreases b.len() - curr + if error_at is None { 1int } else { 0int },
    {
        let (length, text, mut instruction) = decode_at(bytes, curr);
        if length == 0 {
            error_at = Some(curr);
        } else {
            let ghost f = decode_form(b, curr as int).unwrap();
            let ghost next = curr + length;
            if estimate_cycles {
                proof {
                    lemma_decoded_timeable(b, curr as int);
                }
                instruction.time_estimation = estimate_instruction(&instruction);
            }
            output.append(text.as_str());
            assert forall|k: usize| #[trigger]
                program.instruction_map().contains_key(k) implies ends_before_at(
                program.instruction_map()[k],
                curr as int,
            ) by {}
            program.insert_instruction(instruction);
            proof {
                assert(starts_from(b, curr as int) == starts_from(b, next).insert(curr as int));
                assert(starts_from(b, curr as int).contains(curr as int));
                assert(starts_from(b, 0).contains(curr as int));
                assert(decoded_instruction(
                    b,
                    curr as int,
                    program.instruction_map()[curr],
                    estimate_cycles,
                ));
                assert forall|k: int| #[trigger]
                    starts_from(b, next).contains(k) implies starts_from(b, 0).contains(k) by {
                    assert(starts_from(b, curr as int).contains(k));
                }
                assert forall|k: int| #[trigger]
                    starts_from(b, 0).contains(k) implies (0 <= k < next
                    && program.instruction_map().contains_key(k as usize)) || starts_from(
                    b,
                    next,
                ).contains(k) by {
                    if starts_from(b, curr as int).contains(k) && k != curr {
                        assert(starts_from(b, next).contains(k));
                    }
                }
                assert(listing_from(b, curr as int) == f.text + "\n"@ + listing_from(b, next));
                assert(output@ + listing_from(b, next) =~= listing_header() + listing_from(b, 0));
            }
            curr = curr + length;
        }
    }
    proof {
        assert forall|k: usize| #[trigger]
            starts_from(b, 0).contains(k as int) implies program.instruction_map().contains_key(k) by {
            if starts_from(b, curr as int).contains(k as int) {
                assert(false);
            }
        }
        assert(output@ =~= listing_header() + listing_from(b, 0));
    }
    Disassembly { program, listing: output, error_at }
}

/// Instruction `a` ends at or before offset `pos`.
pub open spec fn ends_before_at(a: Instruction, pos: int) -> bool {
    a.start_byte + a.length <= pos
}

/// Value of a 16-bit word read as a two's complement signed number.
pub open spec fn signed_word(v: u16) -> int {
    if v < 0x8000 {
        v as int
    } else {
        v - 0x10000
    }
}

/// Canonical text of an operand, from its fields alone.
pub open spec fn operand_text(o: InstructionOperand) -> Seq<char> {
    match o.operand_type {
        OperandType::REGISTER => register_name(o.register.unwrap(), o.register_word.unwrap()),
        OperandType::EAC => address_text(o.eac_reg_0, o.eac_reg_1, o.eac_displacement),
        OperandType::LITERAL => match o.register_word {
            Some(w) => size_text(w) + decimal(o.literal.unwrap() as nat),
            None => decimal(o.literal.unwrap() as nat),
        },
    }
}

/// Canonical text of an instruction, from its operation and operands
/// alone: `OP dest, src`, or `OP $+d` for a relative jump.
pub open spec fn render(
    op: OpCode,
    dest: Option<InstructionOperand>,
    src: Option<InstructionOperand>,
) -> Seq<char> {
    match (dest, src) {
        (Some(d), Some(s)) => binary_text(op, operand_text(d), operand_text(s)),
        (Some(d), None) => unary_text(op, "$"@ + signed_decimal(signed_word(d.literal.unwrap()))),
        _ => mnemonic(op),
    }
}

/// The text of a register/memory operand is its canonical rendering.
proof fn lemma_rm_text(b: Seq<u8>, pos: int, w: bool)
    ensures
        operand_text(rm_operand(b, pos, w)) == rm_text(b, pos, w),
{
}

/// Decoding is total on what it accepts and its text is canonical: for
/// every offset where an instruction decodes, rendering the decoded
/// operation and operands gives back exactly the decoder's text.
pub proof fn lemma_render_round_trip(b: Seq<u8>, pos: int)
    requires
        decode_form(b, pos) is Some,
    ensures
        render(
            decode_form(b, pos).unwrap().op_code,
            decode_form(b, pos).unwrap().dest,
            decode_form(b, pos).unwrap().src,
        ) == decode_form(b, pos).unwrap().text,
{
    let b0 = byte_at(b, pos);
    let b1 = byte_at(b, pos + 1);
    lemma_rm_text(b, pos, b0 & 1 != 0);
    assert(signed_word(sign_extend(b1)) == signed_byte(b1));
}

} // verus!
