use vstd::prelude::*;

verus! {

/// Operation of a decoded instruction. The last three variants are
/// sentinels: an undecodable byte pattern, a lookup at an offset that does
/// not start an instruction, and a lookup at or past the end of the program.
#[derive(Clone, Copy, Debug, PartialEq, Eq, Structural)]
pub enum OpCode {
    Mov,
    Add,
    Sub,
    Cmp,
    Jnz,
    Je,
    Jl,
    Jle,
    Jb,
    Jbe,
    Jp,
    Jo,
    Js,
    Jnl,
    Jg,
    Jnb,
    Ja,
    Jnp,
    Jno,
    Jns,
    Loop,
    Loopz,
    Loopnz,
    Jcxz,
    Invalid,
    InvalidAddress,
    EndOfProgram,
}

/// Leading four bits: move immediate to register.
pub const MOV_IMMEDIATE_REG: u8 = 0b1011;

/// Leading six bits: move register/memory to/from register.
pub const MOV_REG_MEM_REG: u8 = 0b100010;
/// Leading six bits: add register/memory with register.
pub const ADD_REG_MEM_REG: u8 = 0b000000;
/// Leading six bits: subtract register/memory and register.
pub const SUB_REG_MEM_REG: u8 = 0b001010;
/// Leading six bits: compare register/memory and register.
pub const CMP_REG_MEM_REG: u8 = 0b001110;
/// Leading six bits: add/subtract/compare immediate to register/memory.
pub const IMMEDIATE_REG_MEM: u8 = 0b100000;

/// Leading seven bits: move immediate to register/memory.
pub const MOV_IMMEDIATE_REG_MEM: u8 = 0b1100011;
/// Leading seven bits: move memory to accumulator.
pub const MOV_MEM_ACC: u8 = 0b1010000;
/// Leading seven bits: move accumulator to memory.
pub const MOV_ACC_MEM: u8 = 0b1010001;
/// Leading seven bits: add immediate to accumulator.
pub const ADD_IMMEDIATE_ACC: u8 = 0b0000010;
/// Leading seven bits: subtract immediate from accumulator.
pub const SUB_IMMEDIATE_ACC: u8 = 0b0010110;
/// Leading seven bits: compare immediate with accumulator.
pub const CMP_IMMEDIATE_ACC: u8 = 0b0011110;

/// Arithmetic sub-opcode of the immediate to register/memory form: add.
pub const SUBCODE_ADD: u8 = 0b000;
/// Arithmetic sub-opcode of the immediate to register/memory form: subtract.
pub const SUBCODE_SUB: u8 = 0b101;
/// Arithmetic sub-opcode of the immediate to register/memory form: compare.
pub const SUBCODE_CMP: u8 = 0b111;

/// The operation that an arithmetic sub-opcode selects.
pub open spec fn subcode_op(op_subcode: u8) -> OpCode {
    if op_subcode == SUBCODE_ADD {
        OpCode::Add
    } else if op_subcode == SUBCODE_SUB {
        OpCode::Sub
    } else if op_subcode == SUBCODE_CMP {
        OpCode::Cmp
    } else {
        OpCode::Invalid
    }
}

/// The operation that an arithmetic sub-opcode selects; `Invalid` for the
/// sub-opcodes that have no meaning here.
pub fn get_op_code(op_subcode: u8) -> (r: OpCode)
    ensures
        r == subcode_op(op_subcode),
{
    match op_subcode {
        SUBCODE_ADD => OpCode::Add,
        SUBCODE_SUB => OpCode::Sub,
        SUBCODE_CMP => OpCode::Cmp,
        _ => OpCode::Invalid,
    }
}

/// The conditional jump or loop whose one-byte opcode is `b`, if any.
pub open spec fn jump_op(b: u8) -> Option<OpCode> {
    if b == 0b01110101 {
        Some(OpCode::Jnz)
    } else if b == 0b01110100 {
        Some(OpCode::Je)
    } else if b == 0b01111100 {
        Some(OpCode::Jl)
    } else if b == 0b01111110 {
        Some(OpCode::Jle)
    } else if b == 0b01110010 {
        Some(OpCode::Jb)
    } else if b == 0b01110110 {
        Some(OpCode::Jbe)
    } else if b == 0b01111010 {
        Some(OpCode::Jp)
    } else if b == 0b01110000 {
        Some(OpCode::Jo)
    } else if b == 0b01111000 {
        Some(OpCode::Js)
    } else if b == 0b01111101 {
        Some(OpCode::Jnl)
    } else if b == 0b01111111 {
        Some(OpCode::Jg)
    } else if b == 0b01110011 {
        Some(OpCode::Jnb)
    } else if b == 0b01110111 {
        Some(OpCode::Ja)
    } else if b == 0b01111011 {
        Some(OpCode::Jnp)
    } else if b == 0b01110001 {
        Some(OpCode::Jno)
    } else if b == 0b01111001 {
        Some(OpCode::Jns)
    } else if b == 0b11100010 {
        Some(OpCode::Loop)
    } else if b == 0b11100001 {
        Some(OpCode::Loopz)
    } else if b == 0b11100000 {
        Some(OpCode::Loopnz)
    } else if b == 0b11100011 {
        Some(OpCode::Jcxz)
    } else {
        None
    }
}

/// The conditional jump or loop whose one-byte opcode is `b`, if any.
pub fn get_jump_op_code(b: u8) -> (r: Option<OpCode>)
    ensures
        r == jump_op(b),
{
    match b {
        0b01110101 => Some(OpCode::Jnz),
        0b01110100 => Some(OpCode::Je),
        0b01111100 => Some(OpCode::Jl),
        0b01111110 => Some(OpCode::Jle),
        0b01110010 => Some(OpCode::Jb),
        0b01110110 => Some(OpCode::Jbe),
        0b01111010 => Some(OpCode::Jp),
        0b01110000 => Some(OpCode::Jo),
        0b01111000 => Some(OpCode::Js),
        0b01111101 => Some(OpCode::Jnl),
        0b01111111 => Some(OpCode::Jg),
        0b01110011 => Some(OpCode::Jnb),
        0b01110111 => Some(OpCode::Ja),
        0b01111011 => Some(OpCode::Jnp),
        0b01110001 => Some(OpCode::Jno),
        0b01111001 => Some(OpCode::Jns),
        0b11100010 => Some(OpCode::Loop),
        0b11100001 => Some(OpCode::Loopz),
        0b11100000 => Some(OpCode::Loopnz),
        0b11100011 => Some(OpCode::Jcxz),
        _ => None,
    }
}

/// Mnemonic of an operation.
pub open spec fn mnemonic(op: OpCode) -> Seq<char> {
    match op {
        OpCode::Mov => "MOV"@,
        OpCode::Add => "ADD"@,
        OpCode::Sub => "SUB"@,
        OpCode::Cmp => "CMP"@,
        OpCode::Jnz => "JNZ"@,
        OpCode::Je => "JE"@,
        OpCode::Jl => "JL"@,
        OpCode::Jle => "JLE"@,
        OpCode::Jb => "JB"@,
        OpCode::Jbe => "JBE"@,
        OpCode::Jp => "JP"@,
        OpCode::Jo => "JO"@,
        OpCode::Js => "JS"@,
        OpCode::Jnl => "JNL"@,
        OpCode::Jg => "JG"@,
        OpCode::Jnb => "JNB"@,
        OpCode::Ja => "JA"@,
        OpCode::Jnp => "JNP"@,
        OpCode::Jno => "JNO"@,
        OpCode::Jns => "JNS"@,
        OpCode::Loop => "LOOP"@,
        OpCode::Loopz => "LOOPZ"@,
        OpCode::Loopnz => "LOOPNZ"@,
        OpCode::Jcxz => "JCXZ"@,
        OpCode::Invalid => "Invalid OpCode"@,
        OpCode::InvalidAddress => "Invalid Address"@,
        OpCode::EndOfProgram => "End Of Program"@,
    }
}

/// Returns the mnemonic of `op_code`.
pub fn get_str(op_code: OpCode) -> (r: &'static str)
    ensures
        r@ == mnemonic(op_code),
{
    match op_code {
        OpCode::Mov => "MOV",
        OpCode::Add => "ADD",
        OpCode::Sub => "SUB",
        OpCode::Cmp => "CMP",
        OpCode::Jnz => "JNZ",
        OpCode::Je => "JE",
        OpCode::Jl => "JL",
        OpCode::Jle => "JLE",
        OpCode::Jb => "JB",
        OpCode::Jbe => "JBE",
        OpCode::Jp => "JP",
        OpCode::Jo => "JO",
        OpCode::Js => "JS",
        OpCode::Jnl => "JNL",
        OpCode::Jg => "JG",
        OpCode::Jnb => "JNB",
        OpCode::Ja => "JA",
        OpCode::Jnp => "JNP",
        OpCode::Jno => "JNO",
        OpCode::Jns => "JNS",
        OpCode::Loop => "LOOP",
        OpCode::Loopz => "LOOPZ",
        OpCode::Loopnz => "LOOPNZ",
        OpCode::Jcxz => "JCXZ",
        OpCode::Invalid => "Invalid OpCode",
        OpCode::InvalidAddress => "Invalid Address",
        OpCode::EndOfProgram => "End Of Program",
    }
}

} // verus!
