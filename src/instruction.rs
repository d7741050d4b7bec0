use vstd::prelude::*;
use vstd::string::*;

use crate::op_code::OpCode;
use crate::register::word::{AX, BP, BX, DI, SI};
use crate::text::{decimal, push_decimal};

verus! {

/// Kind of an instruction operand.
#[allow(non_camel_case_types)]
#[derive(Clone, Copy, Debug, PartialEq, Eq, Structural)]
pub enum OperandType {
    /// A general register.
    REGISTER,
    /// A memory location given by an effective address calculation.
    EAC,
    /// An immediate value.
    LITERAL,
}

/// One operand of a decoded instruction.
///
/// - `REGISTER`: `register` holds the 3-bit register code and
///   `register_word` whether it is a word (16-bit) register.
/// - `EAC`: `eac_reg_0` is the base register, `eac_reg_1` the index
///   register, `eac_displacement` the constant displacement; any of them
///   may be absent. `register_word` holds the width of the memory access
///   when the decoder knows it.
/// - `LITERAL`: `literal` holds the value. `register_word` is `Some(width)`
///   when the encoding gives the immediate an explicit size (it is then
///   rendered as `word 5` or `byte 5`), `None` otherwise.
///   Data immediates are stored as read, never sign-extended: a byte
///   immediate holds 0 to 255. The one exception is the 8-bit displacement
///   of a conditional jump or loop, which is stored sign-extended to 16 bits
///   (-2 as 0xFFFE) so that adding it to the instruction pointer modulo 2^16
///   applies the signed displacement.
#[derive(Clone, Copy, Debug, PartialEq, Eq, Structural)]
pub struct InstructionOperand {
    pub operand_type: OperandType,
    pub register: Option<u8>,
    pub register_word: Option<bool>,
    pub eac_reg_0: Option<u8>,
    pub eac_reg_1: Option<u8>,
    pub eac_displacement: Option<u16>,
    pub literal: Option<u16>,
}

/// An operand of kind `operand_type` with every other field absent.
pub open spec fn empty_operand(operand_type: OperandType) -> InstructionOperand {
    InstructionOperand {
        operand_type,
        register: None,
        register_word: None,
        eac_reg_0: None,
        eac_reg_1: None,
        eac_displacement: None,
        literal: None,
    }
}

/// The register operand for register code `reg`.
pub open spec fn register_operand(reg: u8, word: bool) -> InstructionOperand {
    InstructionOperand {
        register: Some(reg),
        register_word: Some(word),
        ..empty_operand(OperandType::REGISTER)
    }
}

/// The immediate operand holding `value`, with an explicit size or none.
pub open spec fn literal_operand(value: u16, size: Option<bool>) -> InstructionOperand {
    InstructionOperand {
        literal: Some(value),
        register_word: size,
        ..empty_operand(OperandType::LITERAL)
    }
}

impl InstructionOperand {
    /// An operand of kind `operand_type` with every other field absent.
    pub fn new(operand_type: OperandType) -> (r: Self)
        ensures
            r == empty_operand(operand_type),
    {
        Self {
            operand_type,
            register: None,
            register_word: None,
            eac_reg_0: None,
            eac_reg_1: None,
            eac_displacement: None,
            literal: None,
        }
    }
}

/// Estimated cost of an instruction, in cycles: a base cost and the cost of
/// its effective address calculations.
#[derive(Clone, Copy, Debug, PartialEq, Eq, Structural)]
pub struct InstructionTime {
    pub cycles_base: usize,
    pub cycles_ea: usize,
}

/// Why no cycle estimate exists for an instruction.
#[derive(Clone, Copy, Debug, PartialEq, Eq, Structural)]
pub enum TimingError {
    /// The operation is a sentinel, not an instruction.
    Sentinel,
    /// The timing table has no entry for this operation.
    NotImplemented,
}

/// A memory operand with both a base and an index register pairs BX or BP
/// with SI or DI; every other operand qualifies as it is.
pub open spec fn valid_pairing(operand: InstructionOperand) -> bool {
    operand.operand_type == OperandType::EAC && operand.eac_reg_0 is Some
        && operand.eac_reg_1 is Some ==> {
        &&& (operand.eac_reg_0 == Some(BX) || operand.eac_reg_0 == Some(BP))
        &&& (operand.eac_reg_1 == Some(SI) || operand.eac_reg_1 == Some(DI))
    }
}

/// The operands are a combination that the encodings produce: valid
/// register pairings and, for a move, add or subtract, neither an immediate
/// destination nor two memory operands.
pub open spec fn timing_operands(op_code: OpCode, dest: InstructionOperand, src: InstructionOperand) -> bool {
    &&& valid_pairing(dest)
    &&& valid_pairing(src)
    &&& (op_code == OpCode::Mov || op_code == OpCode::Add || op_code == OpCode::Sub) ==> {
        &&& dest.operand_type != OperandType::LITERAL
        &&& !(dest.operand_type == OperandType::EAC && src.operand_type == OperandType::EAC)
    }
}

/// Cycles for the effective address calculation of one operand. A
/// displacement counts whenever it is present, zero included.
pub open spec fn operand_ea_cycles(operand: InstructionOperand) -> nat {
    match operand.operand_type {
        OperandType::EAC => {
            let disp = operand.eac_displacement is Some;
            let base = operand.eac_reg_0 is Some;
            let index = operand.eac_reg_1 is Some;
            let fast_pair = (operand.eac_reg_0 == Some(BP) && operand.eac_reg_1 == Some(DI)) || (
            operand.eac_reg_0 == Some(BX) && operand.eac_reg_1 == Some(SI));
            if base && index {
                if fast_pair {
                    if disp { 11 } else { 7 }
                } else {
                    if disp { 12 } else { 8 }
                }
            } else if base || index {
                if disp { 9 } else { 5 }
            } else {
                if disp { 6 } else { 0 }
            }
        },
        _ => 0,
    }
}

/// Cycles for the effective address calculations of both operands.
pub open spec fn instruction_ea_cycles(dest: InstructionOperand, src: InstructionOperand) -> nat {
    operand_ea_cycles(dest) + operand_ea_cycles(src)
}

/// A base cost plus the effective address cost of the operands.
pub open spec fn with_ea(base: nat, dest: InstructionOperand, src: InstructionOperand) -> Result<
    (nat, nat),
    TimingError,
> {
    Ok((base, instruction_ea_cycles(dest, src)))
}

/// The cycle estimate of an operation on two operands, as (base, ea).
pub open spec fn estimate(op_code: OpCode, dest: InstructionOperand, src: InstructionOperand) -> Result<
    (nat, nat),
    TimingError,
> {
    let d = dest.operand_type;
    let s = src.operand_type;
    match op_code {
        OpCode::Invalid | OpCode::InvalidAddress | OpCode::EndOfProgram => Err(
            TimingError::Sentinel,
        ),
        OpCode::Add | OpCode::Sub => {
            if d == OperandType::REGISTER && s == OperandType::REGISTER {
                Ok((3nat, 0nat))
            } else if d == OperandType::REGISTER && s == OperandType::EAC {
                with_ea(9, dest, src)
            } else if d == OperandType::EAC && s == OperandType::REGISTER {
                with_ea(16, dest, src)
            } else if d == OperandType::EAC {
                with_ea(17, dest, src)
            } else {
                Ok((4nat, 0nat))
            }
        },
        OpCode::Mov => {
            if d == OperandType::EAC && s == OperandType::REGISTER && src.register == Some(AX) {
                Ok((10nat, 0nat))
            } else if d == OperandType::REGISTER && s == OperandType::EAC && dest.register == Some(
                AX,
            ) {
                Ok((10nat, 0nat))
            } else if d == OperandType::REGISTER && s == OperandType::REGISTER {
                Ok((2nat, 0nat))
            } else if d == OperandType::REGISTER && s == OperandType::EAC {
                with_ea(8, dest, src)
            } else if d == OperandType::EAC && s == OperandType::REGISTER {
                with_ea(9, dest, src)
            } else if d == OperandType::REGISTER {
                Ok((4nat, 0nat))
            } else {
                with_ea(10, dest, src)
            }
        },
        _ => Err(TimingError::NotImplemented),
    }
}

/// Text of a cycle estimate: `13 (8 + 5ea)`, or the base cost alone when
/// there is no effective address cost.
pub open spec fn time_text(base: nat, ea: nat) -> Seq<char> {
    if ea > 0 {
        decimal(base + ea) + " ("@ + decimal(base) + " + "@ + decimal(ea) + "ea)"@
    } else {
        decimal(base)
    }
}

impl InstructionTime {
    /// An estimate from a base cost and an effective address cost.
    pub fn new(cycles_base: usize, cycles_ea: usize) -> (r: Self)
        ensures
            r.cycles_base == cycles_base,
            r.cycles_ea == cycles_ea,
    {
        Self { cycles_base, cycles_ea }
    }

    /// Total cost: base plus effective address cost.
    pub fn total_time(&self) -> (r: usize)
        requires
            self.cycles_base + self.cycles_ea <= usize::MAX,
        ensures
            r == self.cycles_base + self.cycles_ea,
    {
        self.cycles_base + self.cycles_ea
    }

    /// Estimates the cost of `op_code` on the two operands. The operands
    /// must be a combination that the encodings produce.
    pub fn new_from_estimation(
        op_code: OpCode,
        dest_operand: &InstructionOperand,
        src_operand: &InstructionOperand,
    ) -> (r: Result<Self, TimingError>)
        requires
            timing_operands(op_code, *dest_operand, *src_operand),
        ensures
            match estimate(op_code, *dest_operand, *src_operand) {
                Ok((base, ea)) => r == Ok::<Self, TimingError>(
                    Self { cycles_base: base as usize, cycles_ea: ea as usize },
                ),
                Err(e) => r == Err::<Self, TimingError>(e),
            },
    {
        let d = dest_operand.operand_type;
        let s = src_operand.operand_type;
        match op_code {
            OpCode::Invalid | OpCode::InvalidAddress | OpCode::EndOfProgram => {
                Err(TimingError::Sentinel)
            },
            OpCode::Add | OpCode::Sub => {
                if d == OperandType::REGISTER && s == OperandType::REGISTER {
                    Ok(Self::new(3, 0))
                } else if d == OperandType::REGISTER && s == OperandType::EAC {
                    Ok(Self::new(9, Self::get_cycles_for_ea(dest_operand, src_operand)))
                } else if d == OperandType::EAC && s == OperandType::REGISTER {
                    Ok(Self::new(16, Self::get_cycles_for_ea(dest_operand, src_operand)))
                } else if d == OperandType::EAC {
                    Ok(Self::new(17, Self::get_cycles_for_ea(dest_operand, src_operand)))
                } else {
                    Ok(Self::new(4, 0))
                }
            },
            OpCode::Mov => {
                if d == OperandType::EAC && s == OperandType::REGISTER && src_operand.register
                    == Some(AX) {
                    Ok(Self::new(10, 0))
                } else if d == OperandType::REGISTER && s == OperandType::EAC
                    && dest_operand.register == Some(AX) {
                    Ok(Self::new(10, 0))
                } else if d == OperandType::REGISTER && s == OperandType::REGISTER {
                    Ok(Self::new(2, 0))
                } else if d == OperandType::REGISTER && s == OperandType::EAC {
                    Ok(Self::new(8, Self::get_cycles_for_ea(dest_operand, src_operand)))
                } else if d == OperandType::EAC && s == OperandType::REGISTER {
                    Ok(Self::new(9, Self::get_cycles_for_ea(dest_operand, src_operand)))
                } else if d == OperandType::REGISTER {
                    Ok(Self::new(4, 0))
                } else {
                    Ok(Self::new(10, Self::get_cycles_for_ea(dest_operand, src_operand)))
                }
            },
            _ => Err(TimingError::NotImplemented),
        }
    }

    /// Effective address cost of an instruction: the sum over its operands.
    pub fn get_cycles_for_ea(dest_operand: &InstructionOperand, src_operand: &InstructionOperand) -> (r:
        usize)
        requires
            valid_pairing(*dest_operand),
            valid_pairing(*src_operand),
        ensures
            r == instruction_ea_cycles(*dest_operand, *src_operand),
            r <= 24,
    {
        Self::get_operand_ea_cycles(dest_operand) + Self::get_operand_ea_cycles(src_operand)
    }

    /// Effective address cost of one operand. A base and index register
    /// pairing other than BX or BP with SI or DI is ruled out.
    pub fn get_operand_ea_cycles(operand: &InstructionOperand) -> (r: usize)
        requires
            valid_pairing(*operand),
        ensures
            r == operand_ea_cycles(*operand),
            r <= 12,
    {
        match operand.operand_type {
            OperandType::EAC => {
                let has_displacement = operand.eac_displacement.is_some();
                let has_base_reg = operand.eac_reg_0.is_some();
                let has_index_reg = operand.eac_reg_1.is_some();
                if has_base_reg && has_index_reg {
                    let fast_pair = (operand.eac_reg_0 == Some(BP) && operand.eac_reg_1 == Some(DI))
                        || (operand.eac_reg_0 == Some(BX) && operand.eac_reg_1 == Some(SI));
                    if fast_pair {
                        if has_displacement { 11 } else { 7 }
                    } else {
                        if has_displacement { 12 } else { 8 }
                    }
                } else if has_base_reg || has_index_reg {
                    if has_displacement { 9 } else { 5 }
                } else {
                    if has_displacement { 6 } else { 0 }
                }
            },
            _ => 0,
        }
    }

    /// Text of the estimate: `13 (8 + 5ea)`, or the base cost alone when
    /// there is no effective address cost.
    pub fn get_string(&self) -> (r: String)
        requires
            self.cycles_base + self.cycles_ea <= u64::MAX,
        ensures
            r@ == time_text(self.cycles_base as nat, self.cycles_ea as nat),
    {
        proof {
            reveal_strlit(" (");
            reveal_strlit(" + ");
            reveal_strlit("ea)");
        }
        let mut s = String::new();
        if self.cycles_ea > 0 {
            push_decimal(&mut s, (self.cycles_base as u64) + (self.cycles_ea as u64));
            s.append(" (");
            push_decimal(&mut s, self.cycles_base as u64);
            s.append(" + ");
            push_decimal(&mut s, self.cycles_ea as u64);
            s.append("ea)");
        } else {
            push_decimal(&mut s, self.cycles_base as u64);
        }
        assert(s@ =~= time_text(self.cycles_base as nat, self.cycles_ea as nat));
        s
    }
}

/// A decoded instruction, or one of the sentinels (`Invalid`,
/// `InvalidAddress`, `EndOfProgram`), which have no operands.
#[derive(Clone, Debug)]
pub struct Instruction {
    pub op_code: OpCode,
    pub dest_operand: Option<InstructionOperand>,
    pub src_operand: Option<InstructionOperand>,
    /// Rendered assembly text.
    pub decoded_string: Option<String>,
    /// Offset of the first byte of the instruction in the program.
    pub start_byte: usize,
    /// Encoded length in bytes.
    pub length: usize,
    pub time_estimation: Option<InstructionTime>,
}

/// The sentinel instruction `op`, with nothing else set.
pub open spec fn sentinel(op: OpCode) -> Instruction {
    Instruction {
        op_code: op,
        dest_operand: None,
        src_operand: None,
        decoded_string: None,
        start_byte: 0,
        length: 0,
        time_estimation: None,
    }
}

impl Instruction {
    /// An instruction from all of its fields.
    pub fn new(
        op_code: OpCode,
        dest_operand: Option<InstructionOperand>,
        src_operand: Option<InstructionOperand>,
        decoded_string: Option<String>,
        start_byte: usize,
        length: usize,
        time_estimation: Option<InstructionTime>,
    ) -> (r: Self)
        ensures
            r == (Instruction {
                op_code,
                dest_operand,
                src_operand,
                decoded_string,
                start_byte,
                length,
                time_estimation,
            }),
    {
        Self {
            op_code,
            dest_operand,
            src_operand,
            decoded_string,
            start_byte,
            length,
            time_estimation,
        }
    }

    /// The sentinel for an undecodable byte pattern.
    pub fn invalid() -> (r: Self)
        ensures
            r == sentinel(OpCode::Invalid),
    {
        Self::sentinel(OpCode::Invalid)
    }

    /// The sentinel for a lookup at an offset that starts no instruction.
    pub fn invalid_address() -> (r: Self)
        ensures
            r == sentinel(OpCode::InvalidAddress),
    {
        Self::sentinel(OpCode::InvalidAddress)
    }

    /// The sentinel for a lookup at or past the end of the program.
    pub fn end_of_program() -> (r: Self)
        ensures
            r == sentinel(OpCode::EndOfProgram),
    {
        Self::sentinel(OpCode::EndOfProgram)
    }

    /// The sentinel `op_code`, with nothing else set.
    fn sentinel(op_code: OpCode) -> (r: Self)
        ensures
            r == sentinel(op_code),
    {
        Self {
            op_code,
            dest_operand: None,
            src_operand: None,
            decoded_string: None,
            start_byte: 0,
            length: 0,
            time_estimation: None,
        }
    }
}

} // verus!
