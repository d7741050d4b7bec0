use vstd::prelude::*;
use vstd::string::*;

use crate::instruction::{empty_operand, InstructionOperand, OperandType};
use crate::register::word::{self, BP, BX, DI, SI};
use crate::text::{decimal, push_decimal};

verus! {

/// Addressing mode: memory, no displacement (but see `DIRECT_ADDRESS`).
pub const MEM_0_BIT: u8 = 0b00;
/// Addressing mode: memory, 8-bit displacement.
pub const MEM_8_BIT: u8 = 0b01;
/// Addressing mode: memory, 16-bit displacement.
pub const MEM_16_BIT: u8 = 0b10;
/// Addressing mode: register to register.
pub const REGISTER: u8 = 0b11;
/// The r/m value that, in mode `MEM_0_BIT`, means a direct 16-bit address.
pub const DIRECT_ADDRESS: u8 = 0b110;

/// Base register selected by an r/m field.
pub open spec fn eac_base(rm: u8, mode: u8) -> Option<u8> {
    if rm == 0 || rm == 1 || rm == 7 {
        Some(BX)
    } else if rm == 2 || rm == 3 {
        Some(BP)
    } else if rm == 4 {
        Some(SI)
    } else if rm == 5 {
        Some(DI)
    } else if rm == 6 && mode != MEM_0_BIT {
        Some(BP)
    } else {
        None
    }
}

/// Index register selected by an r/m field.
pub open spec fn eac_index(rm: u8) -> Option<u8> {
    if rm == 0 || rm == 2 {
        Some(SI)
    } else if rm == 1 || rm == 3 {
        Some(DI)
    } else {
        None
    }
}

/// Little-endian 16-bit value of two bytes.
pub open spec fn le_word(lo: u8, hi: u8) -> u16 {
    (lo + hi * 256) as u16
}

/// Displacement contributed by the mode and the displacement bytes.
pub open spec fn eac_displacement(rm: u8, mode: u8, lo: u8, hi: u8) -> Option<u16> {
    if mode == MEM_0_BIT && rm == DIRECT_ADDRESS {
        Some(le_word(lo, hi))
    } else if mode == MEM_8_BIT {
        Some(lo as u16)
    } else if mode == MEM_16_BIT {
        Some(le_word(lo, hi))
    } else {
        None
    }
}

/// The memory operand that an r/m field, a mode and displacement bytes select.
pub open spec fn eac_operand(rm: u8, mode: u8, lo: u8, hi: u8) -> InstructionOperand {
    InstructionOperand {
        eac_reg_0: eac_base(rm, mode),
        eac_reg_1: eac_index(rm),
        eac_displacement: eac_displacement(rm, mode, lo, hi),
        ..empty_operand(OperandType::EAC)
    }
}

/// Canonical text of an address expression: `[BX + SI + 4]`, `[BP]`, `[1000]`.
pub open spec fn address_text(base: Option<u8>, index: Option<u8>, disp: Option<u16>) -> Seq<char> {
    let base_text = match base {
        Some(b) => word::name(b),
        None => Seq::empty(),
    };
    let index_text = match index {
        Some(i) => " + "@ + word::name(i),
        None => Seq::empty(),
    };
    let disp_text = match disp {
        Some(d) => if base is None && index is None {
            decimal(d as nat)
        } else {
            " + "@ + decimal(d as nat)
        },
        None => Seq::empty(),
    };
    "["@ + base_text + index_text + disp_text + "]"@
}

/// Returns the text and the operand of the memory location that `rm`,
/// `mode` and the displacement bytes select, or `None` for an r/m value
/// wider than three bits.
pub fn get_eac_string_and_operand(rm: u8, mode: u8, displacement_low: u8, displacement_high: u8) -> (r:
    Option<(String, InstructionOperand)>)
    ensures
        rm < 8 <==> r is Some,
        rm < 8 ==> r.unwrap().1 == eac_operand(rm, mode, displacement_low, displacement_high),
        rm < 8 ==> r.unwrap().0@ == address_text(
            eac_base(rm, mode),
            eac_index(rm),
            eac_displacement(rm, mode, displacement_low, displacement_high),
        ),
{
    if rm >= 8 {
        return None;
    }
    let mut operand = InstructionOperand::new(OperandType::EAC);
    let base: Option<u8> = if rm == 0 || rm == 1 || rm == 7 {
        Some(BX)
    } else if rm == 2 || rm == 3 {
        Some(BP)
    } else if rm == 4 {
        Some(SI)
    } else if rm == 5 {
        Some(DI)
    } else if mode != MEM_0_BIT {
        Some(BP)
    } else {
        None
    };
    let index: Option<u8> = if rm == 0 || rm == 2 {
        Some(SI)
    } else if rm == 1 || rm == 3 {
        Some(DI)
    } else {
        None
    };
    let word_disp: u16 = displacement_low as u16 + displacement_high as u16 * 256;
    let disp: Option<u16> = if mode == MEM_0_BIT && rm == DIRECT_ADDRESS {
        Some(word_disp)
    } else if mode == MEM_8_BIT {
        Some(displacement_low as u16)
    } else if mode == MEM_16_BIT {
        Some(word_disp)
    } else {
        None
    };
    operand.eac_reg_0 = base;
    operand.eac_reg_1 = index;
    operand.eac_displacement = disp;
    let text = address_string(base, index, disp);
    Some((text, operand))
}

/// Canonical text of an address expression.
pub fn address_string(base: Option<u8>, index: Option<u8>, disp: Option<u16>) -> (r: String)
    ensures
        r@ == address_text(base, index, disp),
{
    let mut s = String::from_str("[");
    if let Some(b) = base {
        let name = word::get_str(b);
        s.append(name.as_str());
    }
    if let Some(i) = index {
        s.append(" + ");
        let name = word::get_str(i);
        s.append(name.as_str());
    }
    if let Some(d) = disp {
        if base.is_none() && index.is_none() {
            push_decimal(&mut s, d as u64);
        } else {
            s.append(" + ");
            push_decimal(&mut s, d as u64);
        }
    }
    s.append("]");
    assert(s@ =~= address_text(base, index, disp));
    s
}

} // verus!
