use vstd::prelude::*;

use crate::instruction::{register_operand, InstructionOperand, OperandType};
use crate::register::{byte, word};

verus! {

/// Name of the register with code `reg`, as a word or a byte register.
pub open spec fn register_name(reg: u8, is_word: bool) -> Seq<char> {
    if is_word {
        word::name(reg)
    } else {
        byte::name(reg)
    }
}

/// Name and operand of the register with code `reg_bytes`.
pub fn get_register_string_and_operand(reg_bytes: u8, is_word: bool) -> (r: Option<
    (String, InstructionOperand),
>)
    ensures
        r is Some,
        r.unwrap().0@ == register_name(reg_bytes, is_word),
        r.unwrap().1 == register_operand(reg_bytes, is_word),
{
    let mut operand = InstructionOperand::new(OperandType::REGISTER);
    operand.register = Some(reg_bytes);
    operand.register_word = Some(is_word);
    let reg_string = get_register_string(reg_bytes, is_word);
    Some((reg_string, operand))
}

/// Name of the register with code `reg_bytes`.
pub fn get_register_string(reg_bytes: u8, is_word: bool) -> (r: String)
    ensures
        r@ == register_name(reg_bytes, is_word),
{
    if is_word {
        word::get_str(reg_bytes)
    } else {
        byte::get_str(reg_bytes)
    }
}

} // verus!
