use vstd::prelude::*;
use vstd::string::*;

verus! {

pub const AX: u8 = 0b000;
pub const CX: u8 = 0b001;
pub const DX: u8 = 0b010;
pub const BX: u8 = 0b011;
pub const SP: u8 = 0b100;
pub const BP: u8 = 0b101;
pub const SI: u8 = 0b110;
pub const DI: u8 = 0b111;

/// Name of the word register with code `register`.
pub open spec fn name(register: u8) -> Seq<char> {
    if register == AX {
        "AX"@
    } else if register == CX {
        "CX"@
    } else if register == DX {
        "DX"@
    } else if register == BX {
        "BX"@
    } else if register == SP {
        "SP"@
    } else if register == BP {
        "BP"@
    } else if register == SI {
        "SI"@
    } else if register == DI {
        "DI"@
    } else {
        "INVALID_REGISTER"@
    }
}

/// Name of the word register with code `register`.
pub fn get_str(register: u8) -> (r: String)
    ensures
        r@ == name(register),
{
    let s = match register {
        AX => "AX",
        CX => "CX",
        DX => "DX",
        BX => "BX",
        SP => "SP",
        BP => "BP",
        SI => "SI",
        DI => "DI",
        _ => "INVALID_REGISTER",
    };
    String::from_str(s)
}

} // verus!
