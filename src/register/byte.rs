use vstd::prelude::*;
use vstd::string::*;

verus! {

pub const AL: u8 = 0b000;
pub const CL: u8 = 0b001;
pub const DL: u8 = 0b010;
pub const BL: u8 = 0b011;
pub const AH: u8 = 0b100;
pub const CH: u8 = 0b101;
pub const DH: u8 = 0b110;
pub const BH: u8 = 0b111;

/// Name of the byte register with code `register`.
pub open spec fn name(register: u8) -> Seq<char> {
    if register == AL {
        "AL"@
    } else if register == CL {
        "CL"@
    } else if register == DL {
        "DL"@
    } else if register == BL {
        "BL"@
    } else if register == AH {
        "AH"@
    } else if register == CH {
        "CH"@
    } else if register == DH {
        "DH"@
    } else if register == BH {
        "BH"@
    } else {
        "INVALID_REGISTER"@
    }
}

/// Name of the byte register with code `register`.
pub fn get_str(register: u8) -> (r: String)
    ensures
        r@ == name(register),
{
    let s = match register {
        AL => "AL",
        CL => "CL",
        DL => "DL",
        BL => "BL",
        AH => "AH",
        CH => "CH",
        DH => "DH",
        BH => "BH",
        _ => "INVALID_REGISTER",
    };
    String::from_str(s)
}

} // verus!
