use vstd::prelude::*;
use vstd::string::*;

verus! {

/// The decimal digit character for `d` (taken modulo ten).
pub open spec fn digit(d: int) -> char {
    let d = d % 10;
    if d == 0 {
        '0'
    } else if d == 1 {
        '1'
    } else if d == 2 {
        '2'
    } else if d == 3 {
        '3'
    } else if d == 4 {
        '4'
    } else if d == 5 {
        '5'
    } else if d == 6 {
        '6'
    } else if d == 7 {
        '7'
    } else if d == 8 {
        '8'
    } else {
        '9'
    }
}

/// Decimal notation of `n`, without leading zeros.
pub open spec fn decimal(n: nat) -> Seq<char>
    decreases n,
{
    if n < 10 {
        seq![digit(n as int)]
    } else {
        decimal(n / 10) + seq![digit((n % 10) as int)]
    }
}

/// Decimal notation of a signed value with an explicit sign: `+5`, `-2`, `+0`.
pub open spec fn signed_decimal(v: int) -> Seq<char> {
    if v < 0 {
        seq!['-'] + decimal((-v) as nat)
    } else {
        seq!['+'] + decimal(v as nat)
    }
}

/// The one-character string of digit `d`.
fn digit_str(d: u64) -> (r: &'static str)
    requires
        d < 10,
    ensures
        r@ == seq![digit(d as int)],
{
    proof {
        reveal_strlit("0");
        reveal_strlit("1");
        reveal_strlit("2");
        reveal_strlit("3");
        reveal_strlit("4");
        reveal_strlit("5");
        reveal_strlit("6");
        reveal_strlit("7");
        reveal_strlit("8");
        reveal_strlit("9");
    }
    match d {
        0 => "0",
        1 => "1",
        2 => "2",
        3 => "3",
        4 => "4",
        5 => "5",
        6 => "6",
        7 => "7",
        8 => "8",
        _ => "9",
    }
}

/// Appends the decimal notation of `n` to `s`.
pub fn push_decimal(s: &mut String, n: u64)
    ensures
        final(s)@ == old(s)@ + decimal(n as nat),
    decreases n,
{
    let ghost start = s@;
    if n >= 10 {
        push_decimal(s, n / 10);
    }
    s.append(digit_str(n % 10));
    assert(s@ =~= start + decimal(n as nat));
}

/// Appends `v` with an explicit sign to `s`.
pub fn push_signed_decimal(s: &mut String, v: i8)
    ensures
        final(s)@ == old(s)@ + signed_decimal(v as int),
{
    let ghost start = s@;
    proof {
        reveal_strlit("-");
        reveal_strlit("+");
    }
    if v < 0 {
        s.append("-");
        let m: u64 = (0i16 - v as i16) as u64;
        push_decimal(s, m);
    } else {
        s.append("+");
        push_decimal(s, v as u64);
    }
    assert(s@ =~= start + signed_decimal(v as int));
}

} // verus!
