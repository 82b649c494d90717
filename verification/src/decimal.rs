use vstd::prelude::*;

verus! {

/// The one-character string for a decimal digit value (out-of-range values
/// are clamped to "9"; callers only apply digits 0 through 9).
pub open spec fn digit_str(d: int) -> Seq<char> {
    if d == 0 {
        "0"@
    } else if d == 1 {
        "1"@
    } else if d == 2 {
        "2"@
    } else if d == 3 {
        "3"@
    } else if d == 4 {
        "4"@
    } else if d == 5 {
        "5"@
    } else if d == 6 {
        "6"@
    } else if d == 7 {
        "7"@
    } else if d == 8 {
        "8"@
    } else {
        "9"@
    }
}

/// The decimal digit string of a nonnegative number, most significant digit first.
pub open spec fn dec_digits(n: int) -> Seq<char>
    decreases n,
{
    if n < 10 {
        digit_str(n)
    } else {
        dec_digits(n / 10) + digit_str(n % 10)
    }
}

/// The decimal rendering of a signed number: a minus sign before the digits
/// when it is negative, exactly as the standard formatter writes an integer.
pub open spec fn dec_int(v: int) -> Seq<char> {
    if v < 0 {
        "-"@ + dec_digits(-v)
    } else {
        dec_digits(v)
    }
}

fn digit_char_str(d: u32) -> (r: &'static str)
    requires
        d < 10,
    ensures
        r@ == digit_str(d as int),
{
    if d == 0 {
        "0"
    } else if d == 1 {
        "1"
    } else if d == 2 {
        "2"
    } else if d == 3 {
        "3"
    } else if d == 4 {
        "4"
    } else if d == 5 {
        "5"
    } else if d == 6 {
        "6"
    } else if d == 7 {
        "7"
    } else if d == 8 {
        "8"
    } else {
        "9"
    }
}

/// Renders a nonnegative number in decimal.
pub fn dec_u32(n: u32) -> (r: String)
    ensures
        r@ == dec_digits(n as int),
    decreases n,
{
    if n < 10 {
        String::from_str(digit_char_str(n))
    } else {
        let mut s = dec_u32(n / 10);
        s.append(digit_char_str(n % 10));
        s
    }
}

/// Renders a signed byte-sized number in decimal, with a leading minus sign
/// when it is negative.
pub fn dec_i8(v: i8) -> (r: String)
    ensures
        r@ == dec_int(v as int),
{
    if v < 0 {
        let m: i32 = -(v as i32);
        let mut s = String::from_str("-");
        let digits = dec_u32(m as u32);
        s.append(digits.as_str());
        s
    } else {
        dec_u32(v as u32)
    }
}

} // verus!
