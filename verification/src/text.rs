//! Decimal and percentage text formatting.
//!
//! CPU percentages arrive as integer hundredths of a percent and are printed
//! with one decimal place, rounding half up, so `4237` becomes `42.4%`.

use vstd::prelude::*;

verus! {

/// The decimal digit character for `d`, which must be below ten.
pub open spec fn digit_char(d: nat) -> char {
    if d == 0 {
        '0'
    } else if d == 1 {
        '1'
    } else if d == 2 {
        '2'
    } else if d == 3 {
        '3'
    } else if d == 4 {
        '4'
    } else if d == 5 {
        '5'
    } else if d == 6 {
        '6'
    } else if d == 7 {
        '7'
    } else if d == 8 {
        '8'
    } else {
        '9'
    }
}

/// The usual decimal rendering of `n`, most significant digit first and
/// without leading zeros (except for `n == 0` itself).
pub open spec fn dec_chars(n: nat) -> Seq<char>
    decreases n,
{
    if n < 10 {
        seq![digit_char(n)]
    } else {
        dec_chars(n / 10) + seq![digit_char(n % 10)]
    }
}

/// A percentage given in hundredths of a percent, printed with one decimal
/// place (rounding half up) and a trailing percent sign.
pub open spec fn pct_chars(hundredths: nat) -> Seq<char> {
    let tenths = (hundredths + 5) / 10;
    dec_chars(tenths / 10) + seq!['.', digit_char(tenths % 10), '%']
}

/// The one-character string for the digit `d`.
fn digit_str(d: u32) -> (s: &'static str)
    requires
        d < 10,
    ensures
        s@ == seq![digit_char(d as nat)],
{
    proof {
        reveal_strlit("0");
        reveal_strlit("1");
        reveal_strlit("2");
        reveal_strlit("3");
        reveal_strlit("4");
        reveal_strlit("5");
        reveal_strlit("6");
        reveal_strlit("7");
        reveal_strlit("8");
        reveal_strlit("9");
    }
    match d {
        0 => "0",
        1 => "1",
        2 => "2",
        3 => "3",
        4 => "4",
        5 => "5",
        6 => "6",
        7 => "7",
        8 => "8",
        _ => "9",
    }
}

/// Renders `n` in decimal.
pub fn u64_to_string(n: u64) -> (s: String)
    ensures
        s@ == dec_chars(n as nat),
    decreases n,
{
    if n < 10 {
        String::from_str(digit_str(n as u32))
    } else {
        let mut s = u64_to_string(n / 10);
        s.append(digit_str((n % 10) as u32));
        s
    }
}

/// Renders `n` in decimal.
pub fn u32_to_string(n: u32) -> (s: String)
    ensures
        s@ == dec_chars(n as nat),
{
    u64_to_string(n as u64)
}

/// Renders a percentage given in hundredths of a percent, one decimal place.
pub fn pct_string(hundredths: u32) -> (s: String)
    ensures
        s@ == pct_chars(hundredths as nat),
{
    proof {
        reveal_strlit(".");
        reveal_strlit("%");
    }
    let tenths: u64 = ((hundredths as u64) + 5) / 10;
    let mut s = u64_to_string(tenths / 10);
    s.append(".");
    s.append(digit_str((tenths % 10) as u32));
    s.append("%");
    s
}

} // verus!
