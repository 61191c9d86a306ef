//! Building text: joining two pieces, and writing a number in decimal.

use vstd::prelude::*;
use vstd::string::StringExecFns;

verus! {

/// `left` followed by `right`, as a new string.
pub fn joined(left: &str, right: &str) -> (text: String)
    ensures
        text@ == left@ + right@,
{
    let mut text = String::from_str(left);
    text.append(right);
    text
}

/// The numeral of one decimal digit.
pub open spec fn spec_digit(digit: nat) -> Seq<char>
    recommends
        digit < 10,
{
    if digit == 0 {
        "0"@
    } else if digit == 1 {
        "1"@
    } else if digit == 2 {
        "2"@
    } else if digit == 3 {
        "3"@
    } else if digit == 4 {
        "4"@
    } else if digit == 5 {
        "5"@
    } else if digit == 6 {
        "6"@
    } else if digit == 7 {
        "7"@
    } else if digit == 8 {
        "8"@
    } else {
        "9"@
    }
}

/// A natural number in decimal, without leading zeros.
pub open spec fn spec_natural(number: nat) -> Seq<char>
    decreases number,
{
    if number < 10 {
        spec_digit(number)
    } else {
        spec_natural(number / 10) + spec_digit(number % 10)
    }
}

/// An integer in decimal: a minus sign where it is negative, then its
/// magnitude.
pub open spec fn spec_decimal(number: int) -> Seq<char> {
    if number < 0 {
        "-"@ + spec_natural((-number) as nat)
    } else {
        spec_natural(number as nat)
    }
}

fn numeral(digit: u32) -> (text: &'static str)
    requires
        digit < 10,
    ensures
        text@ == spec_digit(digit as nat),
{
    match digit {
        0 => "0",
        1 => "1",
        2 => "2",
        3 => "3",
        4 => "4",
        5 => "5",
        6 => "6",
        7 => "7",
        8 => "8",
        _ => "9",
    }
}

fn natural(number: u32) -> (text: String)
    ensures
        text@ == spec_natural(number as nat),
    decreases number,
{
    if number < 10 {
        String::from_str(numeral(number))
    } else {
        let mut text = natural(number / 10);
        text.append(numeral(number % 10));
        text
    }
}

/// Writes `number` in decimal.
pub fn decimal(number: i32) -> (text: String)
    ensures
        text@ == spec_decimal(number as int),
{
    if number < 0 {
        let wide: i64 = number as i64;
        let magnitude: u32 = (-wide) as u32;
        let digits = natural(magnitude);
        joined("-", digits.as_str())
    } else {
        natural(number as u32)
    }
}

} // verus!
