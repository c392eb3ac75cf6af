//! Numbers in names and messages.

use vstd::prelude::*;
use vstd::string::{StrSliceExecFns, StringExecFns};

verus! {

/// The character of a hexadecimal digit, in lower case.
pub open spec fn digit_char(digit: nat) -> char
    recommends
        digit < 16,
{
    "0123456789abcdef"@[digit as int]
}

/// A number in decimal, without leading zeros.
pub open spec fn decimal(number: nat) -> Seq<char>
    decreases number,
{
    if number < 10 {
        seq![digit_char(number)]
    } else {
        decimal(number / 10).push(digit_char(number % 10))
    }
}

/// A byte in hexadecimal, always two digits.
pub open spec fn hex_byte(byte: u8) -> Seq<char> {
    seq![digit_char(byte as nat / 16), digit_char(byte as nat % 16)]
}

/// The string of one hexadecimal digit.
fn digit_str(digit: u8) -> (text: &'static str)
    requires
        digit < 16,
    ensures
        text@ == seq![digit_char(digit as nat)],
{
    let digits: &'static str = "0123456789abcdef";
    proof {
        reveal_strlit("0123456789abcdef");
    }
    let text = digits.substring_char(digit as usize, digit as usize + 1);
    assert(text@ =~= seq![digit_char(digit as nat)]);
    text
}

/// Appends a number in decimal.
pub fn push_decimal(text: &mut String, number: u8)
    ensures
        final(text)@ == old(text)@ + decimal(number as nat),
    decreases number,
{
    let ghost before = text@;
    if number >= 10 {
        push_decimal(text, number / 10);
    }
    text.append(digit_str(number % 10));
    assert(text@ =~= before + decimal(number as nat));
}

/// Appends a byte as two hexadecimal digits.
pub fn push_hex_byte(text: &mut String, byte: u8)
    ensures
        final(text)@ == old(text)@ + hex_byte(byte),
{
    let ghost before = text@;
    text.append(digit_str(byte / 16));
    text.append(digit_str(byte % 16));
    assert(text@ =~= before + hex_byte(byte));
}

} // verus!
