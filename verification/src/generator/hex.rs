//! Numbers in hexadecimal digits.
use crate::memory::{high_byte, low_byte, Address, ZeroPage};
use vstd::prelude::*;
use vstd::string::*;

verus! {

/// The hexadecimal digit for a number below 16, in upper case.
pub open spec fn hex_digit(value: int) -> char {
    if value == 0 {
        '0'
    } else if value == 1 {
        '1'
    } else if value == 2 {
        '2'
    } else if value == 3 {
        '3'
    } else if value == 4 {
        '4'
    } else if value == 5 {
        '5'
    } else if value == 6 {
        '6'
    } else if value == 7 {
        '7'
    } else if value == 8 {
        '8'
    } else if value == 9 {
        '9'
    } else if value == 10 {
        'A'
    } else if value == 11 {
        'B'
    } else if value == 12 {
        'C'
    } else if value == 13 {
        'D'
    } else if value == 14 {
        'E'
    } else {
        'F'
    }
}

/// A byte as two hexadecimal digits.
pub open spec fn hex_byte(byte: u8) -> Seq<char> {
    seq![hex_digit(byte as int / 16), hex_digit(byte as int % 16)]
}

/// An address as four hexadecimal digits.
pub open spec fn hex_address(address: Address) -> Seq<char> {
    hex_byte(high_byte(address)) + hex_byte(low_byte(address))
}

/// A number in hexadecimal digits, without leading zeros.
pub open spec fn hex_number(value: nat) -> Seq<char>
    decreases value,
{
    if value < 16 {
        seq![hex_digit(value as int)]
    } else {
        hex_number(value / 16).push(hex_digit(value as int % 16))
    }
}

/// The hexadecimal digit for a number below 16.
fn hex_digit_text(value: usize) -> (text: &'static str)
    requires
        value < 16,
    ensures
        text@ == seq![hex_digit(value as int)],
{
    proof {
        reveal_strlit("0");
        reveal_strlit("1");
        reveal_strlit("2");
        reveal_strlit("3");
        reveal_strlit("4");
        reveal_strlit("5");
        reveal_strlit("6");
        reveal_strlit("7");
        reveal_strlit("8");
        reveal_strlit("9");
        reveal_strlit("A");
        reveal_strlit("B");
        reveal_strlit("C");
        reveal_strlit("D");
        reveal_strlit("E");
        reveal_strlit("F");
    }
    let text = match value {
        0 => "0",
        1 => "1",
        2 => "2",
        3 => "3",
        4 => "4",
        5 => "5",
        6 => "6",
        7 => "7",
        8 => "8",
        9 => "9",
        10 => "A",
        11 => "B",
        12 => "C",
        13 => "D",
        14 => "E",
        _ => "F",
    };
    assert(text@ =~= seq![hex_digit(value as int)]);
    text
}

/// Add a byte as two hexadecimal digits to the text.
pub fn add_hex_byte(text: &mut String, byte: u8)
    ensures
        final(text)@ == old(text)@ + hex_byte(byte),
{
    text.append(hex_digit_text((byte / 16) as usize));
    text.append(hex_digit_text((byte % 16) as usize));
    assert(text@ =~= old(text)@ + hex_byte(byte));
}

/// Add an address as four hexadecimal digits to the text.
pub fn add_hex_address(text: &mut String, address: Address)
    ensures
        final(text)@ == old(text)@ + hex_address(address),
{
    add_hex_byte(text, address.high());
    add_hex_byte(text, address.low());
    assert(text@ =~= old(text)@ + hex_address(address));
}

/// Add a number in hexadecimal digits to the text.
pub fn add_hex_number(text: &mut String, value: usize)
    ensures
        final(text)@ == old(text)@ + hex_number(value as nat),
    decreases value,
{
    if value >= 16 {
        add_hex_number(text, value / 16);
    }
    text.append(hex_digit_text(value % 16));
    assert(text@ =~= old(text)@ + hex_number(value as nat));
}

} // verus!
