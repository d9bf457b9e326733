//! Text: lines, and numbers in decimal digits.
use vstd::prelude::*;
use vstd::string::*;

verus! {

/// The lines as one text: a line feed stands between two lines.
pub open spec fn join_lines(lines: Seq<Seq<char>>) -> Seq<char>
    decreases lines.len(),
{
    if lines.len() == 0 {
        Seq::empty()
    } else if lines.len() == 1 {
        lines[0]
    } else {
        join_lines(lines.drop_last()) + "\n"@ + lines.last()
    }
}

/// The lines as mathematical values.
pub open spec fn lines_view(lines: Seq<String>) -> Seq<Seq<char>> {
    lines.map_values(|line: String| line@)
}

/// The lines as one text, see [`join_lines`].
pub fn join(lines: &Vec<String>) -> (text: String)
    ensures
        text@ == join_lines(lines_view(lines@)),
{
    let ghost views = lines_view(lines@);
    let mut text = String::new();
    let mut index: usize = 0;
    while index < lines.len()
        invariant
            index <= lines.len(),
            views == lines_view(lines@),
            text@ == join_lines(views.take(index as int)),
        decreases lines.len() - index,
    {
        if index > 0 {
            text.append("\n");
        }
        text.append(lines[index].as_str());
        proof {
            assert(views.take(index + 1).drop_last() =~= views.take(index as int));
            assert(views.take(index + 1).last() == lines[index as int]@);
            assert(views.take(index + 1)[0] == views[0]);
            assert(text@ =~= join_lines(views.take(index + 1)));
        }
        index += 1;
    }
    assert(views.take(index as int) =~= views);
    text
}

/// Are the two texts the same.
pub fn is_text(text: &String, other: &str) -> (same: bool)
    ensures
        same == (text@ == other@),
{
    *text == other.to_string()
}

/// The decimal digit for a number below 10.
pub open spec fn decimal_digit(value: int) -> char {
    if value == 0 {
        '0'
    } else if value == 1 {
        '1'
    } else if value == 2 {
        '2'
    } else if value == 3 {
        '3'
    } else if value == 4 {
        '4'
    } else if value == 5 {
        '5'
    } else if value == 6 {
        '6'
    } else if value == 7 {
        '7'
    } else if value == 8 {
        '8'
    } else {
        '9'
    }
}

/// The number that a decimal digit stands for. Every other character stands
/// for none.
pub open spec fn digit_value(digit: char) -> Option<int> {
    if digit == '0' {
        Some(0)
    } else if digit == '1' {
        Some(1)
    } else if digit == '2' {
        Some(2)
    } else if digit == '3' {
        Some(3)
    } else if digit == '4' {
        Some(4)
    } else if digit == '5' {
        Some(5)
    } else if digit == '6' {
        Some(6)
    } else if digit == '7' {
        Some(7)
    } else if digit == '8' {
        Some(8)
    } else if digit == '9' {
        Some(9)
    } else {
        None
    }
}

/// A number in decimal digits, without leading zeros.
pub open spec fn decimal(value: nat) -> Seq<char>
    decreases value,
{
    if value < 10 {
        seq![decimal_digit(value as int)]
    } else {
        decimal(value / 10).push(decimal_digit(value as int % 10))
    }
}

/// Is every character of the text a decimal digit.
pub open spec fn is_decimal(digits: Seq<char>) -> bool {
    forall|index: int| 0 <= index < digits.len() ==> digit_value(#[trigger] digits[index]) is Some
}

/// The number that decimal digits stand for.
pub open spec fn decimal_value(digits: Seq<char>) -> int
    decreases digits.len(),
{
    if digits.len() == 0 {
        0
    } else {
        decimal_value(digits.drop_last()) * 10 + match digit_value(digits.last()) {
            Some(value) => value,
            None => 0,
        }
    }
}

/// The digits of a text that stands for a number: the text without the plus
/// sign that may stand in front of them.
pub open spec fn unsigned_digits(text: Seq<char>) -> Seq<char> {
    if text.len() > 0 && text[0] == '+' {
        text.skip(1)
    } else {
        text
    }
}

/// The number below 65536 that a text stands for: the text is one or more
/// decimal digits, with or without a plus sign in front of them. Every other
/// text stands for none.
pub open spec fn parse_u16(text: Seq<char>) -> Option<u16> {
    let digits = unsigned_digits(text);
    if digits.len() > 0 && is_decimal(digits) && decimal_value(digits) <= u16::MAX {
        Some(decimal_value(digits) as u16)
    } else {
        None
    }
}

/// More digits do not make a smaller number.
pub proof fn lemma_decimal_value_grows(digits: Seq<char>, length: int)
    requires
        0 <= length <= digits.len(),
    ensures
        0 <= decimal_value(digits.take(length)) <= decimal_value(digits),
    decreases digits.len() - length,
{
    if length < digits.len() {
        lemma_decimal_value_grows(digits, length + 1);
        assert(digits.take(length + 1).drop_last() =~= digits.take(length));
        lemma_decimal_value_nonnegative(digits.take(length));
    } else {
        assert(digits.take(length) =~= digits);
        lemma_decimal_value_nonnegative(digits);
    }
}

/// Digits stand for a number that is not negative.
pub proof fn lemma_decimal_value_nonnegative(digits: Seq<char>)
    ensures
        0 <= decimal_value(digits),
    decreases digits.len(),
{
    if digits.len() > 0 {
        lemma_decimal_value_nonnegative(digits.drop_last());
    }
}

/// The number that a decimal digit stands for.
fn value_of_digit(digit: char) -> (value: Option<u32>)
    ensures
        match digit_value(digit) {
            Some(expected) => value == Some(expected as u32),
            None => value is None,
        },
{
    if digit == '0' {
        Some(0)
    } else if digit == '1' {
        Some(1)
    } else if digit == '2' {
        Some(2)
    } else if digit == '3' {
        Some(3)
    } else if digit == '4' {
        Some(4)
    } else if digit == '5' {
        Some(5)
    } else if digit == '6' {
        Some(6)
    } else if digit == '7' {
        Some(7)
    } else if digit == '8' {
        Some(8)
    } else if digit == '9' {
        Some(9)
    } else {
        None
    }
}

/// The number below 65536 that the text stands for, see [`parse_u16`].
pub fn parse_number(text: &str) -> (number: Option<u16>)
    ensures
        number == parse_u16(text@),
{
    let length = text.unicode_len();
    let start: usize = if length > 0 && text.get_char(0) == '+' {
        1
    } else {
        0
    };
    let ghost digits = unsigned_digits(text@);
    assert(digits =~= text@.skip(start as int));
    if start == length {
        return None;
    }
    let mut value: u32 = 0;
    let mut index: usize = start;
    while index < length
        invariant
            start <= index <= length,
            length == text@.len(),
            digits == text@.skip(start as int),
            digits == unsigned_digits(text@),
            is_decimal(digits.take(index - start)),
            value == decimal_value(digits.take(index - start)),
            value <= u16::MAX,
        decreases length - index,
    {
        let ghost taken = digits.take(index - start + 1);
        proof {
            assert(taken.drop_last() =~= digits.take(index - start));
            assert(taken.last() == text@[index as int]);
        }
        match value_of_digit(text.get_char(index)) {
            Some(digit) => {
                assert(is_decimal(taken)) by {
                    assert forall|at: int| 0 <= at < taken.len() implies digit_value(
                        #[trigger] taken[at],
                    ) is Some by {
                        if at < taken.len() - 1 {
                            assert(taken[at] == digits.take(index - start)[at]);
                        }
                    }
                }
                value = value * 10 + digit;
                if value > 0xFFFF {
                    proof {
                        lemma_decimal_value_grows(digits, index - start + 1);
                        assert(decimal_value(digits) > u16::MAX);
                    }
                    return None;
                }
            },
            None => {
                assert(digit_value(digits[index - start]) is None);
                assert(!is_decimal(digits));
                return None;
            },
        }
        index += 1;
    }
    assert(digits.take(index - start) =~= digits);
    Some(value as u16)
}

/// The decimal digit for a number below 10.
fn decimal_digit_text(value: u16) -> (text: &'static str)
    requires
        value < 10,
    ensures
        text@ == seq![decimal_digit(value as int)],
{
    proof {
        reveal_strlit("0");
        reveal_strlit("1");
        reveal_strlit("2");
        reveal_strlit("3");
        reveal_strlit("4");
        reveal_strlit("5");
        reveal_strlit("6");
        reveal_strlit("7");
        reveal_strlit("8");
        reveal_strlit("9");
    }
    let text = match value {
        0 => "0",
        1 => "1",
        2 => "2",
        3 => "3",
        4 => "4",
        5 => "5",
        6 => "6",
        7 => "7",
        8 => "8",
        _ => "9",
    };
    assert(text@ =~= seq![decimal_digit(value as int)]);
    text
}

/// Add a number in decimal digits to the text.
pub fn add_decimal(text: &mut String, value: u16)
    ensures
        final(text)@ == old(text)@ + decimal(value as nat),
    decreases value,
{
    if value >= 10 {
        add_decimal(text, value / 10);
    }
    text.append(decimal_digit_text(value % 10));
    assert(text@ =~= old(text)@ + decimal(value as nat));
}

} // verus!
