//! Text of the error messages: decimal numbers and the two message layouts.
use super::context::Context;
use super::{E_INDEX_OUT_OF_RANGE, E_INVALID_LENGTH};
use vstd::prelude::*;
use vstd::string::*;

verus! {

/// The character of a decimal digit.
pub open spec fn digit_char(digit: nat) -> char {
    if digit == 0 {
        '0'
    } else if digit == 1 {
        '1'
    } else if digit == 2 {
        '2'
    } else if digit == 3 {
        '3'
    } else if digit == 4 {
        '4'
    } else if digit == 5 {
        '5'
    } else if digit == 6 {
        '6'
    } else if digit == 7 {
        '7'
    } else if digit == 8 {
        '8'
    } else {
        '9'
    }
}

/// The decimal digits of `value`, without leading zeros; `0` is written "0".
pub open spec fn decimal_digits(value: nat) -> Seq<char>
    decreases value,
{
    if value < 10 {
        seq![digit_char(value)]
    } else {
        decimal_digits(value / 10).push(digit_char(value % 10))
    }
}

/// `value` in decimal, with a minus sign in front where it is negative.
pub open spec fn decimal(value: int) -> Seq<char> {
    if value < 0 {
        seq!['-'] + decimal_digits((-value) as nat)
    } else {
        decimal_digits(value as nat)
    }
}

/// The message of a construction that was rejected, before the context is added.
pub open spec fn invalid_length_text(byte_length: int, byte_offset: int, buffer_length: int) -> Seq<
    char,
> {
    "DataView::new(): "@ + E_INVALID_LENGTH@ + " [ byte_length: "@ + decimal(byte_length)
        + " byte_offset: "@ + decimal(byte_offset) + " buffer.byte_length: "@ + decimal(
        buffer_length,
    ) + " ]"@
}

/// The message of an access that was rejected, before the context is added.
pub open spec fn index_out_of_range_text(
    method: Seq<char>,
    length: int,
    byte_offset: int,
    byte_length: int,
) -> Seq<char> {
    method + ": "@ + E_INDEX_OUT_OF_RANGE@ + " [ length: "@ + decimal(length) + " byte_offset: "@
        + decimal(byte_offset) + " byte_length: "@ + decimal(byte_length) + " ]"@
}

/// The text of one decimal digit.
fn digit_text(digit: u8) -> (text: &'static str)
    requires
        digit < 10,
    ensures
        text@ == seq![digit_char(digit as nat)],
{
    proof {
        reveal_strlit("0");
        reveal_strlit("1");
        reveal_strlit("2");
        reveal_strlit("3");
        reveal_strlit("4");
        reveal_strlit("5");
        reveal_strlit("6");
        reveal_strlit("7");
        reveal_strlit("8");
        reveal_strlit("9");
    }
    let text: &'static str = if digit == 0 {
        "0"
    } else if digit == 1 {
        "1"
    } else if digit == 2 {
        "2"
    } else if digit == 3 {
        "3"
    } else if digit == 4 {
        "4"
    } else if digit == 5 {
        "5"
    } else if digit == 6 {
        "6"
    } else if digit == 7 {
        "7"
    } else if digit == 8 {
        "8"
    } else {
        "9"
    };
    assert(text@ =~= seq![digit_char(digit as nat)]);
    text
}

/// Appends the decimal digits of `value` to `text`.
fn append_digits(text: &mut String, value: u128)
    ensures
        final(text)@ == old(text)@ + decimal_digits(value as nat),
    decreases value,
{
    if value >= 10 {
        append_digits(text, value / 10);
    }
    let digit: u8 = (value % 10) as u8;
    text.append(digit_text(digit));
    assert(text@ =~= old(text)@ + decimal_digits(value as nat));
}

/// Appends `value` in decimal to `text`.
pub(crate) fn append_decimal(text: &mut String, value: i128)
    ensures
        final(text)@ == old(text)@ + decimal(value as int),
{
    if value < 0 {
        let magnitude: u128 = (-(value + 1)) as u128 + 1;
        proof {
            reveal_strlit("-");
        }
        text.append("-");
        append_digits(text, magnitude);
        assert(text@ =~= old(text)@ + decimal(value as int));
    } else {
        append_digits(text, value as u128);
    }
}

/// The message for a data view that cannot be made: the fault's name, the
/// length and start offset that were asked for and the length of the buffer,
/// followed by the context's trail.
pub fn throw_invalid_length(
    context: &Context,
    byte_length: usize,
    byte_offset: usize,
    buffer_length: usize,
) -> (message: String)
    ensures
        message@ == super::context::with_context(
            context@,
            invalid_length_text(byte_length as int, byte_offset as int, buffer_length as int),
        ),
{
    let mut text: String = String::from_str("DataView::new(): ");
    text.append(E_INVALID_LENGTH);
    text.append(" [ byte_length: ");
    append_decimal(&mut text, byte_length as i128);
    text.append(" byte_offset: ");
    append_decimal(&mut text, byte_offset as i128);
    text.append(" buffer.byte_length: ");
    append_decimal(&mut text, buffer_length as i128);
    text.append(" ]");
    assert(text@ =~= invalid_length_text(
        byte_length as int,
        byte_offset as int,
        buffer_length as int,
    ));
    context.print_with_context(text.as_str())
}

/// The message for an access that does not fit: the method's name, the fault's
/// name, the number of bytes that were asked for, the view's position and its
/// declared length, followed by the context's trail.
pub fn throw_index_out_of_range(
    context: &Context,
    method: &str,
    length: i128,
    byte_offset: usize,
    byte_length: usize,
) -> (message: String)
    ensures
        message@ == super::context::with_context(
            context@,
            index_out_of_range_text(method@, length as int, byte_offset as int, byte_length as int),
        ),
{
    let mut text: String = String::from_str(method);
    text.append(": ");
    text.append(E_INDEX_OUT_OF_RANGE);
    text.append(" [ length: ");
    append_decimal(&mut text, length);
    text.append(" byte_offset: ");
    append_decimal(&mut text, byte_offset as i128);
    text.append(" byte_length: ");
    append_decimal(&mut text, byte_length as i128);
    text.append(" ]");
    assert(text@ =~= index_out_of_range_text(
        method@,
        length as int,
        byte_offset as int,
        byte_length as int,
    ));
    context.print_with_context(text.as_str())
}

} // verus!
