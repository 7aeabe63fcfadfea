//! Building text: numbers in decimal, and indentation of what lies below a
//! heading.

use vstd::prelude::*;

verus! {

/// `String::push` of the standard library appends one character to the
/// string, which is all that its documentation says and all that is claimed
/// here.
pub assume_specification[ String::push ](text: &mut String, symbol: char)
    ensures
        final(text)@ == old(text)@.push(symbol),
;

/// The character for a single digit.
pub open spec fn digit(value: nat) -> char {
    if value == 0 {
        '0'
    } else if value == 1 {
        '1'
    } else if value == 2 {
        '2'
    } else if value == 3 {
        '3'
    } else if value == 4 {
        '4'
    } else if value == 5 {
        '5'
    } else if value == 6 {
        '6'
    } else if value == 7 {
        '7'
    } else if value == 8 {
        '8'
    } else {
        '9'
    }
}

/// `number` in decimal, without leading zeros.
pub open spec fn decimal(number: nat) -> Seq<char>
    decreases number,
{
    if number < 10 {
        seq![digit(number)]
    } else {
        decimal(number / 10).push(digit(number % 10))
    }
}

/// `text` with a tab put behind each of its line breaks, so that all lines
/// but the first start one level further in.
pub open spec fn indented(text: Seq<char>) -> Seq<char>
    decreases text.len(),
{
    if text.len() == 0 {
        text
    } else if text.last() == '\n' {
        indented(text.drop_last()).push('\n').push('\t')
    } else {
        indented(text.drop_last()).push(text.last())
    }
}

/// The character for the digit `value`.
fn digit_char(value: u32) -> (symbol: char)
    requires
        value < 10,
    ensures
        symbol == digit(value as nat),
{
    if value == 0 {
        '0'
    } else if value == 1 {
        '1'
    } else if value == 2 {
        '2'
    } else if value == 3 {
        '3'
    } else if value == 4 {
        '4'
    } else if value == 5 {
        '5'
    } else if value == 6 {
        '6'
    } else if value == 7 {
        '7'
    } else if value == 8 {
        '8'
    } else {
        '9'
    }
}

/// Appends `number` in decimal to `text`.
pub fn push_decimal(text: &mut String, number: u32)
    ensures
        final(text)@ == old(text)@ + decimal(number as nat),
    decreases number,
{
    if number >= 10 {
        push_decimal(text, number / 10);
    }
    text.push(digit_char(number % 10));
}

/// Appends `lower` to `text`, indented.
pub fn push_indented(text: &mut String, lower: &str)
    ensures
        final(text)@ == old(text)@ + indented(lower@),
{
    for symbol in it: lower.chars()
        invariant
            it.seq() == lower@,
            text@ == old(text)@ + indented(lower@.take(it.index() as int)),
    {
        proof {
            let seen = lower@.take(it.index() + 1);
            assert(seen.drop_last() == lower@.take(it.index() as int));
            assert(seen.last() == symbol);
        }
        text.push(symbol);
        if symbol == '\n' {
            text.push('\t');
        }
    }
    proof {
        assert(lower@.take(lower@.len() as int) == lower@);
    }
}

} // verus!
