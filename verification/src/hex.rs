//! Upper-case hexadecimal text of bytes and words.

use vstd::prelude::*;
use crate::bits::{lemma_byte_fields, lemma_word_fields};

verus! {

/// The hexadecimal digit of a value below 16.
pub open spec fn hex_digit(nibble: u8) -> char {
    match nibble {
        0 => '0',
        1 => '1',
        2 => '2',
        3 => '3',
        4 => '4',
        5 => '5',
        6 => '6',
        7 => '7',
        8 => '8',
        9 => '9',
        10 => 'A',
        11 => 'B',
        12 => 'C',
        13 => 'D',
        14 => 'E',
        _ => 'F',
    }
}

/// The two hexadecimal digits of a byte, high digit first.
pub open spec fn hex_byte(value: u8) -> Seq<char> {
    seq![hex_digit(value / 16), hex_digit(value % 16)]
}

/// The four hexadecimal digits of a word, high digit first.
pub open spec fn hex_word(value: u16) -> Seq<char> {
    hex_byte((value / 256) as u8) + hex_byte((value % 256) as u8)
}

/// `String::push` of std appends one character to the string.
pub assume_specification[ String::push ](text: &mut String, ch: char)
    ensures
        final(text)@ == old(text)@.push(ch),
;

/// The hexadecimal digit of a value below 16.
fn digit(nibble: u8) -> (ch: char)
    ensures
        ch == hex_digit(nibble),
{
    match nibble {
        0 => '0',
        1 => '1',
        2 => '2',
        3 => '3',
        4 => '4',
        5 => '5',
        6 => '6',
        7 => '7',
        8 => '8',
        9 => '9',
        10 => 'A',
        11 => 'B',
        12 => 'C',
        13 => 'D',
        14 => 'E',
        _ => 'F',
    }
}

/// Appends the two hexadecimal digits of `value` to `text`.
pub fn push_hex_byte(text: &mut String, value: u8)
    ensures
        final(text)@ == old(text)@ + hex_byte(value),
{
    proof {
        lemma_byte_fields(value);
    }
    text.push(digit(value >> 4));
    text.push(digit(value & 0x0F));
    assert(text@ =~= old(text)@ + hex_byte(value));
}

/// Appends the four hexadecimal digits of `value` to `text`.
pub fn push_hex_word(text: &mut String, value: u16)
    ensures
        final(text)@ == old(text)@ + hex_word(value),
{
    proof {
        lemma_word_fields(value, 0, 0);
    }
    push_hex_byte(text, (value >> 8) as u8);
    push_hex_byte(text, value as u8);
    assert(text@ =~= old(text)@ + hex_word(value));
}

} // verus!
