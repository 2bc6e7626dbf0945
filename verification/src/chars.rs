//! Classification of single characters: decimal digits, signs and ASCII case.

use vstd::prelude::*;

use crate::unicode::{
    decimal_value, decimal_value_of, numeric_text, numeric_text_of,
    other_digit_value, other_digit_value_of,
};

verus! {

/// The value of `c` as a decimal digit (Unicode general category Nd).
pub open spec fn digit_of(c: char) -> Option<u32> {
    decimal_value(c as u32)
}

/// The value of `c` where it is a digit but not a decimal digit (superscript,
/// subscript, circled digits and the like): under the integer algorithms each
/// such character is a single-digit number of its own.
pub open spec fn other_digit_of(c: char) -> Option<u32> {
    other_digit_value(c as u32)
}

/// The value of `c`, as ASCII decimal text, where `c` is numeric but not a
/// decimal digit (other digits, fractions, Roman numerals, numeric ideographs):
/// under the float algorithms each such character is a number of its own.
pub open spec fn numeric_char_text(c: char) -> Option<&'static str> {
    numeric_text(c as u32)
}

/// `c` is a decimal digit.
pub open spec fn is_digit(c: char) -> bool {
    digit_of(c) is Some
}

/// `c` is a sign character, `+` or `-`.
pub open spec fn is_sign(c: char) -> bool {
    c == '+' || c == '-'
}

/// The ASCII digit character (`0`-`9`) with the same digit value as `c`.
pub open spec fn ascii_digit(c: char) -> char {
    (0x30 + digit_of(c).unwrap()) as char
}

/// `c` with its ASCII case swapped; any other character unchanged.
pub open spec fn swap_case(c: char) -> char {
    let cp = c as u32;
    if 0x41 <= cp <= 0x5A {
        (cp + 0x20) as char
    } else if 0x61 <= cp <= 0x7A {
        (cp - 0x20) as char
    } else {
        c
    }
}

/// Swapping case turns every uppercase ASCII letter into the same letter in
/// lowercase and every lowercase ASCII letter into the same letter in uppercase,
/// leaves every other character as it is, and swapping twice changes nothing.
pub proof fn lemma_swap_case_letters(c: char)
    ensures
        'A' <= c <= 'Z' ==> 'a' <= swap_case(c) <= 'z' && swap_case(c) as u32 - ('a' as u32) == c
            as u32 - ('A' as u32),
        'a' <= c <= 'z' ==> 'A' <= swap_case(c) <= 'Z' && swap_case(c) as u32 - ('A' as u32) == c
            as u32 - ('a' as u32),
        !('A' <= c <= 'Z') && !('a' <= c <= 'z') ==> swap_case(c) == c,
        swap_case(swap_case(c)) == c,
{
}

/// Returns the decimal digit value of `c`, or `None` where `c` is no decimal digit.
pub fn digit_value(c: char) -> (r: Option<u32>)
    ensures
        r == digit_of(c),
        r matches Some(d) ==> d < 10,
{
    decimal_value_of(c as u32)
}

/// Returns the digit value of `c` where it is a digit but not a decimal digit.
pub fn other_digit(c: char) -> (r: Option<u32>)
    ensures
        r == other_digit_of(c),
        r matches Some(d) ==> d < 10,
{
    other_digit_value_of(c as u32)
}

/// Returns the value of `c` as ASCII decimal text where `c` is numeric but not a
/// decimal digit.
pub fn numeric_text_value(c: char) -> (r: Option<&'static str>)
    ensures
        r == numeric_char_text(c),
{
    numeric_text_of(c as u32)
}

/// Returns the ASCII digit character with value `d`.
pub fn ascii_digit_char(d: u32) -> (r: char)
    requires
        d < 10,
    ensures
        r as u32 == 0x30 + d,
{
    let b: u8 = 0x30u8 + (d as u8);
    b as char
}

/// Returns `c` with its ASCII case swapped (`A`-`Z` and `a`-`z`); other characters unchanged.
pub fn swap_ascii_case(c: char) -> (r: char)
    ensures
        r == swap_case(c),
{
    let cp = c as u32;
    if 0x41 <= cp && cp <= 0x5A {
        let b: u8 = (cp as u8) + 0x20u8;
        b as char
    } else if 0x61 <= cp && cp <= 0x7A {
        let b: u8 = (cp as u8) - 0x20u8;
        b as char
    } else {
        c
    }
}

} // verus!
