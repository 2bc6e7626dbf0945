//! Unicode character data: decimal digits, other digits, numeric characters
//! and case folding.
//!
//! Decimal digits are the characters of general category Nd; each belongs to a
//! run of ten code points for the digits 0 to 9. Other digits (such as
//! superscripts and circled digits) carry a digit value without being decimal
//! digits. Numeric characters are the characters with a numeric value that are
//! not decimal digits (other digits, fractions, Roman numerals, numeric
//! ideographs and the like); their value is given as the ASCII text of the
//! number. Case folding is full Unicode case folding; it differs from Unicode
//! lowercasing only for the characters listed in `fold_exception`. Canonical
//! combining classes and full canonical decompositions serve normalization.

use vstd::prelude::*;

verus! {

/// The value of the decimal digit with code point `cp`.
pub open spec fn decimal_value(cp: u32) -> Option<u32> {
    if 0x30 <= cp <= 0x39 {
        Some((cp - 0x30) as u32)
    } else if 0x660 <= cp <= 0x669 {
        Some((cp - 0x660) as u32)
    } else if 0x6F0 <= cp <= 0x6F9 {
        Some((cp - 0x6F0) as u32)
    } else if 0x7C0 <= cp <= 0x7C9 {
        Some((cp - 0x7C0) as u32)
    } else if 0x966 <= cp <= 0x96F {
        Some((cp - 0x966) as u32)
    } else if 0x9E6 <= cp <= 0x9EF {
        Some((cp - 0x9E6) as u32)
    } else if 0xA66 <= cp <= 0xA6F {
        Some((cp - 0xA66) as u32)
    } else if 0xAE6 <= cp <= 0xAEF {
        Some((cp - 0xAE6) as u32)
    } else if 0xB66 <= cp <= 0xB6F {
        Some((cp - 0xB66) as u32)
    } else if 0xBE6 <= cp <= 0xBEF {
        Some((cp - 0xBE6) as u32)
    } else if 0xC66 <= cp <= 0xC6F {
        Some((cp - 0xC66) as u32)
    } else if 0xCE6 <= cp <= 0xCEF {
        Some((cp - 0xCE6) as u32)
    } else if 0xD66 <= cp <= 0xD6F {
        Some((cp - 0xD66) as u32)
    } else if 0xDE6 <= cp <= 0xDEF {
        Some((cp - 0xDE6) as u32)
    } else if 0xE50 <= cp <= 0xE59 {
        Some((cp - 0xE50) as u32)
    } else if 0xED0 <= cp <= 0xED9 {
        Some((cp - 0xED0) as u32)
    } else if 0xF20 <= cp <= 0xF29 {
        Some((cp - 0xF20) as u32)
    } else if 0x1040 <= cp <= 0x1049 {
        Some((cp - 0x1040) as u32)
    } else if 0x1090 <= cp <= 0x1099 {
        Some((cp - 0x1090) as u32)
    } else if 0x17E0 <= cp <= 0x17E9 {
        Some((cp - 0x17E0) as u32)
    } else if 0x1810 <= cp <= 0x1819 {
        Some((cp - 0x1810) as u32)
    } else if 0x1946 <= cp <= 0x194F {
        Some((cp - 0x1946) as u32)
    } else if 0x19D0 <= cp <= 0x19D9 {
        Some((cp - 0x19D0) as u32)
    } else if 0x1A80 <= cp <= 0x1A89 {
        Some((cp - 0x1A80) as u32)
    } else if 0x1A90 <= cp <= 0x1A99 {
        Some((cp - 0x1A90) as u32)
    } else if 0x1B50 <= cp <= 0x1B59 {
        Some((cp - 0x1B50) as u32)
    } else if 0x1BB0 <= cp <= 0x1BB9 {
        Some((cp - 0x1BB0) as u32)
    } else if 0x1C40 <= cp <= 0x1C49 {
        Some((cp - 0x1C40) as u32)
    } else if 0x1C50 <= cp <= 0x1C59 {
        Some((cp - 0x1C50) as u32)
    } else if 0xA620 <= cp <= 0xA629 {
        Some((cp - 0xA620) as u32)
    } else if 0xA8D0 <= cp <= 0xA8D9 {
        Some((cp - 0xA8D0) as u32)
    } else if 0xA900 <= cp <= 0xA909 {
        Some((cp - 0xA900) as u32)
    } else if 0xA9D0 <= cp <= 0xA9D9 {
        Some((cp - 0xA9D0) as u32)
    } else if 0xA9F0 <= cp <= 0xA9F9 {
        Some((cp - 0xA9F0) as u32)
    } else if 0xAA50 <= cp <= 0xAA59 {
        Some((cp - 0xAA50) as u32)
    } else if 0xABF0 <= cp <= 0xABF9 {
        Some((cp - 0xABF0) as u32)
    } else if 0xFF10 <= cp <= 0xFF19 {
        Some((cp - 0xFF10) as u32)
    } else if 0x104A0 <= cp <= 0x104A9 {
        Some((cp - 0x104A0) as u32)
    } else if 0x10D30 <= cp <= 0x10D39 {
        Some((cp - 0x10D30) as u32)
    } else if 0x11066 <= cp <= 0x1106F {
        Some((cp - 0x11066) as u32)
    } else if 0x110F0 <= cp <= 0x110F9 {
        Some((cp - 0x110F0) as u32)
    } else if 0x11136 <= cp <= 0x1113F {
        Some((cp - 0x11136) as u32)
    } else if 0x111D0 <= cp <= 0x111D9 {
        Some((cp - 0x111D0) as u32)
    } else if 0x112F0 <= cp <= 0x112F9 {
        Some((cp - 0x112F0) as u32)
    } else if 0x11450 <= cp <= 0x11459 {
        Some((cp - 0x11450) as u32)
    } else if 0x114D0 <= cp <= 0x114D9 {
        Some((cp - 0x114D0) as u32)
    } else if 0x11650 <= cp <= 0x11659 {
        Some((cp - 0x11650) as u32)
    } else if 0x116C0 <= cp <= 0x116C9 {
        Some((cp - 0x116C0) as u32)
    } else if 0x11730 <= cp <= 0x11739 {
        Some((cp - 0x11730) as u32)
    } else if 0x118E0 <= cp <= 0x118E9 {
        Some((cp - 0x118E0) as u32)
    } else if 0x11950 <= cp <= 0x11959 {
        Some((cp - 0x11950) as u32)
    } else if 0x11C50 <= cp <= 0x11C59 {
        Some((cp - 0x11C50) as u32)
    } else if 0x11D50 <= cp <= 0x11D59 {
        Some((cp - 0x11D50) as u32)
    } else if 0x11DA0 <= cp <= 0x11DA9 {
        Some((cp - 0x11DA0) as u32)
    } else if 0x16A60 <= cp <= 0x16A69 {
        Some((cp - 0x16A60) as u32)
    } else if 0x16AC0 <= cp <= 0x16AC9 {
        Some((cp - 0x16AC0) as u32)
    } else if 0x16B50 <= cp <= 0x16B59 {
        Some((cp - 0x16B50) as u32)
    } else if 0x1D7CE <= cp <= 0x1D7D7 {
        Some((cp - 0x1D7CE) as u32)
    } else if 0x1D7D8 <= cp <= 0x1D7E1 {
        Some((cp - 0x1D7D8) as u32)
    } else if 0x1D7E2 <= cp <= 0x1D7EB {
        Some((cp - 0x1D7E2) as u32)
    } else if 0x1D7EC <= cp <= 0x1D7F5 {
        Some((cp - 0x1D7EC) as u32)
    } else if 0x1D7F6 <= cp <= 0x1D7FF {
        Some((cp - 0x1D7F6) as u32)
    } else if 0x1E140 <= cp <= 0x1E149 {
        Some((cp - 0x1E140) as u32)
    } else if 0x1E2F0 <= cp <= 0x1E2F9 {
        Some((cp - 0x1E2F0) as u32)
    } else if 0x1E950 <= cp <= 0x1E959 {
        Some((cp - 0x1E950) as u32)
    } else if 0x1FBF0 <= cp <= 0x1FBF9 {
        Some((cp - 0x1FBF0) as u32)
    } else {
        None
    }
}

/// Returns the value of the decimal digit with code point `cp`, or `None`.
pub fn decimal_value_of(cp: u32) -> (r: Option<u32>)
    ensures
        r == decimal_value(cp),
        r matches Some(d) ==> d < 10,
{
    if 0x30 <= cp && cp <= 0x39 {
        Some(cp - 0x30)
    } else if 0x660 <= cp && cp <= 0x669 {
        Some(cp - 0x660)
    } else if 0x6F0 <= cp && cp <= 0x6F9 {
        Some(cp - 0x6F0)
    } else if 0x7C0 <= cp && cp <= 0x7C9 {
        Some(cp - 0x7C0)
    } else if 0x966 <= cp && cp <= 0x96F {
        Some(cp - 0x966)
    } else if 0x9E6 <= cp && cp <= 0x9EF {
        Some(cp - 0x9E6)
    } else if 0xA66 <= cp && cp <= 0xA6F {
        Some(cp - 0xA66)
    } else if 0xAE6 <= cp && cp <= 0xAEF {
        Some(cp - 0xAE6)
    } else if 0xB66 <= cp && cp <= 0xB6F {
        Some(cp - 0xB66)
    } else if 0xBE6 <= cp && cp <= 0xBEF {
        Some(cp - 0xBE6)
    } else if 0xC66 <= cp && cp <= 0xC6F {
        Some(cp - 0xC66)
    } else if 0xCE6 <= cp && cp <= 0xCEF {
        Some(cp - 0xCE6)
    } else if 0xD66 <= cp && cp <= 0xD6F {
        Some(cp - 0xD66)
    } else if 0xDE6 <= cp && cp <= 0xDEF {
        Some(cp - 0xDE6)
    } else if 0xE50 <= cp && cp <= 0xE59 {
        Some(cp - 0xE50)
    } else if 0xED0 <= cp && cp <= 0xED9 {
        Some(cp - 0xED0)
    } else if 0xF20 <= cp && cp <= 0xF29 {
        Some(cp - 0xF20)
    } else if 0x1040 <= cp && cp <= 0x1049 {
        Some(cp - 0x1040)
    } else if 0x1090 <= cp && cp <= 0x1099 {
        Some(cp - 0x1090)
    } else if 0x17E0 <= cp && cp <= 0x17E9 {
        Some(cp - 0x17E0)
    } else if 0x1810 <= cp && cp <= 0x1819 {
        Some(cp - 0x1810)
    } else if 0x1946 <= cp && cp <= 0x194F {
        Some(cp - 0x1946)
    } else if 0x19D0 <= cp && cp <= 0x19D9 {
        Some(cp - 0x19D0)
    } else if 0x1A80 <= cp && cp <= 0x1A89 {
        Some(cp - 0x1A80)
    } else if 0x1A90 <= cp && cp <= 0x1A99 {
        Some(cp - 0x1A90)
    } else if 0x1B50 <= cp && cp <= 0x1B59 {
        Some(cp - 0x1B50)
    } else if 0x1BB0 <= cp && cp <= 0x1BB9 {
        Some(cp - 0x1BB0)
    } else if 0x1C40 <= cp && cp <= 0x1C49 {
        Some(cp - 0x1C40)
    } else if 0x1C50 <= cp && cp <= 0x1C59 {
        Some(cp - 0x1C50)
    } else if 0xA620 <= cp && cp <= 0xA629 {
        Some(cp - 0xA620)
    } else if 0xA8D0 <= cp && cp <= 0xA8D9 {
        Some(cp - 0xA8D0)
    } else if 0xA900 <= cp && cp <= 0xA909 {
        Some(cp - 0xA900)
    } else if 0xA9D0 <= cp && cp <= 0xA9D9 {
        Some(cp - 0xA9D0)
    } else if 0xA9F0 <= cp && cp <= 0xA9F9 {
        Some(cp - 0xA9F0)
    } else if 0xAA50 <= cp && cp <= 0xAA59 {
        Some(cp - 0xAA50)
    } else if 0xABF0 <= cp && cp <= 0xABF9 {
        Some(cp - 0xABF0)
    } else if 0xFF10 <= cp && cp <= 0xFF19 {
        Some(cp - 0xFF10)
    } else if 0x104A0 <= cp && cp <= 0x104A9 {
        Some(cp - 0x104A0)
    } else if 0x10D30 <= cp && cp <= 0x10D39 {
        Some(cp - 0x10D30)
    } else if 0x11066 <= cp && cp <= 0x1106F {
        Some(cp - 0x11066)
    } else if 0x110F0 <= cp && cp <= 0x110F9 {
        Some(cp - 0x110F0)
    } else if 0x11136 <= cp && cp <= 0x1113F {
        Some(cp - 0x11136)
    } else if 0x111D0 <= cp && cp <= 0x111D9 {
        Some(cp - 0x111D0)
    } else if 0x112F0 <= cp && cp <= 0x112F9 {
        Some(cp - 0x112F0)
    } else if 0x11450 <= cp && cp <= 0x11459 {
        Some(cp - 0x11450)
    } else if 0x114D0 <= cp && cp <= 0x114D9 {
        Some(cp - 0x114D0)
    } else if 0x11650 <= cp && cp <= 0x11659 {
        Some(cp - 0x11650)
    } else if 0x116C0 <= cp && cp <= 0x116C9 {
        Some(cp - 0x116C0)
    } else if 0x11730 <= cp && cp <= 0x11739 {
        Some(cp - 0x11730)
    } else if 0x118E0 <= cp && cp <= 0x118E9 {
        Some(cp - 0x118E0)
    } else if 0x11950 <= cp && cp <= 0x11959 {
        Some(cp - 0x11950)
    } else if 0x11C50 <= cp && cp <= 0x11C59 {
        Some(cp - 0x11C50)
    } else if 0x11D50 <= cp && cp <= 0x11D59 {
        Some(cp - 0x11D50)
    } else if 0x11DA0 <= cp && cp <= 0x11DA9 {
        Some(cp - 0x11DA0)
    } else if 0x16A60 <= cp && cp <= 0x16A69 {
        Some(cp - 0x16A60)
    } else if 0x16AC0 <= cp && cp <= 0x16AC9 {
        Some(cp - 0x16AC0)
    } else if 0x16B50 <= cp && cp <= 0x16B59 {
        Some(cp - 0x16B50)
    } else if 0x1D7CE <= cp && cp <= 0x1D7D7 {
        Some(cp - 0x1D7CE)
    } else if 0x1D7D8 <= cp && cp <= 0x1D7E1 {
        Some(cp - 0x1D7D8)
    } else if 0x1D7E2 <= cp && cp <= 0x1D7EB {
        Some(cp - 0x1D7E2)
    } else if 0x1D7EC <= cp && cp <= 0x1D7F5 {
        Some(cp - 0x1D7EC)
    } else if 0x1D7F6 <= cp && cp <= 0x1D7FF {
        Some(cp - 0x1D7F6)
    } else if 0x1E140 <= cp && cp <= 0x1E149 {
        Some(cp - 0x1E140)
    } else if 0x1E2F0 <= cp && cp <= 0x1E2F9 {
        Some(cp - 0x1E2F0)
    } else if 0x1E950 <= cp && cp <= 0x1E959 {
        Some(cp - 0x1E950)
    } else if 0x1FBF0 <= cp && cp <= 0x1FBF9 {
        Some(cp - 0x1FBF0)
    } else {
        None
    }
}

/// A decimal digit's value is below ten.
pub proof fn lemma_decimal_value_below_ten(cp: u32)
    ensures
        decimal_value(cp) matches Some(d) ==> d < 10,
{
}

/// The digit value of the code point `cp` where it is a digit but not a decimal
/// digit (a superscript, subscript, circled or otherwise styled digit).
pub open spec fn other_digit_value(cp: u32) -> Option<u32> {
    if 0xB2 <= cp <= 0xB3 {
        Some((cp - 0xB2 + 2) as u32)
    } else if 0xB9 <= cp <= 0xB9 {
        Some((cp - 0xB9 + 1) as u32)
    } else if 0x1369 <= cp <= 0x1371 {
        Some((cp - 0x1369 + 1) as u32)
    } else if 0x19DA <= cp <= 0x19DA {
        Some((cp - 0x19DA + 1) as u32)
    } else if 0x2070 <= cp <= 0x2070 {
        Some((cp - 0x2070) as u32)
    } else if 0x2074 <= cp <= 0x2079 {
        Some((cp - 0x2074 + 4) as u32)
    } else if 0x2080 <= cp <= 0x2089 {
        Some((cp - 0x2080) as u32)
    } else if 0x2460 <= cp <= 0x2468 {
        Some((cp - 0x2460 + 1) as u32)
    } else if 0x2474 <= cp <= 0x247C {
        Some((cp - 0x2474 + 1) as u32)
    } else if 0x2488 <= cp <= 0x2490 {
        Some((cp - 0x2488 + 1) as u32)
    } else if 0x24EA <= cp <= 0x24EA {
        Some((cp - 0x24EA) as u32)
    } else if 0x24F5 <= cp <= 0x24FD {
        Some((cp - 0x24F5 + 1) as u32)
    } else if 0x24FF <= cp <= 0x24FF {
        Some((cp - 0x24FF) as u32)
    } else if 0x2776 <= cp <= 0x277E {
        Some((cp - 0x2776 + 1) as u32)
    } else if 0x2780 <= cp <= 0x2788 {
        Some((cp - 0x2780 + 1) as u32)
    } else if 0x278A <= cp <= 0x2792 {
        Some((cp - 0x278A + 1) as u32)
    } else if 0x10A40 <= cp <= 0x10A43 {
        Some((cp - 0x10A40 + 1) as u32)
    } else if 0x10E60 <= cp <= 0x10E68 {
        Some((cp - 0x10E60 + 1) as u32)
    } else if 0x11052 <= cp <= 0x1105A {
        Some((cp - 0x11052 + 1) as u32)
    } else if 0x1F100 <= cp <= 0x1F100 {
        Some((cp - 0x1F100) as u32)
    } else if 0x1F101 <= cp <= 0x1F10A {
        Some((cp - 0x1F101) as u32)
    } else {
        None
    }
}

/// Returns the digit value of `cp` where it is a digit but not a decimal digit, or `None`.
pub fn other_digit_value_of(cp: u32) -> (r: Option<u32>)
    ensures
        r == other_digit_value(cp),
        r matches Some(d) ==> d < 10,
{
    if 0xB2 <= cp && cp <= 0xB3 {
        Some(cp - 0xB2 + 2)
    } else if 0xB9 <= cp && cp <= 0xB9 {
        Some(cp - 0xB9 + 1)
    } else if 0x1369 <= cp && cp <= 0x1371 {
        Some(cp - 0x1369 + 1)
    } else if 0x19DA <= cp && cp <= 0x19DA {
        Some(cp - 0x19DA + 1)
    } else if 0x2070 <= cp && cp <= 0x2070 {
        Some(cp - 0x2070)
    } else if 0x2074 <= cp && cp <= 0x2079 {
        Some(cp - 0x2074 + 4)
    } else if 0x2080 <= cp && cp <= 0x2089 {
        Some(cp - 0x2080)
    } else if 0x2460 <= cp && cp <= 0x2468 {
        Some(cp - 0x2460 + 1)
    } else if 0x2474 <= cp && cp <= 0x247C {
        Some(cp - 0x2474 + 1)
    } else if 0x2488 <= cp && cp <= 0x2490 {
        Some(cp - 0x2488 + 1)
    } else if 0x24EA <= cp && cp <= 0x24EA {
        Some(cp - 0x24EA)
    } else if 0x24F5 <= cp && cp <= 0x24FD {
        Some(cp - 0x24F5 + 1)
    } else if 0x24FF <= cp && cp <= 0x24FF {
        Some(cp - 0x24FF)
    } else if 0x2776 <= cp && cp <= 0x277E {
        Some(cp - 0x2776 + 1)
    } else if 0x2780 <= cp && cp <= 0x2788 {
        Some(cp - 0x2780 + 1)
    } else if 0x278A <= cp && cp <= 0x2792 {
        Some(cp - 0x278A + 1)
    } else if 0x10A40 <= cp && cp <= 0x10A43 {
        Some(cp - 0x10A40 + 1)
    } else if 0x10E60 <= cp && cp <= 0x10E68 {
        Some(cp - 0x10E60 + 1)
    } else if 0x11052 <= cp && cp <= 0x1105A {
        Some(cp - 0x11052 + 1)
    } else if 0x1F100 <= cp && cp <= 0x1F100 {
        Some(cp - 0x1F100)
    } else if 0x1F101 <= cp && cp <= 0x1F10A {
        Some(cp - 0x1F101)
    } else {
        None
    }
}

/// The value of the code point `cp`, as ASCII decimal text, where `cp` has a
/// numeric value but is not a decimal digit.
pub open spec fn numeric_text(cp: u32) -> Option<&'static str> {
    if cp <= 0x1372 {
        numeric_text_0(cp)
    } else if cp <= 0x2166 {
        numeric_text_1(cp)
    } else if cp <= 0x247E {
        numeric_text_2(cp)
    } else if cp <= 0x2782 {
        numeric_text_3(cp)
    } else if cp <= 0x325B {
        numeric_text_4(cp)
    } else if cp <= 0x58F9 {
        numeric_text_5(cp)
    } else if cp <= 0x10118 {
        numeric_text_6(cp)
    } else if cp <= 0x10164 {
        numeric_text_7(cp)
    } else if cp <= 0x1085B {
        numeric_text_8(cp)
    } else if cp <= 0x109E0 {
        numeric_text_9(cp)
    } else if cp <= 0x10B7D {
        numeric_text_10(cp)
    } else if cp <= 0x10FC8 {
        numeric_text_11(cp)
    } else if cp <= 0x11C63 {
        numeric_text_12(cp)
    } else if cp <= 0x12421 {
        numeric_text_13(cp)
    } else if cp <= 0x12461 {
        numeric_text_14(cp)
    } else if cp <= 0x1D360 {
        numeric_text_15(cp)
    } else if cp <= 0x1EC8F {
        numeric_text_16(cp)
    } else if cp <= 0x1ED1D {
        numeric_text_17(cp)
    } else {
        numeric_text_18(cp)
    }
}

/// Returns the value of `cp` as ASCII decimal text where it is numeric but not a
/// decimal digit, or `None`.
pub fn numeric_text_of(cp: u32) -> (r: Option<&'static str>)
    ensures
        r == numeric_text(cp),
{
    if cp <= 0x1372 {
        numeric_text_of_0(cp)
    } else if cp <= 0x2166 {
        numeric_text_of_1(cp)
    } else if cp <= 0x247E {
        numeric_text_of_2(cp)
    } else if cp <= 0x2782 {
        numeric_text_of_3(cp)
    } else if cp <= 0x325B {
        numeric_text_of_4(cp)
    } else if cp <= 0x58F9 {
        numeric_text_of_5(cp)
    } else if cp <= 0x10118 {
        numeric_text_of_6(cp)
    } else if cp <= 0x10164 {
        numeric_text_of_7(cp)
    } else if cp <= 0x1085B {
        numeric_text_of_8(cp)
    } else if cp <= 0x109E0 {
        numeric_text_of_9(cp)
    } else if cp <= 0x10B7D {
        numeric_text_of_10(cp)
    } else if cp <= 0x10FC8 {
        numeric_text_of_11(cp)
    } else if cp <= 0x11C63 {
        numeric_text_of_12(cp)
    } else if cp <= 0x12421 {
        numeric_text_of_13(cp)
    } else if cp <= 0x12461 {
        numeric_text_of_14(cp)
    } else if cp <= 0x1D360 {
        numeric_text_of_15(cp)
    } else if cp <= 0x1EC8F {
        numeric_text_of_16(cp)
    } else if cp <= 0x1ED1D {
        numeric_text_of_17(cp)
    } else {
        numeric_text_of_18(cp)
    }
}

/// One part of the table [`numeric_text`], by code point.
pub open spec fn numeric_text_0(cp: u32) -> Option<&'static str> {
    if cp == 0xB2 {
        Some("2")
    } else if cp == 0xB3 {
        Some("3")
    } else if cp == 0xB9 {
        Some("1")
    } else if cp == 0xBC {
        Some("0.25")
    } else if cp == 0xBD {
        Some("0.5")
    } else if cp == 0xBE {
        Some("0.75")
    } else if cp == 0x9F4 {
        Some("0.0625")
    } else if cp == 0x9F5 {
        Some("0.125")
    } else if cp == 0x9F6 {
        Some("0.1875")
    } else if cp == 0x9F7 {
        Some("0.25")
    } else if cp == 0x9F8 {
        Some("0.75")
    } else if cp == 0x9F9 {
        Some("16")
    } else if cp == 0xB72 {
        Some("0.25")
    } else if cp == 0xB73 {
        Some("0.5")
    } else if cp == 0xB74 {
        Some("0.75")
    } else if cp == 0xB75 {
        Some("0.0625")
    } else if cp == 0xB76 {
        Some("0.125")
    } else if cp == 0xB77 {
        Some("0.1875")
    } else if cp == 0xBF0 {
        Some("10")
    } else if cp == 0xBF1 {
        Some("100")
    } else if cp == 0xBF2 {
        Some("1000")
    } else if cp == 0xC78 {
        Some("0")
    } else if cp == 0xC79 {
        Some("1")
    } else if cp == 0xC7A {
        Some("2")
    } else if cp == 0xC7B {
        Some("3")
    } else if cp == 0xC7C {
        Some("1")
    } else if cp == 0xC7D {
        Some("2")
    } else if cp == 0xC7E {
        Some("3")
    } else if cp == 0xD58 {
        Some("0.00625")
    } else if cp == 0xD59 {
        Some("0.025")
    } else if cp == 0xD5A {
        Some("0.0375")
    } else if cp == 0xD5B {
        Some("0.05")
    } else if cp == 0xD5C {
        Some("0.1")
    } else if cp == 0xD5D {
        Some("0.15")
    } else if cp == 0xD5E {
        Some("0.2")
    } else if cp == 0xD70 {
        Some("10")
    } else if cp == 0xD71 {
        Some("100")
    } else if cp == 0xD72 {
        Some("1000")
    } else if cp == 0xD73 {
        Some("0.25")
    } else if cp == 0xD74 {
        Some("0.5")
    } else if cp == 0xD75 {
        Some("0.75")
    } else if cp == 0xD76 {
        Some("0.0625")
    } else if cp == 0xD77 {
        Some("0.125")
    } else if cp == 0xD78 {
        Some("0.1875")
    } else if cp == 0xF2A {
        Some("0.5")
    } else if cp == 0xF2B {
        Some("1.5")
    } else if cp == 0xF2C {
        Some("2.5")
    } else if cp == 0xF2D {
        Some("3.5")
    } else if cp == 0xF2E {
        Some("4.5")
    } else if cp == 0xF2F {
        Some("5.5")
    } else if cp == 0xF30 {
        Some("6.5")
    } else if cp == 0xF31 {
        Some("7.5")
    } else if cp == 0xF32 {
        Some("8.5")
    } else if cp == 0xF33 {
        Some("-0.5")
    } else if cp == 0x1369 {
        Some("1")
    } else if cp == 0x136A {
        Some("2")
    } else if cp == 0x136B {
        Some("3")
    } else if cp == 0x136C {
        Some("4")
    } else if cp == 0x136D {
        Some("5")
    } else if cp == 0x136E {
        Some("6")
    } else if cp == 0x136F {
        Some("7")
    } else if cp == 0x1370 {
        Some("8")
    } else if cp == 0x1371 {
        Some("9")
    } else if cp == 0x1372 {
        Some("10")
    } else {
        None
    }
}

fn numeric_text_of_0(cp: u32) -> (r: Option<&'static str>)
    ensures
        r == numeric_text_0(cp),
{
    if cp == 0xB2 {
        Some("2")
    } else if cp == 0xB3 {
        Some("3")
    } else if cp == 0xB9 {
        Some("1")
    } else if cp == 0xBC {
        Some("0.25")
    } else if cp == 0xBD {
        Some("0.5")
    } else if cp == 0xBE {
        Some("0.75")
    } else if cp == 0x9F4 {
        Some("0.0625")
    } else if cp == 0x9F5 {
        Some("0.125")
    } else if cp == 0x9F6 {
        Some("0.1875")
    } else if cp == 0x9F7 {
        Some("0.25")
    } else if cp == 0x9F8 {
        Some("0.75")
    } else if cp == 0x9F9 {
        Some("16")
    } else if cp == 0xB72 {
        Some("0.25")
    } else if cp == 0xB73 {
        Some("0.5")
    } else if cp == 0xB74 {
        Some("0.75")
    } else if cp == 0xB75 {
        Some("0.0625")
    } else if cp == 0xB76 {
        Some("0.125")
    } else if cp == 0xB77 {
        Some("0.1875")
    } else if cp == 0xBF0 {
        Some("10")
    } else if cp == 0xBF1 {
        Some("100")
    } else if cp == 0xBF2 {
        Some("1000")
    } else if cp == 0xC78 {
        Some("0")
    } else if cp == 0xC79 {
        Some("1")
    } else if cp == 0xC7A {
        Some("2")
    } else if cp == 0xC7B {
        Some("3")
    } else if cp == 0xC7C {
        Some("1")
    } else if cp == 0xC7D {
        Some("2")
    } else if cp == 0xC7E {
        Some("3")
    } else if cp == 0xD58 {
        Some("0.00625")
    } else if cp == 0xD59 {
        Some("0.025")
    } else if cp == 0xD5A {
        Some("0.0375")
    } else if cp == 0xD5B {
        Some("0.05")
    } else if cp == 0xD5C {
        Some("0.1")
    } else if cp == 0xD5D {
        Some("0.15")
    } else if cp == 0xD5E {
        Some("0.2")
    } else if cp == 0xD70 {
        Some("10")
    } else if cp == 0xD71 {
        Some("100")
    } else if cp == 0xD72 {
        Some("1000")
    } else if cp == 0xD73 {
        Some("0.25")
    } else if cp == 0xD74 {
        Some("0.5")
    } else if cp == 0xD75 {
        Some("0.75")
    } else if cp == 0xD76 {
        Some("0.0625")
    } else if cp == 0xD77 {
        Some("0.125")
    } else if cp == 0xD78 {
        Some("0.1875")
    } else if cp == 0xF2A {
        Some("0.5")
    } else if cp == 0xF2B {
        Some("1.5")
    } else if cp == 0xF2C {
        Some("2.5")
    } else if cp == 0xF2D {
        Some("3.5")
    } else if cp == 0xF2E {
        Some("4.5")
    } else if cp == 0xF2F {
        Some("5.5")
    } else if cp == 0xF30 {
        Some("6.5")
    } else if cp == 0xF31 {
        Some("7.5")
    } else if cp == 0xF32 {
        Some("8.5")
    } else if cp == 0xF33 {
        Some("-0.5")
    } else if cp == 0x1369 {
        Some("1")
    } else if cp == 0x136A {
        Some("2")
    } else if cp == 0x136B {
        Some("3")
    } else if cp == 0x136C {
        Some("4")
    } else if cp == 0x136D {
        Some("5")
    } else if cp == 0x136E {
        Some("6")
    } else if cp == 0x136F {
        Some("7")
    } else if cp == 0x1370 {
        Some("8")
    } else if cp == 0x1371 {
        Some("9")
    } else if cp == 0x1372 {
        Some("10")
    } else {
        None
    }
}

/// One part of the table [`numeric_text`], by code point.
pub open spec fn numeric_text_1(cp: u32) -> Option<&'static str> {
    if cp == 0x1373 {
        Some("20")
    } else if cp == 0x1374 {
        Some("30")
    } else if cp == 0x1375 {
        Some("40")
    } else if cp == 0x1376 {
        Some("50")
    } else if cp == 0x1377 {
        Some("60")
    } else if cp == 0x1378 {
        Some("70")
    } else if cp == 0x1379 {
        Some("80")
    } else if cp == 0x137A {
        Some("90")
    } else if cp == 0x137B {
        Some("100")
    } else if cp == 0x137C {
        Some("10000")
    } else if cp == 0x16EE {
        Some("17")
    } else if cp == 0x16EF {
        Some("18")
    } else if cp == 0x16F0 {
        Some("19")
    } else if cp == 0x17F0 {
        Some("0")
    } else if cp == 0x17F1 {
        Some("1")
    } else if cp == 0x17F2 {
        Some("2")
    } else if cp == 0x17F3 {
        Some("3")
    } else if cp == 0x17F4 {
        Some("4")
    } else if cp == 0x17F5 {
        Some("5")
    } else if cp == 0x17F6 {
        Some("6")
    } else if cp == 0x17F7 {
        Some("7")
    } else if cp == 0x17F8 {
        Some("8")
    } else if cp == 0x17F9 {
        Some("9")
    } else if cp == 0x19DA {
        Some("1")
    } else if cp == 0x2070 {
        Some("0")
    } else if cp == 0x2074 {
        Some("4")
    } else if cp == 0x2075 {
        Some("5")
    } else if cp == 0x2076 {
        Some("6")
    } else if cp == 0x2077 {
        Some("7")
    } else if cp == 0x2078 {
        Some("8")
    } else if cp == 0x2079 {
        Some("9")
    } else if cp == 0x2080 {
        Some("0")
    } else if cp == 0x2081 {
        Some("1")
    } else if cp == 0x2082 {
        Some("2")
    } else if cp == 0x2083 {
        Some("3")
    } else if cp == 0x2084 {
        Some("4")
    } else if cp == 0x2085 {
        Some("5")
    } else if cp == 0x2086 {
        Some("6")
    } else if cp == 0x2087 {
        Some("7")
    } else if cp == 0x2088 {
        Some("8")
    } else if cp == 0x2089 {
        Some("9")
    } else if cp == 0x2150 {
        Some("0.14285714285714285")
    } else if cp == 0x2151 {
        Some("0.1111111111111111")
    } else if cp == 0x2152 {
        Some("0.1")
    } else if cp == 0x2153 {
        Some("0.3333333333333333")
    } else if cp == 0x2154 {
        Some("0.6666666666666666")
    } else if cp == 0x2155 {
        Some("0.2")
    } else if cp == 0x2156 {
        Some("0.4")
    } else if cp == 0x2157 {
        Some("0.6")
    } else if cp == 0x2158 {
        Some("0.8")
    } else if cp == 0x2159 {
        Some("0.16666666666666666")
    } else if cp == 0x215A {
        Some("0.8333333333333334")
    } else if cp == 0x215B {
        Some("0.125")
    } else if cp == 0x215C {
        Some("0.375")
    } else if cp == 0x215D {
        Some("0.625")
    } else if cp == 0x215E {
        Some("0.875")
    } else if cp == 0x215F {
        Some("1")
    } else if cp == 0x2160 {
        Some("1")
    } else if cp == 0x2161 {
        Some("2")
    } else if cp == 0x2162 {
        Some("3")
    } else if cp == 0x2163 {
        Some("4")
    } else if cp == 0x2164 {
        Some("5")
    } else if cp == 0x2165 {
        Some("6")
    } else if cp == 0x2166 {
        Some("7")
    } else {
        None
    }
}

fn numeric_text_of_1(cp: u32) -> (r: Option<&'static str>)
    ensures
        r == numeric_text_1(cp),
{
    if cp == 0x1373 {
        Some("20")
    } else if cp == 0x1374 {
        Some("30")
    } else if cp == 0x1375 {
        Some("40")
    } else if cp == 0x1376 {
        Some("50")
    } else if cp == 0x1377 {
        Some("60")
    } else if cp == 0x1378 {
        Some("70")
    } else if cp == 0x1379 {
        Some("80")
    } else if cp == 0x137A {
        Some("90")
    } else if cp == 0x137B {
        Some("100")
    } else if cp == 0x137C {
        Some("10000")
    } else if cp == 0x16EE {
        Some("17")
    } else if cp == 0x16EF {
        Some("18")
    } else if cp == 0x16F0 {
        Some("19")
    } else if cp == 0x17F0 {
        Some("0")
    } else if cp == 0x17F1 {
        Some("1")
    } else if cp == 0x17F2 {
        Some("2")
    } else if cp == 0x17F3 {
        Some("3")
    } else if cp == 0x17F4 {
        Some("4")
    } else if cp == 0x17F5 {
        Some("5")
    } else if cp == 0x17F6 {
        Some("6")
    } else if cp == 0x17F7 {
        Some("7")
    } else if cp == 0x17F8 {
        Some("8")
    } else if cp == 0x17F9 {
        Some("9")
    } else if cp == 0x19DA {
        Some("1")
    } else if cp == 0x2070 {
        Some("0")
    } else if cp == 0x2074 {
        Some("4")
    } else if cp == 0x2075 {
        Some("5")
    } else if cp == 0x2076 {
        Some("6")
    } else if cp == 0x2077 {
        Some("7")
    } else if cp == 0x2078 {
        Some("8")
    } else if cp == 0x2079 {
        Some("9")
    } else if cp == 0x2080 {
        Some("0")
    } else if cp == 0x2081 {
        Some("1")
    } else if cp == 0x2082 {
        Some("2")
    } else if cp == 0x2083 {
        Some("3")
    } else if cp == 0x2084 {
        Some("4")
    } else if cp == 0x2085 {
        Some("5")
    } else if cp == 0x2086 {
        Some("6")
    } else if cp == 0x2087 {
        Some("7")
    } else if cp == 0x2088 {
        Some("8")
    } else if cp == 0x2089 {
        Some("9")
    } else if cp == 0x2150 {
        Some("0.14285714285714285")
    } else if cp == 0x2151 {
        Some("0.1111111111111111")
    } else if cp == 0x2152 {
        Some("0.1")
    } else if cp == 0x2153 {
        Some("0.3333333333333333")
    } else if cp == 0x2154 {
        Some("0.6666666666666666")
    } else if cp == 0x2155 {
        Some("0.2")
    } else if cp == 0x2156 {
        Some("0.4")
    } else if cp == 0x2157 {
        Some("0.6")
    } else if cp == 0x2158 {
        Some("0.8")
    } else if cp == 0x2159 {
        Some("0.16666666666666666")
    } else if cp == 0x215A {
        Some("0.8333333333333334")
    } else if cp == 0x215B {
        Some("0.125")
    } else if cp == 0x215C {
        Some("0.375")
    } else if cp == 0x215D {
        Some("0.625")
    } else if cp == 0x215E {
        Some("0.875")
    } else if cp == 0x215F {
        Some("1")
    } else if cp == 0x2160 {
        Some("1")
    } else if cp == 0x2161 {
        Some("2")
    } else if cp == 0x2162 {
        Some("3")
    } else if cp == 0x2163 {
        Some("4")
    } else if cp == 0x2164 {
        Some("5")
    } else if cp == 0x2165 {
        Some("6")
    } else if cp == 0x2166 {
        Some("7")
    } else {
        None
    }
}

/// One part of the table [`numeric_text`], by code point.
pub open spec fn numeric_text_2(cp: u32) -> Option<&'static str> {
    if cp == 0x2167 {
        Some("8")
    } else if cp == 0x2168 {
        Some("9")
    } else if cp == 0x2169 {
        Some("10")
    } else if cp == 0x216A {
        Some("11")
    } else if cp == 0x216B {
        Some("12")
    } else if cp == 0x216C {
        Some("50")
    } else if cp == 0x216D {
        Some("100")
    } else if cp == 0x216E {
        Some("500")
    } else if cp == 0x216F {
        Some("1000")
    } else if cp == 0x2170 {
        Some("1")
    } else if cp == 0x2171 {
        Some("2")
    } else if cp == 0x2172 {
        Some("3")
    } else if cp == 0x2173 {
        Some("4")
    } else if cp == 0x2174 {
        Some("5")
    } else if cp == 0x2175 {
        Some("6")
    } else if cp == 0x2176 {
        Some("7")
    } else if cp == 0x2177 {
        Some("8")
    } else if cp == 0x2178 {
        Some("9")
    } else if cp == 0x2179 {
        Some("10")
    } else if cp == 0x217A {
        Some("11")
    } else if cp == 0x217B {
        Some("12")
    } else if cp == 0x217C {
        Some("50")
    } else if cp == 0x217D {
        Some("100")
    } else if cp == 0x217E {
        Some("500")
    } else if cp == 0x217F {
        Some("1000")
    } else if cp == 0x2180 {
        Some("1000")
    } else if cp == 0x2181 {
        Some("5000")
    } else if cp == 0x2182 {
        Some("10000")
    } else if cp == 0x2185 {
        Some("6")
    } else if cp == 0x2186 {
        Some("50")
    } else if cp == 0x2187 {
        Some("50000")
    } else if cp == 0x2188 {
        Some("100000")
    } else if cp == 0x2189 {
        Some("0")
    } else if cp == 0x2460 {
        Some("1")
    } else if cp == 0x2461 {
        Some("2")
    } else if cp == 0x2462 {
        Some("3")
    } else if cp == 0x2463 {
        Some("4")
    } else if cp == 0x2464 {
        Some("5")
    } else if cp == 0x2465 {
        Some("6")
    } else if cp == 0x2466 {
        Some("7")
    } else if cp == 0x2467 {
        Some("8")
    } else if cp == 0x2468 {
        Some("9")
    } else if cp == 0x2469 {
        Some("10")
    } else if cp == 0x246A {
        Some("11")
    } else if cp == 0x246B {
        Some("12")
    } else if cp == 0x246C {
        Some("13")
    } else if cp == 0x246D {
        Some("14")
    } else if cp == 0x246E {
        Some("15")
    } else if cp == 0x246F {
        Some("16")
    } else if cp == 0x2470 {
        Some("17")
    } else if cp == 0x2471 {
        Some("18")
    } else if cp == 0x2472 {
        Some("19")
    } else if cp == 0x2473 {
        Some("20")
    } else if cp == 0x2474 {
        Some("1")
    } else if cp == 0x2475 {
        Some("2")
    } else if cp == 0x2476 {
        Some("3")
    } else if cp == 0x2477 {
        Some("4")
    } else if cp == 0x2478 {
        Some("5")
    } else if cp == 0x2479 {
        Some("6")
    } else if cp == 0x247A {
        Some("7")
    } else if cp == 0x247B {
        Some("8")
    } else if cp == 0x247C {
        Some("9")
    } else if cp == 0x247D {
        Some("10")
    } else if cp == 0x247E {
        Some("11")
    } else {
        None
    }
}

fn numeric_text_of_2(cp: u32) -> (r: Option<&'static str>)
    ensures
        r == numeric_text_2(cp),
{
    if cp == 0x2167 {
        Some("8")
    } else if cp == 0x2168 {
        Some("9")
    } else if cp == 0x2169 {
        Some("10")
    } else if cp == 0x216A {
        Some("11")
    } else if cp == 0x216B {
        Some("12")
    } else if cp == 0x216C {
        Some("50")
    } else if cp == 0x216D {
        Some("100")
    } else if cp == 0x216E {
        Some("500")
    } else if cp == 0x216F {
        Some("1000")
    } else if cp == 0x2170 {
        Some("1")
    } else if cp == 0x2171 {
        Some("2")
    } else if cp == 0x2172 {
        Some("3")
    } else if cp == 0x2173 {
        Some("4")
    } else if cp == 0x2174 {
        Some("5")
    } else if cp == 0x2175 {
        Some("6")
    } else if cp == 0x2176 {
        Some("7")
    } else if cp == 0x2177 {
        Some("8")
    } else if cp == 0x2178 {
        Some("9")
    } else if cp == 0x2179 {
        Some("10")
    } else if cp == 0x217A {
        Some("11")
    } else if cp == 0x217B {
        Some("12")
    } else if cp == 0x217C {
        Some("50")
    } else if cp == 0x217D {
        Some("100")
    } else if cp == 0x217E {
        Some("500")
    } else if cp == 0x217F {
        Some("1000")
    } else if cp == 0x2180 {
        Some("1000")
    } else if cp == 0x2181 {
        Some("5000")
    } else if cp == 0x2182 {
        Some("10000")
    } else if cp == 0x2185 {
        Some("6")
    } else if cp == 0x2186 {
        Some("50")
    } else if cp == 0x2187 {
        Some("50000")
    } else if cp == 0x2188 {
        Some("100000")
    } else if cp == 0x2189 {
        Some("0")
    } else if cp == 0x2460 {
        Some("1")
    } else if cp == 0x2461 {
        Some("2")
    } else if cp == 0x2462 {
        Some("3")
    } else if cp == 0x2463 {
        Some("4")
    } else if cp == 0x2464 {
        Some("5")
    } else if cp == 0x2465 {
        Some("6")
    } else if cp == 0x2466 {
        Some("7")
    } else if cp == 0x2467 {
        Some("8")
    } else if cp == 0x2468 {
        Some("9")
    } else if cp == 0x2469 {
        Some("10")
    } else if cp == 0x246A {
        Some("11")
    } else if cp == 0x246B {
        Some("12")
    } else if cp == 0x246C {
        Some("13")
    } else if cp == 0x246D {
        Some("14")
    } else if cp == 0x246E {
        Some("15")
    } else if cp == 0x246F {
        Some("16")
    } else if cp == 0x2470 {
        Some("17")
    } else if cp == 0x2471 {
        Some("18")
    } else if cp == 0x2472 {
        Some("19")
    } else if cp == 0x2473 {
        Some("20")
    } else if cp == 0x2474 {
        Some("1")
    } else if cp == 0x2475 {
        Some("2")
    } else if cp == 0x2476 {
        Some("3")
    } else if cp == 0x2477 {
        Some("4")
    } else if cp == 0x2478 {
        Some("5")
    } else if cp == 0x2479 {
        Some("6")
    } else if cp == 0x247A {
        Some("7")
    } else if cp == 0x247B {
        Some("8")
    } else if cp == 0x247C {
        Some("9")
    } else if cp == 0x247D {
        Some("10")
    } else if cp == 0x247E {
        Some("11")
    } else {
        None
    }
}

/// One part of the table [`numeric_text`], by code point.
pub open spec fn numeric_text_3(cp: u32) -> Option<&'static str> {
    if cp == 0x247F {
        Some("12")
    } else if cp == 0x2480 {
        Some("13")
    } else if cp == 0x2481 {
        Some("14")
    } else if cp == 0x2482 {
        Some("15")
    } else if cp == 0x2483 {
        Some("16")
    } else if cp == 0x2484 {
        Some("17")
    } else if cp == 0x2485 {
        Some("18")
    } else if cp == 0x2486 {
        Some("19")
    } else if cp == 0x2487 {
        Some("20")
    } else if cp == 0x2488 {
        Some("1")
    } else if cp == 0x2489 {
        Some("2")
    } else if cp == 0x248A {
        Some("3")
    } else if cp == 0x248B {
        Some("4")
    } else if cp == 0x248C {
        Some("5")
    } else if cp == 0x248D {
        Some("6")
    } else if cp == 0x248E {
        Some("7")
    } else if cp == 0x248F {
        Some("8")
    } else if cp == 0x2490 {
        Some("9")
    } else if cp == 0x2491 {
        Some("10")
    } else if cp == 0x2492 {
        Some("11")
    } else if cp == 0x2493 {
        Some("12")
    } else if cp == 0x2494 {
        Some("13")
    } else if cp == 0x2495 {
        Some("14")
    } else if cp == 0x2496 {
        Some("15")
    } else if cp == 0x2497 {
        Some("16")
    } else if cp == 0x2498 {
        Some("17")
    } else if cp == 0x2499 {
        Some("18")
    } else if cp == 0x249A {
        Some("19")
    } else if cp == 0x249B {
        Some("20")
    } else if cp == 0x24EA {
        Some("0")
    } else if cp == 0x24EB {
        Some("11")
    } else if cp == 0x24EC {
        Some("12")
    } else if cp == 0x24ED {
        Some("13")
    } else if cp == 0x24EE {
        Some("14")
    } else if cp == 0x24EF {
        Some("15")
    } else if cp == 0x24F0 {
        Some("16")
    } else if cp == 0x24F1 {
        Some("17")
    } else if cp == 0x24F2 {
        Some("18")
    } else if cp == 0x24F3 {
        Some("19")
    } else if cp == 0x24F4 {
        Some("20")
    } else if cp == 0x24F5 {
        Some("1")
    } else if cp == 0x24F6 {
        Some("2")
    } else if cp == 0x24F7 {
        Some("3")
    } else if cp == 0x24F8 {
        Some("4")
    } else if cp == 0x24F9 {
        Some("5")
    } else if cp == 0x24FA {
        Some("6")
    } else if cp == 0x24FB {
        Some("7")
    } else if cp == 0x24FC {
        Some("8")
    } else if cp == 0x24FD {
        Some("9")
    } else if cp == 0x24FE {
        Some("10")
    } else if cp == 0x24FF {
        Some("0")
    } else if cp == 0x2776 {
        Some("1")
    } else if cp == 0x2777 {
        Some("2")
    } else if cp == 0x2778 {
        Some("3")
    } else if cp == 0x2779 {
        Some("4")
    } else if cp == 0x277A {
        Some("5")
    } else if cp == 0x277B {
        Some("6")
    } else if cp == 0x277C {
        Some("7")
    } else if cp == 0x277D {
        Some("8")
    } else if cp == 0x277E {
        Some("9")
    } else if cp == 0x277F {
        Some("10")
    } else if cp == 0x2780 {
        Some("1")
    } else if cp == 0x2781 {
        Some("2")
    } else if cp == 0x2782 {
        Some("3")
    } else {
        None
    }
}

fn numeric_text_of_3(cp: u32) -> (r: Option<&'static str>)
    ensures
        r == numeric_text_3(cp),
{
    if cp == 0x247F {
        Some("12")
    } else if cp == 0x2480 {
        Some("13")
    } else if cp == 0x2481 {
        Some("14")
    } else if cp == 0x2482 {
        Some("15")
    } else if cp == 0x2483 {
        Some("16")
    } else if cp == 0x2484 {
        Some("17")
    } else if cp == 0x2485 {
        Some("18")
    } else if cp == 0x2486 {
        Some("19")
    } else if cp == 0x2487 {
        Some("20")
    } else if cp == 0x2488 {
        Some("1")
    } else if cp == 0x2489 {
        Some("2")
    } else if cp == 0x248A {
        Some("3")
    } else if cp == 0x248B {
        Some("4")
    } else if cp == 0x248C {
        Some("5")
    } else if cp == 0x248D {
        Some("6")
    } else if cp == 0x248E {
        Some("7")
    } else if cp == 0x248F {
        Some("8")
    } else if cp == 0x2490 {
        Some("9")
    } else if cp == 0x2491 {
        Some("10")
    } else if cp == 0x2492 {
        Some("11")
    } else if cp == 0x2493 {
        Some("12")
    } else if cp == 0x2494 {
        Some("13")
    } else if cp == 0x2495 {
        Some("14")
    } else if cp == 0x2496 {
        Some("15")
    } else if cp == 0x2497 {
        Some("16")
    } else if cp == 0x2498 {
        Some("17")
    } else if cp == 0x2499 {
        Some("18")
    } else if cp == 0x249A {
        Some("19")
    } else if cp == 0x249B {
        Some("20")
    } else if cp == 0x24EA {
        Some("0")
    } else if cp == 0x24EB {
        Some("11")
    } else if cp == 0x24EC {
        Some("12")
    } else if cp == 0x24ED {
        Some("13")
    } else if cp == 0x24EE {
        Some("14")
    } else if cp == 0x24EF {
        Some("15")
    } else if cp == 0x24F0 {
        Some("16")
    } else if cp == 0x24F1 {
        Some("17")
    } else if cp == 0x24F2 {
        Some("18")
    } else if cp == 0x24F3 {
        Some("19")
    } else if cp == 0x24F4 {
        Some("20")
    } else if cp == 0x24F5 {
        Some("1")
    } else if cp == 0x24F6 {
        Some("2")
    } else if cp == 0x24F7 {
        Some("3")
    } else if cp == 0x24F8 {
        Some("4")
    } else if cp == 0x24F9 {
        Some("5")
    } else if cp == 0x24FA {
        Some("6")
    } else if cp == 0x24FB {
        Some("7")
    } else if cp == 0x24FC {
        Some("8")
    } else if cp == 0x24FD {
        Some("9")
    } else if cp == 0x24FE {
        Some("10")
    } else if cp == 0x24FF {
        Some("0")
    } else if cp == 0x2776 {
        Some("1")
    } else if cp == 0x2777 {
        Some("2")
    } else if cp == 0x2778 {
        Some("3")
    } else if cp == 0x2779 {
        Some("4")
    } else if cp == 0x277A {
        Some("5")
    } else if cp == 0x277B {
        Some("6")
    } else if cp == 0x277C {
        Some("7")
    } else if cp == 0x277D {
        Some("8")
    } else if cp == 0x277E {
        Some("9")
    } else if cp == 0x277F {
        Some("10")
    } else if cp == 0x2780 {
        Some("1")
    } else if cp == 0x2781 {
        Some("2")
    } else if cp == 0x2782 {
        Some("3")
    } else {
        None
    }
}

/// One part of the table [`numeric_text`], by code point.
pub open spec fn numeric_text_4(cp: u32) -> Option<&'static str> {
    if cp == 0x2783 {
        Some("4")
    } else if cp == 0x2784 {
        Some("5")
    } else if cp == 0x2785 {
        Some("6")
    } else if cp == 0x2786 {
        Some("7")
    } else if cp == 0x2787 {
        Some("8")
    } else if cp == 0x2788 {
        Some("9")
    } else if cp == 0x2789 {
        Some("10")
    } else if cp == 0x278A {
        Some("1")
    } else if cp == 0x278B {
        Some("2")
    } else if cp == 0x278C {
        Some("3")
    } else if cp == 0x278D {
        Some("4")
    } else if cp == 0x278E {
        Some("5")
    } else if cp == 0x278F {
        Some("6")
    } else if cp == 0x2790 {
        Some("7")
    } else if cp == 0x2791 {
        Some("8")
    } else if cp == 0x2792 {
        Some("9")
    } else if cp == 0x2793 {
        Some("10")
    } else if cp == 0x2CFD {
        Some("0.5")
    } else if cp == 0x3007 {
        Some("0")
    } else if cp == 0x3021 {
        Some("1")
    } else if cp == 0x3022 {
        Some("2")
    } else if cp == 0x3023 {
        Some("3")
    } else if cp == 0x3024 {
        Some("4")
    } else if cp == 0x3025 {
        Some("5")
    } else if cp == 0x3026 {
        Some("6")
    } else if cp == 0x3027 {
        Some("7")
    } else if cp == 0x3028 {
        Some("8")
    } else if cp == 0x3029 {
        Some("9")
    } else if cp == 0x3038 {
        Some("10")
    } else if cp == 0x3039 {
        Some("20")
    } else if cp == 0x303A {
        Some("30")
    } else if cp == 0x3192 {
        Some("1")
    } else if cp == 0x3193 {
        Some("2")
    } else if cp == 0x3194 {
        Some("3")
    } else if cp == 0x3195 {
        Some("4")
    } else if cp == 0x3220 {
        Some("1")
    } else if cp == 0x3221 {
        Some("2")
    } else if cp == 0x3222 {
        Some("3")
    } else if cp == 0x3223 {
        Some("4")
    } else if cp == 0x3224 {
        Some("5")
    } else if cp == 0x3225 {
        Some("6")
    } else if cp == 0x3226 {
        Some("7")
    } else if cp == 0x3227 {
        Some("8")
    } else if cp == 0x3228 {
        Some("9")
    } else if cp == 0x3229 {
        Some("10")
    } else if cp == 0x3248 {
        Some("10")
    } else if cp == 0x3249 {
        Some("20")
    } else if cp == 0x324A {
        Some("30")
    } else if cp == 0x324B {
        Some("40")
    } else if cp == 0x324C {
        Some("50")
    } else if cp == 0x324D {
        Some("60")
    } else if cp == 0x324E {
        Some("70")
    } else if cp == 0x324F {
        Some("80")
    } else if cp == 0x3251 {
        Some("21")
    } else if cp == 0x3252 {
        Some("22")
    } else if cp == 0x3253 {
        Some("23")
    } else if cp == 0x3254 {
        Some("24")
    } else if cp == 0x3255 {
        Some("25")
    } else if cp == 0x3256 {
        Some("26")
    } else if cp == 0x3257 {
        Some("27")
    } else if cp == 0x3258 {
        Some("28")
    } else if cp == 0x3259 {
        Some("29")
    } else if cp == 0x325A {
        Some("30")
    } else if cp == 0x325B {
        Some("31")
    } else {
        None
    }
}

fn numeric_text_of_4(cp: u32) -> (r: Option<&'static str>)
    ensures
        r == numeric_text_4(cp),
{
    if cp == 0x2783 {
        Some("4")
    } else if cp == 0x2784 {
        Some("5")
    } else if cp == 0x2785 {
        Some("6")
    } else if cp == 0x2786 {
        Some("7")
    } else if cp == 0x2787 {
        Some("8")
    } else if cp == 0x2788 {
        Some("9")
    } else if cp == 0x2789 {
        Some("10")
    } else if cp == 0x278A {
        Some("1")
    } else if cp == 0x278B {
        Some("2")
    } else if cp == 0x278C {
        Some("3")
    } else if cp == 0x278D {
        Some("4")
    } else if cp == 0x278E {
        Some("5")
    } else if cp == 0x278F {
        Some("6")
    } else if cp == 0x2790 {
        Some("7")
    } else if cp == 0x2791 {
        Some("8")
    } else if cp == 0x2792 {
        Some("9")
    } else if cp == 0x2793 {
        Some("10")
    } else if cp == 0x2CFD {
        Some("0.5")
    } else if cp == 0x3007 {
        Some("0")
    } else if cp == 0x3021 {
        Some("1")
    } else if cp == 0x3022 {
        Some("2")
    } else if cp == 0x3023 {
        Some("3")
    } else if cp == 0x3024 {
        Some("4")
    } else if cp == 0x3025 {
        Some("5")
    } else if cp == 0x3026 {
        Some("6")
    } else if cp == 0x3027 {
        Some("7")
    } else if cp == 0x3028 {
        Some("8")
    } else if cp == 0x3029 {
        Some("9")
    } else if cp == 0x3038 {
        Some("10")
    } else if cp == 0x3039 {
        Some("20")
    } else if cp == 0x303A {
        Some("30")
    } else if cp == 0x3192 {
        Some("1")
    } else if cp == 0x3193 {
        Some("2")
    } else if cp == 0x3194 {
        Some("3")
    } else if cp == 0x3195 {
        Some("4")
    } else if cp == 0x3220 {
        Some("1")
    } else if cp == 0x3221 {
        Some("2")
    } else if cp == 0x3222 {
        Some("3")
    } else if cp == 0x3223 {
        Some("4")
    } else if cp == 0x3224 {
        Some("5")
    } else if cp == 0x3225 {
        Some("6")
    } else if cp == 0x3226 {
        Some("7")
    } else if cp == 0x3227 {
        Some("8")
    } else if cp == 0x3228 {
        Some("9")
    } else if cp == 0x3229 {
        Some("10")
    } else if cp == 0x3248 {
        Some("10")
    } else if cp == 0x3249 {
        Some("20")
    } else if cp == 0x324A {
        Some("30")
    } else if cp == 0x324B {
        Some("40")
    } else if cp == 0x324C {
        Some("50")
    } else if cp == 0x324D {
        Some("60")
    } else if cp == 0x324E {
        Some("70")
    } else if cp == 0x324F {
        Some("80")
    } else if cp == 0x3251 {
        Some("21")
    } else if cp == 0x3252 {
        Some("22")
    } else if cp == 0x3253 {
        Some("23")
    } else if cp == 0x3254 {
        Some("24")
    } else if cp == 0x3255 {
        Some("25")
    } else if cp == 0x3256 {
        Some("26")
    } else if cp == 0x3257 {
        Some("27")
    } else if cp == 0x3258 {
        Some("28")
    } else if cp == 0x3259 {
        Some("29")
    } else if cp == 0x325A {
        Some("30")
    } else if cp == 0x325B {
        Some("31")
    } else {
        None
    }
}

/// One part of the table [`numeric_text`], by code point.
pub open spec fn numeric_text_5(cp: u32) -> Option<&'static str> {
    if cp == 0x325C {
        Some("32")
    } else if cp == 0x325D {
        Some("33")
    } else if cp == 0x325E {
        Some("34")
    } else if cp == 0x325F {
        Some("35")
    } else if cp == 0x3280 {
        Some("1")
    } else if cp == 0x3281 {
        Some("2")
    } else if cp == 0x3282 {
        Some("3")
    } else if cp == 0x3283 {
        Some("4")
    } else if cp == 0x3284 {
        Some("5")
    } else if cp == 0x3285 {
        Some("6")
    } else if cp == 0x3286 {
        Some("7")
    } else if cp == 0x3287 {
        Some("8")
    } else if cp == 0x3288 {
        Some("9")
    } else if cp == 0x3289 {
        Some("10")
    } else if cp == 0x32B1 {
        Some("36")
    } else if cp == 0x32B2 {
        Some("37")
    } else if cp == 0x32B3 {
        Some("38")
    } else if cp == 0x32B4 {
        Some("39")
    } else if cp == 0x32B5 {
        Some("40")
    } else if cp == 0x32B6 {
        Some("41")
    } else if cp == 0x32B7 {
        Some("42")
    } else if cp == 0x32B8 {
        Some("43")
    } else if cp == 0x32B9 {
        Some("44")
    } else if cp == 0x32BA {
        Some("45")
    } else if cp == 0x32BB {
        Some("46")
    } else if cp == 0x32BC {
        Some("47")
    } else if cp == 0x32BD {
        Some("48")
    } else if cp == 0x32BE {
        Some("49")
    } else if cp == 0x32BF {
        Some("50")
    } else if cp == 0x3405 {
        Some("5")
    } else if cp == 0x3483 {
        Some("2")
    } else if cp == 0x382A {
        Some("5")
    } else if cp == 0x3B4D {
        Some("7")
    } else if cp == 0x4E00 {
        Some("1")
    } else if cp == 0x4E03 {
        Some("7")
    } else if cp == 0x4E07 {
        Some("10000")
    } else if cp == 0x4E09 {
        Some("3")
    } else if cp == 0x4E5D {
        Some("9")
    } else if cp == 0x4E8C {
        Some("2")
    } else if cp == 0x4E94 {
        Some("5")
    } else if cp == 0x4E96 {
        Some("4")
    } else if cp == 0x4EBF {
        Some("100000000")
    } else if cp == 0x4EC0 {
        Some("10")
    } else if cp == 0x4EDF {
        Some("1000")
    } else if cp == 0x4EE8 {
        Some("3")
    } else if cp == 0x4F0D {
        Some("5")
    } else if cp == 0x4F70 {
        Some("100")
    } else if cp == 0x5104 {
        Some("100000000")
    } else if cp == 0x5146 {
        Some("1000000000000")
    } else if cp == 0x5169 {
        Some("2")
    } else if cp == 0x516B {
        Some("8")
    } else if cp == 0x516D {
        Some("6")
    } else if cp == 0x5341 {
        Some("10")
    } else if cp == 0x5343 {
        Some("1000")
    } else if cp == 0x5344 {
        Some("20")
    } else if cp == 0x5345 {
        Some("30")
    } else if cp == 0x534C {
        Some("40")
    } else if cp == 0x53C1 {
        Some("3")
    } else if cp == 0x53C2 {
        Some("3")
    } else if cp == 0x53C3 {
        Some("3")
    } else if cp == 0x53C4 {
        Some("3")
    } else if cp == 0x56DB {
        Some("4")
    } else if cp == 0x58F1 {
        Some("1")
    } else if cp == 0x58F9 {
        Some("1")
    } else {
        None
    }
}

fn numeric_text_of_5(cp: u32) -> (r: Option<&'static str>)
    ensures
        r == numeric_text_5(cp),
{
    if cp == 0x325C {
        Some("32")
    } else if cp == 0x325D {
        Some("33")
    } else if cp == 0x325E {
        Some("34")
    } else if cp == 0x325F {
        Some("35")
    } else if cp == 0x3280 {
        Some("1")
    } else if cp == 0x3281 {
        Some("2")
    } else if cp == 0x3282 {
        Some("3")
    } else if cp == 0x3283 {
        Some("4")
    } else if cp == 0x3284 {
        Some("5")
    } else if cp == 0x3285 {
        Some("6")
    } else if cp == 0x3286 {
        Some("7")
    } else if cp == 0x3287 {
        Some("8")
    } else if cp == 0x3288 {
        Some("9")
    } else if cp == 0x3289 {
        Some("10")
    } else if cp == 0x32B1 {
        Some("36")
    } else if cp == 0x32B2 {
        Some("37")
    } else if cp == 0x32B3 {
        Some("38")
    } else if cp == 0x32B4 {
        Some("39")
    } else if cp == 0x32B5 {
        Some("40")
    } else if cp == 0x32B6 {
        Some("41")
    } else if cp == 0x32B7 {
        Some("42")
    } else if cp == 0x32B8 {
        Some("43")
    } else if cp == 0x32B9 {
        Some("44")
    } else if cp == 0x32BA {
        Some("45")
    } else if cp == 0x32BB {
        Some("46")
    } else if cp == 0x32BC {
        Some("47")
    } else if cp == 0x32BD {
        Some("48")
    } else if cp == 0x32BE {
        Some("49")
    } else if cp == 0x32BF {
        Some("50")
    } else if cp == 0x3405 {
        Some("5")
    } else if cp == 0x3483 {
        Some("2")
    } else if cp == 0x382A {
        Some("5")
    } else if cp == 0x3B4D {
        Some("7")
    } else if cp == 0x4E00 {
        Some("1")
    } else if cp == 0x4E03 {
        Some("7")
    } else if cp == 0x4E07 {
        Some("10000")
    } else if cp == 0x4E09 {
        Some("3")
    } else if cp == 0x4E5D {
        Some("9")
    } else if cp == 0x4E8C {
        Some("2")
    } else if cp == 0x4E94 {
        Some("5")
    } else if cp == 0x4E96 {
        Some("4")
    } else if cp == 0x4EBF {
        Some("100000000")
    } else if cp == 0x4EC0 {
        Some("10")
    } else if cp == 0x4EDF {
        Some("1000")
    } else if cp == 0x4EE8 {
        Some("3")
    } else if cp == 0x4F0D {
        Some("5")
    } else if cp == 0x4F70 {
        Some("100")
    } else if cp == 0x5104 {
        Some("100000000")
    } else if cp == 0x5146 {
        Some("1000000000000")
    } else if cp == 0x5169 {
        Some("2")
    } else if cp == 0x516B {
        Some("8")
    } else if cp == 0x516D {
        Some("6")
    } else if cp == 0x5341 {
        Some("10")
    } else if cp == 0x5343 {
        Some("1000")
    } else if cp == 0x5344 {
        Some("20")
    } else if cp == 0x5345 {
        Some("30")
    } else if cp == 0x534C {
        Some("40")
    } else if cp == 0x53C1 {
        Some("3")
    } else if cp == 0x53C2 {
        Some("3")
    } else if cp == 0x53C3 {
        Some("3")
    } else if cp == 0x53C4 {
        Some("3")
    } else if cp == 0x56DB {
        Some("4")
    } else if cp == 0x58F1 {
        Some("1")
    } else if cp == 0x58F9 {
        Some("1")
    } else {
        None
    }
}

/// One part of the table [`numeric_text`], by code point.
pub open spec fn numeric_text_6(cp: u32) -> Option<&'static str> {
    if cp == 0x5E7A {
        Some("1")
    } else if cp == 0x5EFE {
        Some("9")
    } else if cp == 0x5EFF {
        Some("20")
    } else if cp == 0x5F0C {
        Some("1")
    } else if cp == 0x5F0D {
        Some("2")
    } else if cp == 0x5F0E {
        Some("3")
    } else if cp == 0x5F10 {
        Some("2")
    } else if cp == 0x62FE {
        Some("10")
    } else if cp == 0x634C {
        Some("8")
    } else if cp == 0x67D2 {
        Some("7")
    } else if cp == 0x6F06 {
        Some("7")
    } else if cp == 0x7396 {
        Some("9")
    } else if cp == 0x767E {
        Some("100")
    } else if cp == 0x8086 {
        Some("4")
    } else if cp == 0x842C {
        Some("10000")
    } else if cp == 0x8CAE {
        Some("2")
    } else if cp == 0x8CB3 {
        Some("2")
    } else if cp == 0x8D30 {
        Some("2")
    } else if cp == 0x9621 {
        Some("1000")
    } else if cp == 0x9646 {
        Some("6")
    } else if cp == 0x964C {
        Some("100")
    } else if cp == 0x9678 {
        Some("6")
    } else if cp == 0x96F6 {
        Some("0")
    } else if cp == 0xA6E6 {
        Some("1")
    } else if cp == 0xA6E7 {
        Some("2")
    } else if cp == 0xA6E8 {
        Some("3")
    } else if cp == 0xA6E9 {
        Some("4")
    } else if cp == 0xA6EA {
        Some("5")
    } else if cp == 0xA6EB {
        Some("6")
    } else if cp == 0xA6EC {
        Some("7")
    } else if cp == 0xA6ED {
        Some("8")
    } else if cp == 0xA6EE {
        Some("9")
    } else if cp == 0xA6EF {
        Some("0")
    } else if cp == 0xA830 {
        Some("0.25")
    } else if cp == 0xA831 {
        Some("0.5")
    } else if cp == 0xA832 {
        Some("0.75")
    } else if cp == 0xA833 {
        Some("0.0625")
    } else if cp == 0xA834 {
        Some("0.125")
    } else if cp == 0xA835 {
        Some("0.1875")
    } else if cp == 0xF96B {
        Some("3")
    } else if cp == 0xF973 {
        Some("10")
    } else if cp == 0xF978 {
        Some("2")
    } else if cp == 0xF9B2 {
        Some("0")
    } else if cp == 0xF9D1 {
        Some("6")
    } else if cp == 0xF9D3 {
        Some("6")
    } else if cp == 0xF9FD {
        Some("10")
    } else if cp == 0x10107 {
        Some("1")
    } else if cp == 0x10108 {
        Some("2")
    } else if cp == 0x10109 {
        Some("3")
    } else if cp == 0x1010A {
        Some("4")
    } else if cp == 0x1010B {
        Some("5")
    } else if cp == 0x1010C {
        Some("6")
    } else if cp == 0x1010D {
        Some("7")
    } else if cp == 0x1010E {
        Some("8")
    } else if cp == 0x1010F {
        Some("9")
    } else if cp == 0x10110 {
        Some("10")
    } else if cp == 0x10111 {
        Some("20")
    } else if cp == 0x10112 {
        Some("30")
    } else if cp == 0x10113 {
        Some("40")
    } else if cp == 0x10114 {
        Some("50")
    } else if cp == 0x10115 {
        Some("60")
    } else if cp == 0x10116 {
        Some("70")
    } else if cp == 0x10117 {
        Some("80")
    } else if cp == 0x10118 {
        Some("90")
    } else {
        None
    }
}

fn numeric_text_of_6(cp: u32) -> (r: Option<&'static str>)
    ensures
        r == numeric_text_6(cp),
{
    if cp == 0x5E7A {
        Some("1")
    } else if cp == 0x5EFE {
        Some("9")
    } else if cp == 0x5EFF {
        Some("20")
    } else if cp == 0x5F0C {
        Some("1")
    } else if cp == 0x5F0D {
        Some("2")
    } else if cp == 0x5F0E {
        Some("3")
    } else if cp == 0x5F10 {
        Some("2")
    } else if cp == 0x62FE {
        Some("10")
    } else if cp == 0x634C {
        Some("8")
    } else if cp == 0x67D2 {
        Some("7")
    } else if cp == 0x6F06 {
        Some("7")
    } else if cp == 0x7396 {
        Some("9")
    } else if cp == 0x767E {
        Some("100")
    } else if cp == 0x8086 {
        Some("4")
    } else if cp == 0x842C {
        Some("10000")
    } else if cp == 0x8CAE {
        Some("2")
    } else if cp == 0x8CB3 {
        Some("2")
    } else if cp == 0x8D30 {
        Some("2")
    } else if cp == 0x9621 {
        Some("1000")
    } else if cp == 0x9646 {
        Some("6")
    } else if cp == 0x964C {
        Some("100")
    } else if cp == 0x9678 {
        Some("6")
    } else if cp == 0x96F6 {
        Some("0")
    } else if cp == 0xA6E6 {
        Some("1")
    } else if cp == 0xA6E7 {
        Some("2")
    } else if cp == 0xA6E8 {
        Some("3")
    } else if cp == 0xA6E9 {
        Some("4")
    } else if cp == 0xA6EA {
        Some("5")
    } else if cp == 0xA6EB {
        Some("6")
    } else if cp == 0xA6EC {
        Some("7")
    } else if cp == 0xA6ED {
        Some("8")
    } else if cp == 0xA6EE {
        Some("9")
    } else if cp == 0xA6EF {
        Some("0")
    } else if cp == 0xA830 {
        Some("0.25")
    } else if cp == 0xA831 {
        Some("0.5")
    } else if cp == 0xA832 {
        Some("0.75")
    } else if cp == 0xA833 {
        Some("0.0625")
    } else if cp == 0xA834 {
        Some("0.125")
    } else if cp == 0xA835 {
        Some("0.1875")
    } else if cp == 0xF96B {
        Some("3")
    } else if cp == 0xF973 {
        Some("10")
    } else if cp == 0xF978 {
        Some("2")
    } else if cp == 0xF9B2 {
        Some("0")
    } else if cp == 0xF9D1 {
        Some("6")
    } else if cp == 0xF9D3 {
        Some("6")
    } else if cp == 0xF9FD {
        Some("10")
    } else if cp == 0x10107 {
        Some("1")
    } else if cp == 0x10108 {
        Some("2")
    } else if cp == 0x10109 {
        Some("3")
    } else if cp == 0x1010A {
        Some("4")
    } else if cp == 0x1010B {
        Some("5")
    } else if cp == 0x1010C {
        Some("6")
    } else if cp == 0x1010D {
        Some("7")
    } else if cp == 0x1010E {
        Some("8")
    } else if cp == 0x1010F {
        Some("9")
    } else if cp == 0x10110 {
        Some("10")
    } else if cp == 0x10111 {
        Some("20")
    } else if cp == 0x10112 {
        Some("30")
    } else if cp == 0x10113 {
        Some("40")
    } else if cp == 0x10114 {
        Some("50")
    } else if cp == 0x10115 {
        Some("60")
    } else if cp == 0x10116 {
        Some("70")
    } else if cp == 0x10117 {
        Some("80")
    } else if cp == 0x10118 {
        Some("90")
    } else {
        None
    }
}

/// One part of the table [`numeric_text`], by code point.
pub open spec fn numeric_text_7(cp: u32) -> Option<&'static str> {
    if cp == 0x10119 {
        Some("100")
    } else if cp == 0x1011A {
        Some("200")
    } else if cp == 0x1011B {
        Some("300")
    } else if cp == 0x1011C {
        Some("400")
    } else if cp == 0x1011D {
        Some("500")
    } else if cp == 0x1011E {
        Some("600")
    } else if cp == 0x1011F {
        Some("700")
    } else if cp == 0x10120 {
        Some("800")
    } else if cp == 0x10121 {
        Some("900")
    } else if cp == 0x10122 {
        Some("1000")
    } else if cp == 0x10123 {
        Some("2000")
    } else if cp == 0x10124 {
        Some("3000")
    } else if cp == 0x10125 {
        Some("4000")
    } else if cp == 0x10126 {
        Some("5000")
    } else if cp == 0x10127 {
        Some("6000")
    } else if cp == 0x10128 {
        Some("7000")
    } else if cp == 0x10129 {
        Some("8000")
    } else if cp == 0x1012A {
        Some("9000")
    } else if cp == 0x1012B {
        Some("10000")
    } else if cp == 0x1012C {
        Some("20000")
    } else if cp == 0x1012D {
        Some("30000")
    } else if cp == 0x1012E {
        Some("40000")
    } else if cp == 0x1012F {
        Some("50000")
    } else if cp == 0x10130 {
        Some("60000")
    } else if cp == 0x10131 {
        Some("70000")
    } else if cp == 0x10132 {
        Some("80000")
    } else if cp == 0x10133 {
        Some("90000")
    } else if cp == 0x10140 {
        Some("0.25")
    } else if cp == 0x10141 {
        Some("0.5")
    } else if cp == 0x10142 {
        Some("1")
    } else if cp == 0x10143 {
        Some("5")
    } else if cp == 0x10144 {
        Some("50")
    } else if cp == 0x10145 {
        Some("500")
    } else if cp == 0x10146 {
        Some("5000")
    } else if cp == 0x10147 {
        Some("50000")
    } else if cp == 0x10148 {
        Some("5")
    } else if cp == 0x10149 {
        Some("10")
    } else if cp == 0x1014A {
        Some("50")
    } else if cp == 0x1014B {
        Some("100")
    } else if cp == 0x1014C {
        Some("500")
    } else if cp == 0x1014D {
        Some("1000")
    } else if cp == 0x1014E {
        Some("5000")
    } else if cp == 0x1014F {
        Some("5")
    } else if cp == 0x10150 {
        Some("10")
    } else if cp == 0x10151 {
        Some("50")
    } else if cp == 0x10152 {
        Some("100")
    } else if cp == 0x10153 {
        Some("500")
    } else if cp == 0x10154 {
        Some("1000")
    } else if cp == 0x10155 {
        Some("10000")
    } else if cp == 0x10156 {
        Some("50000")
    } else if cp == 0x10157 {
        Some("10")
    } else if cp == 0x10158 {
        Some("1")
    } else if cp == 0x10159 {
        Some("1")
    } else if cp == 0x1015A {
        Some("1")
    } else if cp == 0x1015B {
        Some("2")
    } else if cp == 0x1015C {
        Some("2")
    } else if cp == 0x1015D {
        Some("2")
    } else if cp == 0x1015E {
        Some("2")
    } else if cp == 0x1015F {
        Some("5")
    } else if cp == 0x10160 {
        Some("10")
    } else if cp == 0x10161 {
        Some("10")
    } else if cp == 0x10162 {
        Some("10")
    } else if cp == 0x10163 {
        Some("10")
    } else if cp == 0x10164 {
        Some("10")
    } else {
        None
    }
}

fn numeric_text_of_7(cp: u32) -> (r: Option<&'static str>)
    ensures
        r == numeric_text_7(cp),
{
    if cp == 0x10119 {
        Some("100")
    } else if cp == 0x1011A {
        Some("200")
    } else if cp == 0x1011B {
        Some("300")
    } else if cp == 0x1011C {
        Some("400")
    } else if cp == 0x1011D {
        Some("500")
    } else if cp == 0x1011E {
        Some("600")
    } else if cp == 0x1011F {
        Some("700")
    } else if cp == 0x10120 {
        Some("800")
    } else if cp == 0x10121 {
        Some("900")
    } else if cp == 0x10122 {
        Some("1000")
    } else if cp == 0x10123 {
        Some("2000")
    } else if cp == 0x10124 {
        Some("3000")
    } else if cp == 0x10125 {
        Some("4000")
    } else if cp == 0x10126 {
        Some("5000")
    } else if cp == 0x10127 {
        Some("6000")
    } else if cp == 0x10128 {
        Some("7000")
    } else if cp == 0x10129 {
        Some("8000")
    } else if cp == 0x1012A {
        Some("9000")
    } else if cp == 0x1012B {
        Some("10000")
    } else if cp == 0x1012C {
        Some("20000")
    } else if cp == 0x1012D {
        Some("30000")
    } else if cp == 0x1012E {
        Some("40000")
    } else if cp == 0x1012F {
        Some("50000")
    } else if cp == 0x10130 {
        Some("60000")
    } else if cp == 0x10131 {
        Some("70000")
    } else if cp == 0x10132 {
        Some("80000")
    } else if cp == 0x10133 {
        Some("90000")
    } else if cp == 0x10140 {
        Some("0.25")
    } else if cp == 0x10141 {
        Some("0.5")
    } else if cp == 0x10142 {
        Some("1")
    } else if cp == 0x10143 {
        Some("5")
    } else if cp == 0x10144 {
        Some("50")
    } else if cp == 0x10145 {
        Some("500")
    } else if cp == 0x10146 {
        Some("5000")
    } else if cp == 0x10147 {
        Some("50000")
    } else if cp == 0x10148 {
        Some("5")
    } else if cp == 0x10149 {
        Some("10")
    } else if cp == 0x1014A {
        Some("50")
    } else if cp == 0x1014B {
        Some("100")
    } else if cp == 0x1014C {
        Some("500")
    } else if cp == 0x1014D {
        Some("1000")
    } else if cp == 0x1014E {
        Some("5000")
    } else if cp == 0x1014F {
        Some("5")
    } else if cp == 0x10150 {
        Some("10")
    } else if cp == 0x10151 {
        Some("50")
    } else if cp == 0x10152 {
        Some("100")
    } else if cp == 0x10153 {
        Some("500")
    } else if cp == 0x10154 {
        Some("1000")
    } else if cp == 0x10155 {
        Some("10000")
    } else if cp == 0x10156 {
        Some("50000")
    } else if cp == 0x10157 {
        Some("10")
    } else if cp == 0x10158 {
        Some("1")
    } else if cp == 0x10159 {
        Some("1")
    } else if cp == 0x1015A {
        Some("1")
    } else if cp == 0x1015B {
        Some("2")
    } else if cp == 0x1015C {
        Some("2")
    } else if cp == 0x1015D {
        Some("2")
    } else if cp == 0x1015E {
        Some("2")
    } else if cp == 0x1015F {
        Some("5")
    } else if cp == 0x10160 {
        Some("10")
    } else if cp == 0x10161 {
        Some("10")
    } else if cp == 0x10162 {
        Some("10")
    } else if cp == 0x10163 {
        Some("10")
    } else if cp == 0x10164 {
        Some("10")
    } else {
        None
    }
}

/// One part of the table [`numeric_text`], by code point.
pub open spec fn numeric_text_8(cp: u32) -> Option<&'static str> {
    if cp == 0x10165 {
        Some("30")
    } else if cp == 0x10166 {
        Some("50")
    } else if cp == 0x10167 {
        Some("50")
    } else if cp == 0x10168 {
        Some("50")
    } else if cp == 0x10169 {
        Some("50")
    } else if cp == 0x1016A {
        Some("100")
    } else if cp == 0x1016B {
        Some("300")
    } else if cp == 0x1016C {
        Some("500")
    } else if cp == 0x1016D {
        Some("500")
    } else if cp == 0x1016E {
        Some("500")
    } else if cp == 0x1016F {
        Some("500")
    } else if cp == 0x10170 {
        Some("500")
    } else if cp == 0x10171 {
        Some("1000")
    } else if cp == 0x10172 {
        Some("5000")
    } else if cp == 0x10173 {
        Some("5")
    } else if cp == 0x10174 {
        Some("50")
    } else if cp == 0x10175 {
        Some("0.5")
    } else if cp == 0x10176 {
        Some("0.5")
    } else if cp == 0x10177 {
        Some("0.6666666666666666")
    } else if cp == 0x10178 {
        Some("0.75")
    } else if cp == 0x1018A {
        Some("0")
    } else if cp == 0x1018B {
        Some("0.25")
    } else if cp == 0x102E1 {
        Some("1")
    } else if cp == 0x102E2 {
        Some("2")
    } else if cp == 0x102E3 {
        Some("3")
    } else if cp == 0x102E4 {
        Some("4")
    } else if cp == 0x102E5 {
        Some("5")
    } else if cp == 0x102E6 {
        Some("6")
    } else if cp == 0x102E7 {
        Some("7")
    } else if cp == 0x102E8 {
        Some("8")
    } else if cp == 0x102E9 {
        Some("9")
    } else if cp == 0x102EA {
        Some("10")
    } else if cp == 0x102EB {
        Some("20")
    } else if cp == 0x102EC {
        Some("30")
    } else if cp == 0x102ED {
        Some("40")
    } else if cp == 0x102EE {
        Some("50")
    } else if cp == 0x102EF {
        Some("60")
    } else if cp == 0x102F0 {
        Some("70")
    } else if cp == 0x102F1 {
        Some("80")
    } else if cp == 0x102F2 {
        Some("90")
    } else if cp == 0x102F3 {
        Some("100")
    } else if cp == 0x102F4 {
        Some("200")
    } else if cp == 0x102F5 {
        Some("300")
    } else if cp == 0x102F6 {
        Some("400")
    } else if cp == 0x102F7 {
        Some("500")
    } else if cp == 0x102F8 {
        Some("600")
    } else if cp == 0x102F9 {
        Some("700")
    } else if cp == 0x102FA {
        Some("800")
    } else if cp == 0x102FB {
        Some("900")
    } else if cp == 0x10320 {
        Some("1")
    } else if cp == 0x10321 {
        Some("5")
    } else if cp == 0x10322 {
        Some("10")
    } else if cp == 0x10323 {
        Some("50")
    } else if cp == 0x10341 {
        Some("90")
    } else if cp == 0x1034A {
        Some("900")
    } else if cp == 0x103D1 {
        Some("1")
    } else if cp == 0x103D2 {
        Some("2")
    } else if cp == 0x103D3 {
        Some("10")
    } else if cp == 0x103D4 {
        Some("20")
    } else if cp == 0x103D5 {
        Some("100")
    } else if cp == 0x10858 {
        Some("1")
    } else if cp == 0x10859 {
        Some("2")
    } else if cp == 0x1085A {
        Some("3")
    } else if cp == 0x1085B {
        Some("10")
    } else {
        None
    }
}

fn numeric_text_of_8(cp: u32) -> (r: Option<&'static str>)
    ensures
        r == numeric_text_8(cp),
{
    if cp == 0x10165 {
        Some("30")
    } else if cp == 0x10166 {
        Some("50")
    } else if cp == 0x10167 {
        Some("50")
    } else if cp == 0x10168 {
        Some("50")
    } else if cp == 0x10169 {
        Some("50")
    } else if cp == 0x1016A {
        Some("100")
    } else if cp == 0x1016B {
        Some("300")
    } else if cp == 0x1016C {
        Some("500")
    } else if cp == 0x1016D {
        Some("500")
    } else if cp == 0x1016E {
        Some("500")
    } else if cp == 0x1016F {
        Some("500")
    } else if cp == 0x10170 {
        Some("500")
    } else if cp == 0x10171 {
        Some("1000")
    } else if cp == 0x10172 {
        Some("5000")
    } else if cp == 0x10173 {
        Some("5")
    } else if cp == 0x10174 {
        Some("50")
    } else if cp == 0x10175 {
        Some("0.5")
    } else if cp == 0x10176 {
        Some("0.5")
    } else if cp == 0x10177 {
        Some("0.6666666666666666")
    } else if cp == 0x10178 {
        Some("0.75")
    } else if cp == 0x1018A {
        Some("0")
    } else if cp == 0x1018B {
        Some("0.25")
    } else if cp == 0x102E1 {
        Some("1")
    } else if cp == 0x102E2 {
        Some("2")
    } else if cp == 0x102E3 {
        Some("3")
    } else if cp == 0x102E4 {
        Some("4")
    } else if cp == 0x102E5 {
        Some("5")
    } else if cp == 0x102E6 {
        Some("6")
    } else if cp == 0x102E7 {
        Some("7")
    } else if cp == 0x102E8 {
        Some("8")
    } else if cp == 0x102E9 {
        Some("9")
    } else if cp == 0x102EA {
        Some("10")
    } else if cp == 0x102EB {
        Some("20")
    } else if cp == 0x102EC {
        Some("30")
    } else if cp == 0x102ED {
        Some("40")
    } else if cp == 0x102EE {
        Some("50")
    } else if cp == 0x102EF {
        Some("60")
    } else if cp == 0x102F0 {
        Some("70")
    } else if cp == 0x102F1 {
        Some("80")
    } else if cp == 0x102F2 {
        Some("90")
    } else if cp == 0x102F3 {
        Some("100")
    } else if cp == 0x102F4 {
        Some("200")
    } else if cp == 0x102F5 {
        Some("300")
    } else if cp == 0x102F6 {
        Some("400")
    } else if cp == 0x102F7 {
        Some("500")
    } else if cp == 0x102F8 {
        Some("600")
    } else if cp == 0x102F9 {
        Some("700")
    } else if cp == 0x102FA {
        Some("800")
    } else if cp == 0x102FB {
        Some("900")
    } else if cp == 0x10320 {
        Some("1")
    } else if cp == 0x10321 {
        Some("5")
    } else if cp == 0x10322 {
        Some("10")
    } else if cp == 0x10323 {
        Some("50")
    } else if cp == 0x10341 {
        Some("90")
    } else if cp == 0x1034A {
        Some("900")
    } else if cp == 0x103D1 {
        Some("1")
    } else if cp == 0x103D2 {
        Some("2")
    } else if cp == 0x103D3 {
        Some("10")
    } else if cp == 0x103D4 {
        Some("20")
    } else if cp == 0x103D5 {
        Some("100")
    } else if cp == 0x10858 {
        Some("1")
    } else if cp == 0x10859 {
        Some("2")
    } else if cp == 0x1085A {
        Some("3")
    } else if cp == 0x1085B {
        Some("10")
    } else {
        None
    }
}

/// One part of the table [`numeric_text`], by code point.
pub open spec fn numeric_text_9(cp: u32) -> Option<&'static str> {
    if cp == 0x1085C {
        Some("20")
    } else if cp == 0x1085D {
        Some("100")
    } else if cp == 0x1085E {
        Some("1000")
    } else if cp == 0x1085F {
        Some("10000")
    } else if cp == 0x10879 {
        Some("1")
    } else if cp == 0x1087A {
        Some("2")
    } else if cp == 0x1087B {
        Some("3")
    } else if cp == 0x1087C {
        Some("4")
    } else if cp == 0x1087D {
        Some("5")
    } else if cp == 0x1087E {
        Some("10")
    } else if cp == 0x1087F {
        Some("20")
    } else if cp == 0x108A7 {
        Some("1")
    } else if cp == 0x108A8 {
        Some("2")
    } else if cp == 0x108A9 {
        Some("3")
    } else if cp == 0x108AA {
        Some("4")
    } else if cp == 0x108AB {
        Some("4")
    } else if cp == 0x108AC {
        Some("5")
    } else if cp == 0x108AD {
        Some("10")
    } else if cp == 0x108AE {
        Some("20")
    } else if cp == 0x108AF {
        Some("100")
    } else if cp == 0x108FB {
        Some("1")
    } else if cp == 0x108FC {
        Some("5")
    } else if cp == 0x108FD {
        Some("10")
    } else if cp == 0x108FE {
        Some("20")
    } else if cp == 0x108FF {
        Some("100")
    } else if cp == 0x10916 {
        Some("1")
    } else if cp == 0x10917 {
        Some("10")
    } else if cp == 0x10918 {
        Some("20")
    } else if cp == 0x10919 {
        Some("100")
    } else if cp == 0x1091A {
        Some("2")
    } else if cp == 0x1091B {
        Some("3")
    } else if cp == 0x109BC {
        Some("0.9166666666666666")
    } else if cp == 0x109BD {
        Some("0.5")
    } else if cp == 0x109C0 {
        Some("1")
    } else if cp == 0x109C1 {
        Some("2")
    } else if cp == 0x109C2 {
        Some("3")
    } else if cp == 0x109C3 {
        Some("4")
    } else if cp == 0x109C4 {
        Some("5")
    } else if cp == 0x109C5 {
        Some("6")
    } else if cp == 0x109C6 {
        Some("7")
    } else if cp == 0x109C7 {
        Some("8")
    } else if cp == 0x109C8 {
        Some("9")
    } else if cp == 0x109C9 {
        Some("10")
    } else if cp == 0x109CA {
        Some("20")
    } else if cp == 0x109CB {
        Some("30")
    } else if cp == 0x109CC {
        Some("40")
    } else if cp == 0x109CD {
        Some("50")
    } else if cp == 0x109CE {
        Some("60")
    } else if cp == 0x109CF {
        Some("70")
    } else if cp == 0x109D2 {
        Some("100")
    } else if cp == 0x109D3 {
        Some("200")
    } else if cp == 0x109D4 {
        Some("300")
    } else if cp == 0x109D5 {
        Some("400")
    } else if cp == 0x109D6 {
        Some("500")
    } else if cp == 0x109D7 {
        Some("600")
    } else if cp == 0x109D8 {
        Some("700")
    } else if cp == 0x109D9 {
        Some("800")
    } else if cp == 0x109DA {
        Some("900")
    } else if cp == 0x109DB {
        Some("1000")
    } else if cp == 0x109DC {
        Some("2000")
    } else if cp == 0x109DD {
        Some("3000")
    } else if cp == 0x109DE {
        Some("4000")
    } else if cp == 0x109DF {
        Some("5000")
    } else if cp == 0x109E0 {
        Some("6000")
    } else {
        None
    }
}

fn numeric_text_of_9(cp: u32) -> (r: Option<&'static str>)
    ensures
        r == numeric_text_9(cp),
{
    if cp == 0x1085C {
        Some("20")
    } else if cp == 0x1085D {
        Some("100")
    } else if cp == 0x1085E {
        Some("1000")
    } else if cp == 0x1085F {
        Some("10000")
    } else if cp == 0x10879 {
        Some("1")
    } else if cp == 0x1087A {
        Some("2")
    } else if cp == 0x1087B {
        Some("3")
    } else if cp == 0x1087C {
        Some("4")
    } else if cp == 0x1087D {
        Some("5")
    } else if cp == 0x1087E {
        Some("10")
    } else if cp == 0x1087F {
        Some("20")
    } else if cp == 0x108A7 {
        Some("1")
    } else if cp == 0x108A8 {
        Some("2")
    } else if cp == 0x108A9 {
        Some("3")
    } else if cp == 0x108AA {
        Some("4")
    } else if cp == 0x108AB {
        Some("4")
    } else if cp == 0x108AC {
        Some("5")
    } else if cp == 0x108AD {
        Some("10")
    } else if cp == 0x108AE {
        Some("20")
    } else if cp == 0x108AF {
        Some("100")
    } else if cp == 0x108FB {
        Some("1")
    } else if cp == 0x108FC {
        Some("5")
    } else if cp == 0x108FD {
        Some("10")
    } else if cp == 0x108FE {
        Some("20")
    } else if cp == 0x108FF {
        Some("100")
    } else if cp == 0x10916 {
        Some("1")
    } else if cp == 0x10917 {
        Some("10")
    } else if cp == 0x10918 {
        Some("20")
    } else if cp == 0x10919 {
        Some("100")
    } else if cp == 0x1091A {
        Some("2")
    } else if cp == 0x1091B {
        Some("3")
    } else if cp == 0x109BC {
        Some("0.9166666666666666")
    } else if cp == 0x109BD {
        Some("0.5")
    } else if cp == 0x109C0 {
        Some("1")
    } else if cp == 0x109C1 {
        Some("2")
    } else if cp == 0x109C2 {
        Some("3")
    } else if cp == 0x109C3 {
        Some("4")
    } else if cp == 0x109C4 {
        Some("5")
    } else if cp == 0x109C5 {
        Some("6")
    } else if cp == 0x109C6 {
        Some("7")
    } else if cp == 0x109C7 {
        Some("8")
    } else if cp == 0x109C8 {
        Some("9")
    } else if cp == 0x109C9 {
        Some("10")
    } else if cp == 0x109CA {
        Some("20")
    } else if cp == 0x109CB {
        Some("30")
    } else if cp == 0x109CC {
        Some("40")
    } else if cp == 0x109CD {
        Some("50")
    } else if cp == 0x109CE {
        Some("60")
    } else if cp == 0x109CF {
        Some("70")
    } else if cp == 0x109D2 {
        Some("100")
    } else if cp == 0x109D3 {
        Some("200")
    } else if cp == 0x109D4 {
        Some("300")
    } else if cp == 0x109D5 {
        Some("400")
    } else if cp == 0x109D6 {
        Some("500")
    } else if cp == 0x109D7 {
        Some("600")
    } else if cp == 0x109D8 {
        Some("700")
    } else if cp == 0x109D9 {
        Some("800")
    } else if cp == 0x109DA {
        Some("900")
    } else if cp == 0x109DB {
        Some("1000")
    } else if cp == 0x109DC {
        Some("2000")
    } else if cp == 0x109DD {
        Some("3000")
    } else if cp == 0x109DE {
        Some("4000")
    } else if cp == 0x109DF {
        Some("5000")
    } else if cp == 0x109E0 {
        Some("6000")
    } else {
        None
    }
}

/// One part of the table [`numeric_text`], by code point.
pub open spec fn numeric_text_10(cp: u32) -> Option<&'static str> {
    if cp == 0x109E1 {
        Some("7000")
    } else if cp == 0x109E2 {
        Some("8000")
    } else if cp == 0x109E3 {
        Some("9000")
    } else if cp == 0x109E4 {
        Some("10000")
    } else if cp == 0x109E5 {
        Some("20000")
    } else if cp == 0x109E6 {
        Some("30000")
    } else if cp == 0x109E7 {
        Some("40000")
    } else if cp == 0x109E8 {
        Some("50000")
    } else if cp == 0x109E9 {
        Some("60000")
    } else if cp == 0x109EA {
        Some("70000")
    } else if cp == 0x109EB {
        Some("80000")
    } else if cp == 0x109EC {
        Some("90000")
    } else if cp == 0x109ED {
        Some("100000")
    } else if cp == 0x109EE {
        Some("200000")
    } else if cp == 0x109EF {
        Some("300000")
    } else if cp == 0x109F0 {
        Some("400000")
    } else if cp == 0x109F1 {
        Some("500000")
    } else if cp == 0x109F2 {
        Some("600000")
    } else if cp == 0x109F3 {
        Some("700000")
    } else if cp == 0x109F4 {
        Some("800000")
    } else if cp == 0x109F5 {
        Some("900000")
    } else if cp == 0x109F6 {
        Some("0.08333333333333333")
    } else if cp == 0x109F7 {
        Some("0.16666666666666666")
    } else if cp == 0x109F8 {
        Some("0.25")
    } else if cp == 0x109F9 {
        Some("0.3333333333333333")
    } else if cp == 0x109FA {
        Some("0.4166666666666667")
    } else if cp == 0x109FB {
        Some("0.5")
    } else if cp == 0x109FC {
        Some("0.5833333333333334")
    } else if cp == 0x109FD {
        Some("0.6666666666666666")
    } else if cp == 0x109FE {
        Some("0.75")
    } else if cp == 0x109FF {
        Some("0.8333333333333334")
    } else if cp == 0x10A40 {
        Some("1")
    } else if cp == 0x10A41 {
        Some("2")
    } else if cp == 0x10A42 {
        Some("3")
    } else if cp == 0x10A43 {
        Some("4")
    } else if cp == 0x10A44 {
        Some("10")
    } else if cp == 0x10A45 {
        Some("20")
    } else if cp == 0x10A46 {
        Some("100")
    } else if cp == 0x10A47 {
        Some("1000")
    } else if cp == 0x10A48 {
        Some("0.5")
    } else if cp == 0x10A7D {
        Some("1")
    } else if cp == 0x10A7E {
        Some("50")
    } else if cp == 0x10A9D {
        Some("1")
    } else if cp == 0x10A9E {
        Some("10")
    } else if cp == 0x10A9F {
        Some("20")
    } else if cp == 0x10AEB {
        Some("1")
    } else if cp == 0x10AEC {
        Some("5")
    } else if cp == 0x10AED {
        Some("10")
    } else if cp == 0x10AEE {
        Some("20")
    } else if cp == 0x10AEF {
        Some("100")
    } else if cp == 0x10B58 {
        Some("1")
    } else if cp == 0x10B59 {
        Some("2")
    } else if cp == 0x10B5A {
        Some("3")
    } else if cp == 0x10B5B {
        Some("4")
    } else if cp == 0x10B5C {
        Some("10")
    } else if cp == 0x10B5D {
        Some("20")
    } else if cp == 0x10B5E {
        Some("100")
    } else if cp == 0x10B5F {
        Some("1000")
    } else if cp == 0x10B78 {
        Some("1")
    } else if cp == 0x10B79 {
        Some("2")
    } else if cp == 0x10B7A {
        Some("3")
    } else if cp == 0x10B7B {
        Some("4")
    } else if cp == 0x10B7C {
        Some("10")
    } else if cp == 0x10B7D {
        Some("20")
    } else {
        None
    }
}

fn numeric_text_of_10(cp: u32) -> (r: Option<&'static str>)
    ensures
        r == numeric_text_10(cp),
{
    if cp == 0x109E1 {
        Some("7000")
    } else if cp == 0x109E2 {
        Some("8000")
    } else if cp == 0x109E3 {
        Some("9000")
    } else if cp == 0x109E4 {
        Some("10000")
    } else if cp == 0x109E5 {
        Some("20000")
    } else if cp == 0x109E6 {
        Some("30000")
    } else if cp == 0x109E7 {
        Some("40000")
    } else if cp == 0x109E8 {
        Some("50000")
    } else if cp == 0x109E9 {
        Some("60000")
    } else if cp == 0x109EA {
        Some("70000")
    } else if cp == 0x109EB {
        Some("80000")
    } else if cp == 0x109EC {
        Some("90000")
    } else if cp == 0x109ED {
        Some("100000")
    } else if cp == 0x109EE {
        Some("200000")
    } else if cp == 0x109EF {
        Some("300000")
    } else if cp == 0x109F0 {
        Some("400000")
    } else if cp == 0x109F1 {
        Some("500000")
    } else if cp == 0x109F2 {
        Some("600000")
    } else if cp == 0x109F3 {
        Some("700000")
    } else if cp == 0x109F4 {
        Some("800000")
    } else if cp == 0x109F5 {
        Some("900000")
    } else if cp == 0x109F6 {
        Some("0.08333333333333333")
    } else if cp == 0x109F7 {
        Some("0.16666666666666666")
    } else if cp == 0x109F8 {
        Some("0.25")
    } else if cp == 0x109F9 {
        Some("0.3333333333333333")
    } else if cp == 0x109FA {
        Some("0.4166666666666667")
    } else if cp == 0x109FB {
        Some("0.5")
    } else if cp == 0x109FC {
        Some("0.5833333333333334")
    } else if cp == 0x109FD {
        Some("0.6666666666666666")
    } else if cp == 0x109FE {
        Some("0.75")
    } else if cp == 0x109FF {
        Some("0.8333333333333334")
    } else if cp == 0x10A40 {
        Some("1")
    } else if cp == 0x10A41 {
        Some("2")
    } else if cp == 0x10A42 {
        Some("3")
    } else if cp == 0x10A43 {
        Some("4")
    } else if cp == 0x10A44 {
        Some("10")
    } else if cp == 0x10A45 {
        Some("20")
    } else if cp == 0x10A46 {
        Some("100")
    } else if cp == 0x10A47 {
        Some("1000")
    } else if cp == 0x10A48 {
        Some("0.5")
    } else if cp == 0x10A7D {
        Some("1")
    } else if cp == 0x10A7E {
        Some("50")
    } else if cp == 0x10A9D {
        Some("1")
    } else if cp == 0x10A9E {
        Some("10")
    } else if cp == 0x10A9F {
        Some("20")
    } else if cp == 0x10AEB {
        Some("1")
    } else if cp == 0x10AEC {
        Some("5")
    } else if cp == 0x10AED {
        Some("10")
    } else if cp == 0x10AEE {
        Some("20")
    } else if cp == 0x10AEF {
        Some("100")
    } else if cp == 0x10B58 {
        Some("1")
    } else if cp == 0x10B59 {
        Some("2")
    } else if cp == 0x10B5A {
        Some("3")
    } else if cp == 0x10B5B {
        Some("4")
    } else if cp == 0x10B5C {
        Some("10")
    } else if cp == 0x10B5D {
        Some("20")
    } else if cp == 0x10B5E {
        Some("100")
    } else if cp == 0x10B5F {
        Some("1000")
    } else if cp == 0x10B78 {
        Some("1")
    } else if cp == 0x10B79 {
        Some("2")
    } else if cp == 0x10B7A {
        Some("3")
    } else if cp == 0x10B7B {
        Some("4")
    } else if cp == 0x10B7C {
        Some("10")
    } else if cp == 0x10B7D {
        Some("20")
    } else {
        None
    }
}

/// One part of the table [`numeric_text`], by code point.
pub open spec fn numeric_text_11(cp: u32) -> Option<&'static str> {
    if cp == 0x10B7E {
        Some("100")
    } else if cp == 0x10B7F {
        Some("1000")
    } else if cp == 0x10BA9 {
        Some("1")
    } else if cp == 0x10BAA {
        Some("2")
    } else if cp == 0x10BAB {
        Some("3")
    } else if cp == 0x10BAC {
        Some("4")
    } else if cp == 0x10BAD {
        Some("10")
    } else if cp == 0x10BAE {
        Some("20")
    } else if cp == 0x10BAF {
        Some("100")
    } else if cp == 0x10CFA {
        Some("1")
    } else if cp == 0x10CFB {
        Some("5")
    } else if cp == 0x10CFC {
        Some("10")
    } else if cp == 0x10CFD {
        Some("50")
    } else if cp == 0x10CFE {
        Some("100")
    } else if cp == 0x10CFF {
        Some("1000")
    } else if cp == 0x10E60 {
        Some("1")
    } else if cp == 0x10E61 {
        Some("2")
    } else if cp == 0x10E62 {
        Some("3")
    } else if cp == 0x10E63 {
        Some("4")
    } else if cp == 0x10E64 {
        Some("5")
    } else if cp == 0x10E65 {
        Some("6")
    } else if cp == 0x10E66 {
        Some("7")
    } else if cp == 0x10E67 {
        Some("8")
    } else if cp == 0x10E68 {
        Some("9")
    } else if cp == 0x10E69 {
        Some("10")
    } else if cp == 0x10E6A {
        Some("20")
    } else if cp == 0x10E6B {
        Some("30")
    } else if cp == 0x10E6C {
        Some("40")
    } else if cp == 0x10E6D {
        Some("50")
    } else if cp == 0x10E6E {
        Some("60")
    } else if cp == 0x10E6F {
        Some("70")
    } else if cp == 0x10E70 {
        Some("80")
    } else if cp == 0x10E71 {
        Some("90")
    } else if cp == 0x10E72 {
        Some("100")
    } else if cp == 0x10E73 {
        Some("200")
    } else if cp == 0x10E74 {
        Some("300")
    } else if cp == 0x10E75 {
        Some("400")
    } else if cp == 0x10E76 {
        Some("500")
    } else if cp == 0x10E77 {
        Some("600")
    } else if cp == 0x10E78 {
        Some("700")
    } else if cp == 0x10E79 {
        Some("800")
    } else if cp == 0x10E7A {
        Some("900")
    } else if cp == 0x10E7B {
        Some("0.5")
    } else if cp == 0x10E7C {
        Some("0.25")
    } else if cp == 0x10E7D {
        Some("0.3333333333333333")
    } else if cp == 0x10E7E {
        Some("0.6666666666666666")
    } else if cp == 0x10F1D {
        Some("1")
    } else if cp == 0x10F1E {
        Some("2")
    } else if cp == 0x10F1F {
        Some("3")
    } else if cp == 0x10F20 {
        Some("4")
    } else if cp == 0x10F21 {
        Some("5")
    } else if cp == 0x10F22 {
        Some("10")
    } else if cp == 0x10F23 {
        Some("20")
    } else if cp == 0x10F24 {
        Some("30")
    } else if cp == 0x10F25 {
        Some("100")
    } else if cp == 0x10F26 {
        Some("0.5")
    } else if cp == 0x10F51 {
        Some("1")
    } else if cp == 0x10F52 {
        Some("10")
    } else if cp == 0x10F53 {
        Some("20")
    } else if cp == 0x10F54 {
        Some("100")
    } else if cp == 0x10FC5 {
        Some("1")
    } else if cp == 0x10FC6 {
        Some("2")
    } else if cp == 0x10FC7 {
        Some("3")
    } else if cp == 0x10FC8 {
        Some("4")
    } else {
        None
    }
}

fn numeric_text_of_11(cp: u32) -> (r: Option<&'static str>)
    ensures
        r == numeric_text_11(cp),
{
    if cp == 0x10B7E {
        Some("100")
    } else if cp == 0x10B7F {
        Some("1000")
    } else if cp == 0x10BA9 {
        Some("1")
    } else if cp == 0x10BAA {
        Some("2")
    } else if cp == 0x10BAB {
        Some("3")
    } else if cp == 0x10BAC {
        Some("4")
    } else if cp == 0x10BAD {
        Some("10")
    } else if cp == 0x10BAE {
        Some("20")
    } else if cp == 0x10BAF {
        Some("100")
    } else if cp == 0x10CFA {
        Some("1")
    } else if cp == 0x10CFB {
        Some("5")
    } else if cp == 0x10CFC {
        Some("10")
    } else if cp == 0x10CFD {
        Some("50")
    } else if cp == 0x10CFE {
        Some("100")
    } else if cp == 0x10CFF {
        Some("1000")
    } else if cp == 0x10E60 {
        Some("1")
    } else if cp == 0x10E61 {
        Some("2")
    } else if cp == 0x10E62 {
        Some("3")
    } else if cp == 0x10E63 {
        Some("4")
    } else if cp == 0x10E64 {
        Some("5")
    } else if cp == 0x10E65 {
        Some("6")
    } else if cp == 0x10E66 {
        Some("7")
    } else if cp == 0x10E67 {
        Some("8")
    } else if cp == 0x10E68 {
        Some("9")
    } else if cp == 0x10E69 {
        Some("10")
    } else if cp == 0x10E6A {
        Some("20")
    } else if cp == 0x10E6B {
        Some("30")
    } else if cp == 0x10E6C {
        Some("40")
    } else if cp == 0x10E6D {
        Some("50")
    } else if cp == 0x10E6E {
        Some("60")
    } else if cp == 0x10E6F {
        Some("70")
    } else if cp == 0x10E70 {
        Some("80")
    } else if cp == 0x10E71 {
        Some("90")
    } else if cp == 0x10E72 {
        Some("100")
    } else if cp == 0x10E73 {
        Some("200")
    } else if cp == 0x10E74 {
        Some("300")
    } else if cp == 0x10E75 {
        Some("400")
    } else if cp == 0x10E76 {
        Some("500")
    } else if cp == 0x10E77 {
        Some("600")
    } else if cp == 0x10E78 {
        Some("700")
    } else if cp == 0x10E79 {
        Some("800")
    } else if cp == 0x10E7A {
        Some("900")
    } else if cp == 0x10E7B {
        Some("0.5")
    } else if cp == 0x10E7C {
        Some("0.25")
    } else if cp == 0x10E7D {
        Some("0.3333333333333333")
    } else if cp == 0x10E7E {
        Some("0.6666666666666666")
    } else if cp == 0x10F1D {
        Some("1")
    } else if cp == 0x10F1E {
        Some("2")
    } else if cp == 0x10F1F {
        Some("3")
    } else if cp == 0x10F20 {
        Some("4")
    } else if cp == 0x10F21 {
        Some("5")
    } else if cp == 0x10F22 {
        Some("10")
    } else if cp == 0x10F23 {
        Some("20")
    } else if cp == 0x10F24 {
        Some("30")
    } else if cp == 0x10F25 {
        Some("100")
    } else if cp == 0x10F26 {
        Some("0.5")
    } else if cp == 0x10F51 {
        Some("1")
    } else if cp == 0x10F52 {
        Some("10")
    } else if cp == 0x10F53 {
        Some("20")
    } else if cp == 0x10F54 {
        Some("100")
    } else if cp == 0x10FC5 {
        Some("1")
    } else if cp == 0x10FC6 {
        Some("2")
    } else if cp == 0x10FC7 {
        Some("3")
    } else if cp == 0x10FC8 {
        Some("4")
    } else {
        None
    }
}

/// One part of the table [`numeric_text`], by code point.
pub open spec fn numeric_text_12(cp: u32) -> Option<&'static str> {
    if cp == 0x10FC9 {
        Some("10")
    } else if cp == 0x10FCA {
        Some("20")
    } else if cp == 0x10FCB {
        Some("100")
    } else if cp == 0x11052 {
        Some("1")
    } else if cp == 0x11053 {
        Some("2")
    } else if cp == 0x11054 {
        Some("3")
    } else if cp == 0x11055 {
        Some("4")
    } else if cp == 0x11056 {
        Some("5")
    } else if cp == 0x11057 {
        Some("6")
    } else if cp == 0x11058 {
        Some("7")
    } else if cp == 0x11059 {
        Some("8")
    } else if cp == 0x1105A {
        Some("9")
    } else if cp == 0x1105B {
        Some("10")
    } else if cp == 0x1105C {
        Some("20")
    } else if cp == 0x1105D {
        Some("30")
    } else if cp == 0x1105E {
        Some("40")
    } else if cp == 0x1105F {
        Some("50")
    } else if cp == 0x11060 {
        Some("60")
    } else if cp == 0x11061 {
        Some("70")
    } else if cp == 0x11062 {
        Some("80")
    } else if cp == 0x11063 {
        Some("90")
    } else if cp == 0x11064 {
        Some("100")
    } else if cp == 0x11065 {
        Some("1000")
    } else if cp == 0x111E1 {
        Some("1")
    } else if cp == 0x111E2 {
        Some("2")
    } else if cp == 0x111E3 {
        Some("3")
    } else if cp == 0x111E4 {
        Some("4")
    } else if cp == 0x111E5 {
        Some("5")
    } else if cp == 0x111E6 {
        Some("6")
    } else if cp == 0x111E7 {
        Some("7")
    } else if cp == 0x111E8 {
        Some("8")
    } else if cp == 0x111E9 {
        Some("9")
    } else if cp == 0x111EA {
        Some("10")
    } else if cp == 0x111EB {
        Some("20")
    } else if cp == 0x111EC {
        Some("30")
    } else if cp == 0x111ED {
        Some("40")
    } else if cp == 0x111EE {
        Some("50")
    } else if cp == 0x111EF {
        Some("60")
    } else if cp == 0x111F0 {
        Some("70")
    } else if cp == 0x111F1 {
        Some("80")
    } else if cp == 0x111F2 {
        Some("90")
    } else if cp == 0x111F3 {
        Some("100")
    } else if cp == 0x111F4 {
        Some("1000")
    } else if cp == 0x1173A {
        Some("10")
    } else if cp == 0x1173B {
        Some("20")
    } else if cp == 0x118EA {
        Some("10")
    } else if cp == 0x118EB {
        Some("20")
    } else if cp == 0x118EC {
        Some("30")
    } else if cp == 0x118ED {
        Some("40")
    } else if cp == 0x118EE {
        Some("50")
    } else if cp == 0x118EF {
        Some("60")
    } else if cp == 0x118F0 {
        Some("70")
    } else if cp == 0x118F1 {
        Some("80")
    } else if cp == 0x118F2 {
        Some("90")
    } else if cp == 0x11C5A {
        Some("1")
    } else if cp == 0x11C5B {
        Some("2")
    } else if cp == 0x11C5C {
        Some("3")
    } else if cp == 0x11C5D {
        Some("4")
    } else if cp == 0x11C5E {
        Some("5")
    } else if cp == 0x11C5F {
        Some("6")
    } else if cp == 0x11C60 {
        Some("7")
    } else if cp == 0x11C61 {
        Some("8")
    } else if cp == 0x11C62 {
        Some("9")
    } else if cp == 0x11C63 {
        Some("10")
    } else {
        None
    }
}

fn numeric_text_of_12(cp: u32) -> (r: Option<&'static str>)
    ensures
        r == numeric_text_12(cp),
{
    if cp == 0x10FC9 {
        Some("10")
    } else if cp == 0x10FCA {
        Some("20")
    } else if cp == 0x10FCB {
        Some("100")
    } else if cp == 0x11052 {
        Some("1")
    } else if cp == 0x11053 {
        Some("2")
    } else if cp == 0x11054 {
        Some("3")
    } else if cp == 0x11055 {
        Some("4")
    } else if cp == 0x11056 {
        Some("5")
    } else if cp == 0x11057 {
        Some("6")
    } else if cp == 0x11058 {
        Some("7")
    } else if cp == 0x11059 {
        Some("8")
    } else if cp == 0x1105A {
        Some("9")
    } else if cp == 0x1105B {
        Some("10")
    } else if cp == 0x1105C {
        Some("20")
    } else if cp == 0x1105D {
        Some("30")
    } else if cp == 0x1105E {
        Some("40")
    } else if cp == 0x1105F {
        Some("50")
    } else if cp == 0x11060 {
        Some("60")
    } else if cp == 0x11061 {
        Some("70")
    } else if cp == 0x11062 {
        Some("80")
    } else if cp == 0x11063 {
        Some("90")
    } else if cp == 0x11064 {
        Some("100")
    } else if cp == 0x11065 {
        Some("1000")
    } else if cp == 0x111E1 {
        Some("1")
    } else if cp == 0x111E2 {
        Some("2")
    } else if cp == 0x111E3 {
        Some("3")
    } else if cp == 0x111E4 {
        Some("4")
    } else if cp == 0x111E5 {
        Some("5")
    } else if cp == 0x111E6 {
        Some("6")
    } else if cp == 0x111E7 {
        Some("7")
    } else if cp == 0x111E8 {
        Some("8")
    } else if cp == 0x111E9 {
        Some("9")
    } else if cp == 0x111EA {
        Some("10")
    } else if cp == 0x111EB {
        Some("20")
    } else if cp == 0x111EC {
        Some("30")
    } else if cp == 0x111ED {
        Some("40")
    } else if cp == 0x111EE {
        Some("50")
    } else if cp == 0x111EF {
        Some("60")
    } else if cp == 0x111F0 {
        Some("70")
    } else if cp == 0x111F1 {
        Some("80")
    } else if cp == 0x111F2 {
        Some("90")
    } else if cp == 0x111F3 {
        Some("100")
    } else if cp == 0x111F4 {
        Some("1000")
    } else if cp == 0x1173A {
        Some("10")
    } else if cp == 0x1173B {
        Some("20")
    } else if cp == 0x118EA {
        Some("10")
    } else if cp == 0x118EB {
        Some("20")
    } else if cp == 0x118EC {
        Some("30")
    } else if cp == 0x118ED {
        Some("40")
    } else if cp == 0x118EE {
        Some("50")
    } else if cp == 0x118EF {
        Some("60")
    } else if cp == 0x118F0 {
        Some("70")
    } else if cp == 0x118F1 {
        Some("80")
    } else if cp == 0x118F2 {
        Some("90")
    } else if cp == 0x11C5A {
        Some("1")
    } else if cp == 0x11C5B {
        Some("2")
    } else if cp == 0x11C5C {
        Some("3")
    } else if cp == 0x11C5D {
        Some("4")
    } else if cp == 0x11C5E {
        Some("5")
    } else if cp == 0x11C5F {
        Some("6")
    } else if cp == 0x11C60 {
        Some("7")
    } else if cp == 0x11C61 {
        Some("8")
    } else if cp == 0x11C62 {
        Some("9")
    } else if cp == 0x11C63 {
        Some("10")
    } else {
        None
    }
}

/// One part of the table [`numeric_text`], by code point.
pub open spec fn numeric_text_13(cp: u32) -> Option<&'static str> {
    if cp == 0x11C64 {
        Some("20")
    } else if cp == 0x11C65 {
        Some("30")
    } else if cp == 0x11C66 {
        Some("40")
    } else if cp == 0x11C67 {
        Some("50")
    } else if cp == 0x11C68 {
        Some("60")
    } else if cp == 0x11C69 {
        Some("70")
    } else if cp == 0x11C6A {
        Some("80")
    } else if cp == 0x11C6B {
        Some("90")
    } else if cp == 0x11C6C {
        Some("100")
    } else if cp == 0x11FC0 {
        Some("0.003125")
    } else if cp == 0x11FC1 {
        Some("0.00625")
    } else if cp == 0x11FC2 {
        Some("0.0125")
    } else if cp == 0x11FC3 {
        Some("0.015625")
    } else if cp == 0x11FC4 {
        Some("0.025")
    } else if cp == 0x11FC5 {
        Some("0.03125")
    } else if cp == 0x11FC6 {
        Some("0.0375")
    } else if cp == 0x11FC7 {
        Some("0.046875")
    } else if cp == 0x11FC8 {
        Some("0.05")
    } else if cp == 0x11FC9 {
        Some("0.0625")
    } else if cp == 0x11FCA {
        Some("0.0625")
    } else if cp == 0x11FCB {
        Some("0.1")
    } else if cp == 0x11FCC {
        Some("0.125")
    } else if cp == 0x11FCD {
        Some("0.15")
    } else if cp == 0x11FCE {
        Some("0.1875")
    } else if cp == 0x11FCF {
        Some("0.2")
    } else if cp == 0x11FD0 {
        Some("0.25")
    } else if cp == 0x11FD1 {
        Some("0.5")
    } else if cp == 0x11FD2 {
        Some("0.5")
    } else if cp == 0x11FD3 {
        Some("0.75")
    } else if cp == 0x11FD4 {
        Some("0.003125")
    } else if cp == 0x12400 {
        Some("2")
    } else if cp == 0x12401 {
        Some("3")
    } else if cp == 0x12402 {
        Some("4")
    } else if cp == 0x12403 {
        Some("5")
    } else if cp == 0x12404 {
        Some("6")
    } else if cp == 0x12405 {
        Some("7")
    } else if cp == 0x12406 {
        Some("8")
    } else if cp == 0x12407 {
        Some("9")
    } else if cp == 0x12408 {
        Some("3")
    } else if cp == 0x12409 {
        Some("4")
    } else if cp == 0x1240A {
        Some("5")
    } else if cp == 0x1240B {
        Some("6")
    } else if cp == 0x1240C {
        Some("7")
    } else if cp == 0x1240D {
        Some("8")
    } else if cp == 0x1240E {
        Some("9")
    } else if cp == 0x1240F {
        Some("4")
    } else if cp == 0x12410 {
        Some("5")
    } else if cp == 0x12411 {
        Some("6")
    } else if cp == 0x12412 {
        Some("7")
    } else if cp == 0x12413 {
        Some("8")
    } else if cp == 0x12414 {
        Some("9")
    } else if cp == 0x12415 {
        Some("1")
    } else if cp == 0x12416 {
        Some("2")
    } else if cp == 0x12417 {
        Some("3")
    } else if cp == 0x12418 {
        Some("4")
    } else if cp == 0x12419 {
        Some("5")
    } else if cp == 0x1241A {
        Some("6")
    } else if cp == 0x1241B {
        Some("7")
    } else if cp == 0x1241C {
        Some("8")
    } else if cp == 0x1241D {
        Some("9")
    } else if cp == 0x1241E {
        Some("1")
    } else if cp == 0x1241F {
        Some("2")
    } else if cp == 0x12420 {
        Some("3")
    } else if cp == 0x12421 {
        Some("4")
    } else {
        None
    }
}

fn numeric_text_of_13(cp: u32) -> (r: Option<&'static str>)
    ensures
        r == numeric_text_13(cp),
{
    if cp == 0x11C64 {
        Some("20")
    } else if cp == 0x11C65 {
        Some("30")
    } else if cp == 0x11C66 {
        Some("40")
    } else if cp == 0x11C67 {
        Some("50")
    } else if cp == 0x11C68 {
        Some("60")
    } else if cp == 0x11C69 {
        Some("70")
    } else if cp == 0x11C6A {
        Some("80")
    } else if cp == 0x11C6B {
        Some("90")
    } else if cp == 0x11C6C {
        Some("100")
    } else if cp == 0x11FC0 {
        Some("0.003125")
    } else if cp == 0x11FC1 {
        Some("0.00625")
    } else if cp == 0x11FC2 {
        Some("0.0125")
    } else if cp == 0x11FC3 {
        Some("0.015625")
    } else if cp == 0x11FC4 {
        Some("0.025")
    } else if cp == 0x11FC5 {
        Some("0.03125")
    } else if cp == 0x11FC6 {
        Some("0.0375")
    } else if cp == 0x11FC7 {
        Some("0.046875")
    } else if cp == 0x11FC8 {
        Some("0.05")
    } else if cp == 0x11FC9 {
        Some("0.0625")
    } else if cp == 0x11FCA {
        Some("0.0625")
    } else if cp == 0x11FCB {
        Some("0.1")
    } else if cp == 0x11FCC {
        Some("0.125")
    } else if cp == 0x11FCD {
        Some("0.15")
    } else if cp == 0x11FCE {
        Some("0.1875")
    } else if cp == 0x11FCF {
        Some("0.2")
    } else if cp == 0x11FD0 {
        Some("0.25")
    } else if cp == 0x11FD1 {
        Some("0.5")
    } else if cp == 0x11FD2 {
        Some("0.5")
    } else if cp == 0x11FD3 {
        Some("0.75")
    } else if cp == 0x11FD4 {
        Some("0.003125")
    } else if cp == 0x12400 {
        Some("2")
    } else if cp == 0x12401 {
        Some("3")
    } else if cp == 0x12402 {
        Some("4")
    } else if cp == 0x12403 {
        Some("5")
    } else if cp == 0x12404 {
        Some("6")
    } else if cp == 0x12405 {
        Some("7")
    } else if cp == 0x12406 {
        Some("8")
    } else if cp == 0x12407 {
        Some("9")
    } else if cp == 0x12408 {
        Some("3")
    } else if cp == 0x12409 {
        Some("4")
    } else if cp == 0x1240A {
        Some("5")
    } else if cp == 0x1240B {
        Some("6")
    } else if cp == 0x1240C {
        Some("7")
    } else if cp == 0x1240D {
        Some("8")
    } else if cp == 0x1240E {
        Some("9")
    } else if cp == 0x1240F {
        Some("4")
    } else if cp == 0x12410 {
        Some("5")
    } else if cp == 0x12411 {
        Some("6")
    } else if cp == 0x12412 {
        Some("7")
    } else if cp == 0x12413 {
        Some("8")
    } else if cp == 0x12414 {
        Some("9")
    } else if cp == 0x12415 {
        Some("1")
    } else if cp == 0x12416 {
        Some("2")
    } else if cp == 0x12417 {
        Some("3")
    } else if cp == 0x12418 {
        Some("4")
    } else if cp == 0x12419 {
        Some("5")
    } else if cp == 0x1241A {
        Some("6")
    } else if cp == 0x1241B {
        Some("7")
    } else if cp == 0x1241C {
        Some("8")
    } else if cp == 0x1241D {
        Some("9")
    } else if cp == 0x1241E {
        Some("1")
    } else if cp == 0x1241F {
        Some("2")
    } else if cp == 0x12420 {
        Some("3")
    } else if cp == 0x12421 {
        Some("4")
    } else {
        None
    }
}

/// One part of the table [`numeric_text`], by code point.
pub open spec fn numeric_text_14(cp: u32) -> Option<&'static str> {
    if cp == 0x12422 {
        Some("5")
    } else if cp == 0x12423 {
        Some("2")
    } else if cp == 0x12424 {
        Some("3")
    } else if cp == 0x12425 {
        Some("3")
    } else if cp == 0x12426 {
        Some("4")
    } else if cp == 0x12427 {
        Some("5")
    } else if cp == 0x12428 {
        Some("6")
    } else if cp == 0x12429 {
        Some("7")
    } else if cp == 0x1242A {
        Some("8")
    } else if cp == 0x1242B {
        Some("9")
    } else if cp == 0x1242C {
        Some("1")
    } else if cp == 0x1242D {
        Some("2")
    } else if cp == 0x1242E {
        Some("3")
    } else if cp == 0x1242F {
        Some("3")
    } else if cp == 0x12430 {
        Some("4")
    } else if cp == 0x12431 {
        Some("5")
    } else if cp == 0x12432 {
        Some("216000")
    } else if cp == 0x12433 {
        Some("432000")
    } else if cp == 0x12434 {
        Some("1")
    } else if cp == 0x12435 {
        Some("2")
    } else if cp == 0x12436 {
        Some("3")
    } else if cp == 0x12437 {
        Some("3")
    } else if cp == 0x12438 {
        Some("4")
    } else if cp == 0x12439 {
        Some("5")
    } else if cp == 0x1243A {
        Some("3")
    } else if cp == 0x1243B {
        Some("3")
    } else if cp == 0x1243C {
        Some("4")
    } else if cp == 0x1243D {
        Some("4")
    } else if cp == 0x1243E {
        Some("4")
    } else if cp == 0x1243F {
        Some("4")
    } else if cp == 0x12440 {
        Some("6")
    } else if cp == 0x12441 {
        Some("7")
    } else if cp == 0x12442 {
        Some("7")
    } else if cp == 0x12443 {
        Some("7")
    } else if cp == 0x12444 {
        Some("8")
    } else if cp == 0x12445 {
        Some("8")
    } else if cp == 0x12446 {
        Some("9")
    } else if cp == 0x12447 {
        Some("9")
    } else if cp == 0x12448 {
        Some("9")
    } else if cp == 0x12449 {
        Some("9")
    } else if cp == 0x1244A {
        Some("2")
    } else if cp == 0x1244B {
        Some("3")
    } else if cp == 0x1244C {
        Some("4")
    } else if cp == 0x1244D {
        Some("5")
    } else if cp == 0x1244E {
        Some("6")
    } else if cp == 0x1244F {
        Some("1")
    } else if cp == 0x12450 {
        Some("2")
    } else if cp == 0x12451 {
        Some("3")
    } else if cp == 0x12452 {
        Some("4")
    } else if cp == 0x12453 {
        Some("4")
    } else if cp == 0x12454 {
        Some("5")
    } else if cp == 0x12455 {
        Some("5")
    } else if cp == 0x12456 {
        Some("2")
    } else if cp == 0x12457 {
        Some("3")
    } else if cp == 0x12458 {
        Some("1")
    } else if cp == 0x12459 {
        Some("2")
    } else if cp == 0x1245A {
        Some("0.3333333333333333")
    } else if cp == 0x1245B {
        Some("0.6666666666666666")
    } else if cp == 0x1245C {
        Some("0.8333333333333334")
    } else if cp == 0x1245D {
        Some("0.3333333333333333")
    } else if cp == 0x1245E {
        Some("0.6666666666666666")
    } else if cp == 0x1245F {
        Some("0.125")
    } else if cp == 0x12460 {
        Some("0.25")
    } else if cp == 0x12461 {
        Some("0.16666666666666666")
    } else {
        None
    }
}

fn numeric_text_of_14(cp: u32) -> (r: Option<&'static str>)
    ensures
        r == numeric_text_14(cp),
{
    if cp == 0x12422 {
        Some("5")
    } else if cp == 0x12423 {
        Some("2")
    } else if cp == 0x12424 {
        Some("3")
    } else if cp == 0x12425 {
        Some("3")
    } else if cp == 0x12426 {
        Some("4")
    } else if cp == 0x12427 {
        Some("5")
    } else if cp == 0x12428 {
        Some("6")
    } else if cp == 0x12429 {
        Some("7")
    } else if cp == 0x1242A {
        Some("8")
    } else if cp == 0x1242B {
        Some("9")
    } else if cp == 0x1242C {
        Some("1")
    } else if cp == 0x1242D {
        Some("2")
    } else if cp == 0x1242E {
        Some("3")
    } else if cp == 0x1242F {
        Some("3")
    } else if cp == 0x12430 {
        Some("4")
    } else if cp == 0x12431 {
        Some("5")
    } else if cp == 0x12432 {
        Some("216000")
    } else if cp == 0x12433 {
        Some("432000")
    } else if cp == 0x12434 {
        Some("1")
    } else if cp == 0x12435 {
        Some("2")
    } else if cp == 0x12436 {
        Some("3")
    } else if cp == 0x12437 {
        Some("3")
    } else if cp == 0x12438 {
        Some("4")
    } else if cp == 0x12439 {
        Some("5")
    } else if cp == 0x1243A {
        Some("3")
    } else if cp == 0x1243B {
        Some("3")
    } else if cp == 0x1243C {
        Some("4")
    } else if cp == 0x1243D {
        Some("4")
    } else if cp == 0x1243E {
        Some("4")
    } else if cp == 0x1243F {
        Some("4")
    } else if cp == 0x12440 {
        Some("6")
    } else if cp == 0x12441 {
        Some("7")
    } else if cp == 0x12442 {
        Some("7")
    } else if cp == 0x12443 {
        Some("7")
    } else if cp == 0x12444 {
        Some("8")
    } else if cp == 0x12445 {
        Some("8")
    } else if cp == 0x12446 {
        Some("9")
    } else if cp == 0x12447 {
        Some("9")
    } else if cp == 0x12448 {
        Some("9")
    } else if cp == 0x12449 {
        Some("9")
    } else if cp == 0x1244A {
        Some("2")
    } else if cp == 0x1244B {
        Some("3")
    } else if cp == 0x1244C {
        Some("4")
    } else if cp == 0x1244D {
        Some("5")
    } else if cp == 0x1244E {
        Some("6")
    } else if cp == 0x1244F {
        Some("1")
    } else if cp == 0x12450 {
        Some("2")
    } else if cp == 0x12451 {
        Some("3")
    } else if cp == 0x12452 {
        Some("4")
    } else if cp == 0x12453 {
        Some("4")
    } else if cp == 0x12454 {
        Some("5")
    } else if cp == 0x12455 {
        Some("5")
    } else if cp == 0x12456 {
        Some("2")
    } else if cp == 0x12457 {
        Some("3")
    } else if cp == 0x12458 {
        Some("1")
    } else if cp == 0x12459 {
        Some("2")
    } else if cp == 0x1245A {
        Some("0.3333333333333333")
    } else if cp == 0x1245B {
        Some("0.6666666666666666")
    } else if cp == 0x1245C {
        Some("0.8333333333333334")
    } else if cp == 0x1245D {
        Some("0.3333333333333333")
    } else if cp == 0x1245E {
        Some("0.6666666666666666")
    } else if cp == 0x1245F {
        Some("0.125")
    } else if cp == 0x12460 {
        Some("0.25")
    } else if cp == 0x12461 {
        Some("0.16666666666666666")
    } else {
        None
    }
}

/// One part of the table [`numeric_text`], by code point.
pub open spec fn numeric_text_15(cp: u32) -> Option<&'static str> {
    if cp == 0x12462 {
        Some("0.25")
    } else if cp == 0x12463 {
        Some("0.25")
    } else if cp == 0x12464 {
        Some("0.5")
    } else if cp == 0x12465 {
        Some("0.3333333333333333")
    } else if cp == 0x12466 {
        Some("0.6666666666666666")
    } else if cp == 0x12467 {
        Some("40")
    } else if cp == 0x12468 {
        Some("50")
    } else if cp == 0x12469 {
        Some("4")
    } else if cp == 0x1246A {
        Some("5")
    } else if cp == 0x1246B {
        Some("6")
    } else if cp == 0x1246C {
        Some("7")
    } else if cp == 0x1246D {
        Some("8")
    } else if cp == 0x1246E {
        Some("9")
    } else if cp == 0x16B5B {
        Some("10")
    } else if cp == 0x16B5C {
        Some("100")
    } else if cp == 0x16B5D {
        Some("10000")
    } else if cp == 0x16B5E {
        Some("1000000")
    } else if cp == 0x16B5F {
        Some("100000000")
    } else if cp == 0x16B60 {
        Some("10000000000")
    } else if cp == 0x16B61 {
        Some("1000000000000")
    } else if cp == 0x16E80 {
        Some("0")
    } else if cp == 0x16E81 {
        Some("1")
    } else if cp == 0x16E82 {
        Some("2")
    } else if cp == 0x16E83 {
        Some("3")
    } else if cp == 0x16E84 {
        Some("4")
    } else if cp == 0x16E85 {
        Some("5")
    } else if cp == 0x16E86 {
        Some("6")
    } else if cp == 0x16E87 {
        Some("7")
    } else if cp == 0x16E88 {
        Some("8")
    } else if cp == 0x16E89 {
        Some("9")
    } else if cp == 0x16E8A {
        Some("10")
    } else if cp == 0x16E8B {
        Some("11")
    } else if cp == 0x16E8C {
        Some("12")
    } else if cp == 0x16E8D {
        Some("13")
    } else if cp == 0x16E8E {
        Some("14")
    } else if cp == 0x16E8F {
        Some("15")
    } else if cp == 0x16E90 {
        Some("16")
    } else if cp == 0x16E91 {
        Some("17")
    } else if cp == 0x16E92 {
        Some("18")
    } else if cp == 0x16E93 {
        Some("19")
    } else if cp == 0x16E94 {
        Some("1")
    } else if cp == 0x16E95 {
        Some("2")
    } else if cp == 0x16E96 {
        Some("3")
    } else if cp == 0x1D2E0 {
        Some("0")
    } else if cp == 0x1D2E1 {
        Some("1")
    } else if cp == 0x1D2E2 {
        Some("2")
    } else if cp == 0x1D2E3 {
        Some("3")
    } else if cp == 0x1D2E4 {
        Some("4")
    } else if cp == 0x1D2E5 {
        Some("5")
    } else if cp == 0x1D2E6 {
        Some("6")
    } else if cp == 0x1D2E7 {
        Some("7")
    } else if cp == 0x1D2E8 {
        Some("8")
    } else if cp == 0x1D2E9 {
        Some("9")
    } else if cp == 0x1D2EA {
        Some("10")
    } else if cp == 0x1D2EB {
        Some("11")
    } else if cp == 0x1D2EC {
        Some("12")
    } else if cp == 0x1D2ED {
        Some("13")
    } else if cp == 0x1D2EE {
        Some("14")
    } else if cp == 0x1D2EF {
        Some("15")
    } else if cp == 0x1D2F0 {
        Some("16")
    } else if cp == 0x1D2F1 {
        Some("17")
    } else if cp == 0x1D2F2 {
        Some("18")
    } else if cp == 0x1D2F3 {
        Some("19")
    } else if cp == 0x1D360 {
        Some("1")
    } else {
        None
    }
}

fn numeric_text_of_15(cp: u32) -> (r: Option<&'static str>)
    ensures
        r == numeric_text_15(cp),
{
    if cp == 0x12462 {
        Some("0.25")
    } else if cp == 0x12463 {
        Some("0.25")
    } else if cp == 0x12464 {
        Some("0.5")
    } else if cp == 0x12465 {
        Some("0.3333333333333333")
    } else if cp == 0x12466 {
        Some("0.6666666666666666")
    } else if cp == 0x12467 {
        Some("40")
    } else if cp == 0x12468 {
        Some("50")
    } else if cp == 0x12469 {
        Some("4")
    } else if cp == 0x1246A {
        Some("5")
    } else if cp == 0x1246B {
        Some("6")
    } else if cp == 0x1246C {
        Some("7")
    } else if cp == 0x1246D {
        Some("8")
    } else if cp == 0x1246E {
        Some("9")
    } else if cp == 0x16B5B {
        Some("10")
    } else if cp == 0x16B5C {
        Some("100")
    } else if cp == 0x16B5D {
        Some("10000")
    } else if cp == 0x16B5E {
        Some("1000000")
    } else if cp == 0x16B5F {
        Some("100000000")
    } else if cp == 0x16B60 {
        Some("10000000000")
    } else if cp == 0x16B61 {
        Some("1000000000000")
    } else if cp == 0x16E80 {
        Some("0")
    } else if cp == 0x16E81 {
        Some("1")
    } else if cp == 0x16E82 {
        Some("2")
    } else if cp == 0x16E83 {
        Some("3")
    } else if cp == 0x16E84 {
        Some("4")
    } else if cp == 0x16E85 {
        Some("5")
    } else if cp == 0x16E86 {
        Some("6")
    } else if cp == 0x16E87 {
        Some("7")
    } else if cp == 0x16E88 {
        Some("8")
    } else if cp == 0x16E89 {
        Some("9")
    } else if cp == 0x16E8A {
        Some("10")
    } else if cp == 0x16E8B {
        Some("11")
    } else if cp == 0x16E8C {
        Some("12")
    } else if cp == 0x16E8D {
        Some("13")
    } else if cp == 0x16E8E {
        Some("14")
    } else if cp == 0x16E8F {
        Some("15")
    } else if cp == 0x16E90 {
        Some("16")
    } else if cp == 0x16E91 {
        Some("17")
    } else if cp == 0x16E92 {
        Some("18")
    } else if cp == 0x16E93 {
        Some("19")
    } else if cp == 0x16E94 {
        Some("1")
    } else if cp == 0x16E95 {
        Some("2")
    } else if cp == 0x16E96 {
        Some("3")
    } else if cp == 0x1D2E0 {
        Some("0")
    } else if cp == 0x1D2E1 {
        Some("1")
    } else if cp == 0x1D2E2 {
        Some("2")
    } else if cp == 0x1D2E3 {
        Some("3")
    } else if cp == 0x1D2E4 {
        Some("4")
    } else if cp == 0x1D2E5 {
        Some("5")
    } else if cp == 0x1D2E6 {
        Some("6")
    } else if cp == 0x1D2E7 {
        Some("7")
    } else if cp == 0x1D2E8 {
        Some("8")
    } else if cp == 0x1D2E9 {
        Some("9")
    } else if cp == 0x1D2EA {
        Some("10")
    } else if cp == 0x1D2EB {
        Some("11")
    } else if cp == 0x1D2EC {
        Some("12")
    } else if cp == 0x1D2ED {
        Some("13")
    } else if cp == 0x1D2EE {
        Some("14")
    } else if cp == 0x1D2EF {
        Some("15")
    } else if cp == 0x1D2F0 {
        Some("16")
    } else if cp == 0x1D2F1 {
        Some("17")
    } else if cp == 0x1D2F2 {
        Some("18")
    } else if cp == 0x1D2F3 {
        Some("19")
    } else if cp == 0x1D360 {
        Some("1")
    } else {
        None
    }
}

/// One part of the table [`numeric_text`], by code point.
pub open spec fn numeric_text_16(cp: u32) -> Option<&'static str> {
    if cp == 0x1D361 {
        Some("2")
    } else if cp == 0x1D362 {
        Some("3")
    } else if cp == 0x1D363 {
        Some("4")
    } else if cp == 0x1D364 {
        Some("5")
    } else if cp == 0x1D365 {
        Some("6")
    } else if cp == 0x1D366 {
        Some("7")
    } else if cp == 0x1D367 {
        Some("8")
    } else if cp == 0x1D368 {
        Some("9")
    } else if cp == 0x1D369 {
        Some("10")
    } else if cp == 0x1D36A {
        Some("20")
    } else if cp == 0x1D36B {
        Some("30")
    } else if cp == 0x1D36C {
        Some("40")
    } else if cp == 0x1D36D {
        Some("50")
    } else if cp == 0x1D36E {
        Some("60")
    } else if cp == 0x1D36F {
        Some("70")
    } else if cp == 0x1D370 {
        Some("80")
    } else if cp == 0x1D371 {
        Some("90")
    } else if cp == 0x1D372 {
        Some("1")
    } else if cp == 0x1D373 {
        Some("2")
    } else if cp == 0x1D374 {
        Some("3")
    } else if cp == 0x1D375 {
        Some("4")
    } else if cp == 0x1D376 {
        Some("5")
    } else if cp == 0x1D377 {
        Some("1")
    } else if cp == 0x1D378 {
        Some("5")
    } else if cp == 0x1E8C7 {
        Some("1")
    } else if cp == 0x1E8C8 {
        Some("2")
    } else if cp == 0x1E8C9 {
        Some("3")
    } else if cp == 0x1E8CA {
        Some("4")
    } else if cp == 0x1E8CB {
        Some("5")
    } else if cp == 0x1E8CC {
        Some("6")
    } else if cp == 0x1E8CD {
        Some("7")
    } else if cp == 0x1E8CE {
        Some("8")
    } else if cp == 0x1E8CF {
        Some("9")
    } else if cp == 0x1EC71 {
        Some("1")
    } else if cp == 0x1EC72 {
        Some("2")
    } else if cp == 0x1EC73 {
        Some("3")
    } else if cp == 0x1EC74 {
        Some("4")
    } else if cp == 0x1EC75 {
        Some("5")
    } else if cp == 0x1EC76 {
        Some("6")
    } else if cp == 0x1EC77 {
        Some("7")
    } else if cp == 0x1EC78 {
        Some("8")
    } else if cp == 0x1EC79 {
        Some("9")
    } else if cp == 0x1EC7A {
        Some("10")
    } else if cp == 0x1EC7B {
        Some("20")
    } else if cp == 0x1EC7C {
        Some("30")
    } else if cp == 0x1EC7D {
        Some("40")
    } else if cp == 0x1EC7E {
        Some("50")
    } else if cp == 0x1EC7F {
        Some("60")
    } else if cp == 0x1EC80 {
        Some("70")
    } else if cp == 0x1EC81 {
        Some("80")
    } else if cp == 0x1EC82 {
        Some("90")
    } else if cp == 0x1EC83 {
        Some("100")
    } else if cp == 0x1EC84 {
        Some("200")
    } else if cp == 0x1EC85 {
        Some("300")
    } else if cp == 0x1EC86 {
        Some("400")
    } else if cp == 0x1EC87 {
        Some("500")
    } else if cp == 0x1EC88 {
        Some("600")
    } else if cp == 0x1EC89 {
        Some("700")
    } else if cp == 0x1EC8A {
        Some("800")
    } else if cp == 0x1EC8B {
        Some("900")
    } else if cp == 0x1EC8C {
        Some("1000")
    } else if cp == 0x1EC8D {
        Some("2000")
    } else if cp == 0x1EC8E {
        Some("3000")
    } else if cp == 0x1EC8F {
        Some("4000")
    } else {
        None
    }
}

fn numeric_text_of_16(cp: u32) -> (r: Option<&'static str>)
    ensures
        r == numeric_text_16(cp),
{
    if cp == 0x1D361 {
        Some("2")
    } else if cp == 0x1D362 {
        Some("3")
    } else if cp == 0x1D363 {
        Some("4")
    } else if cp == 0x1D364 {
        Some("5")
    } else if cp == 0x1D365 {
        Some("6")
    } else if cp == 0x1D366 {
        Some("7")
    } else if cp == 0x1D367 {
        Some("8")
    } else if cp == 0x1D368 {
        Some("9")
    } else if cp == 0x1D369 {
        Some("10")
    } else if cp == 0x1D36A {
        Some("20")
    } else if cp == 0x1D36B {
        Some("30")
    } else if cp == 0x1D36C {
        Some("40")
    } else if cp == 0x1D36D {
        Some("50")
    } else if cp == 0x1D36E {
        Some("60")
    } else if cp == 0x1D36F {
        Some("70")
    } else if cp == 0x1D370 {
        Some("80")
    } else if cp == 0x1D371 {
        Some("90")
    } else if cp == 0x1D372 {
        Some("1")
    } else if cp == 0x1D373 {
        Some("2")
    } else if cp == 0x1D374 {
        Some("3")
    } else if cp == 0x1D375 {
        Some("4")
    } else if cp == 0x1D376 {
        Some("5")
    } else if cp == 0x1D377 {
        Some("1")
    } else if cp == 0x1D378 {
        Some("5")
    } else if cp == 0x1E8C7 {
        Some("1")
    } else if cp == 0x1E8C8 {
        Some("2")
    } else if cp == 0x1E8C9 {
        Some("3")
    } else if cp == 0x1E8CA {
        Some("4")
    } else if cp == 0x1E8CB {
        Some("5")
    } else if cp == 0x1E8CC {
        Some("6")
    } else if cp == 0x1E8CD {
        Some("7")
    } else if cp == 0x1E8CE {
        Some("8")
    } else if cp == 0x1E8CF {
        Some("9")
    } else if cp == 0x1EC71 {
        Some("1")
    } else if cp == 0x1EC72 {
        Some("2")
    } else if cp == 0x1EC73 {
        Some("3")
    } else if cp == 0x1EC74 {
        Some("4")
    } else if cp == 0x1EC75 {
        Some("5")
    } else if cp == 0x1EC76 {
        Some("6")
    } else if cp == 0x1EC77 {
        Some("7")
    } else if cp == 0x1EC78 {
        Some("8")
    } else if cp == 0x1EC79 {
        Some("9")
    } else if cp == 0x1EC7A {
        Some("10")
    } else if cp == 0x1EC7B {
        Some("20")
    } else if cp == 0x1EC7C {
        Some("30")
    } else if cp == 0x1EC7D {
        Some("40")
    } else if cp == 0x1EC7E {
        Some("50")
    } else if cp == 0x1EC7F {
        Some("60")
    } else if cp == 0x1EC80 {
        Some("70")
    } else if cp == 0x1EC81 {
        Some("80")
    } else if cp == 0x1EC82 {
        Some("90")
    } else if cp == 0x1EC83 {
        Some("100")
    } else if cp == 0x1EC84 {
        Some("200")
    } else if cp == 0x1EC85 {
        Some("300")
    } else if cp == 0x1EC86 {
        Some("400")
    } else if cp == 0x1EC87 {
        Some("500")
    } else if cp == 0x1EC88 {
        Some("600")
    } else if cp == 0x1EC89 {
        Some("700")
    } else if cp == 0x1EC8A {
        Some("800")
    } else if cp == 0x1EC8B {
        Some("900")
    } else if cp == 0x1EC8C {
        Some("1000")
    } else if cp == 0x1EC8D {
        Some("2000")
    } else if cp == 0x1EC8E {
        Some("3000")
    } else if cp == 0x1EC8F {
        Some("4000")
    } else {
        None
    }
}

/// One part of the table [`numeric_text`], by code point.
pub open spec fn numeric_text_17(cp: u32) -> Option<&'static str> {
    if cp == 0x1EC90 {
        Some("5000")
    } else if cp == 0x1EC91 {
        Some("6000")
    } else if cp == 0x1EC92 {
        Some("7000")
    } else if cp == 0x1EC93 {
        Some("8000")
    } else if cp == 0x1EC94 {
        Some("9000")
    } else if cp == 0x1EC95 {
        Some("10000")
    } else if cp == 0x1EC96 {
        Some("20000")
    } else if cp == 0x1EC97 {
        Some("30000")
    } else if cp == 0x1EC98 {
        Some("40000")
    } else if cp == 0x1EC99 {
        Some("50000")
    } else if cp == 0x1EC9A {
        Some("60000")
    } else if cp == 0x1EC9B {
        Some("70000")
    } else if cp == 0x1EC9C {
        Some("80000")
    } else if cp == 0x1EC9D {
        Some("90000")
    } else if cp == 0x1EC9E {
        Some("100000")
    } else if cp == 0x1EC9F {
        Some("200000")
    } else if cp == 0x1ECA0 {
        Some("100000")
    } else if cp == 0x1ECA1 {
        Some("10000000")
    } else if cp == 0x1ECA2 {
        Some("20000000")
    } else if cp == 0x1ECA3 {
        Some("1")
    } else if cp == 0x1ECA4 {
        Some("2")
    } else if cp == 0x1ECA5 {
        Some("3")
    } else if cp == 0x1ECA6 {
        Some("4")
    } else if cp == 0x1ECA7 {
        Some("5")
    } else if cp == 0x1ECA8 {
        Some("6")
    } else if cp == 0x1ECA9 {
        Some("7")
    } else if cp == 0x1ECAA {
        Some("8")
    } else if cp == 0x1ECAB {
        Some("9")
    } else if cp == 0x1ECAD {
        Some("0.25")
    } else if cp == 0x1ECAE {
        Some("0.5")
    } else if cp == 0x1ECAF {
        Some("0.75")
    } else if cp == 0x1ECB1 {
        Some("1")
    } else if cp == 0x1ECB2 {
        Some("2")
    } else if cp == 0x1ECB3 {
        Some("10000")
    } else if cp == 0x1ECB4 {
        Some("100000")
    } else if cp == 0x1ED01 {
        Some("1")
    } else if cp == 0x1ED02 {
        Some("2")
    } else if cp == 0x1ED03 {
        Some("3")
    } else if cp == 0x1ED04 {
        Some("4")
    } else if cp == 0x1ED05 {
        Some("5")
    } else if cp == 0x1ED06 {
        Some("6")
    } else if cp == 0x1ED07 {
        Some("7")
    } else if cp == 0x1ED08 {
        Some("8")
    } else if cp == 0x1ED09 {
        Some("9")
    } else if cp == 0x1ED0A {
        Some("10")
    } else if cp == 0x1ED0B {
        Some("20")
    } else if cp == 0x1ED0C {
        Some("30")
    } else if cp == 0x1ED0D {
        Some("40")
    } else if cp == 0x1ED0E {
        Some("50")
    } else if cp == 0x1ED0F {
        Some("60")
    } else if cp == 0x1ED10 {
        Some("70")
    } else if cp == 0x1ED11 {
        Some("80")
    } else if cp == 0x1ED12 {
        Some("90")
    } else if cp == 0x1ED13 {
        Some("100")
    } else if cp == 0x1ED14 {
        Some("200")
    } else if cp == 0x1ED15 {
        Some("300")
    } else if cp == 0x1ED16 {
        Some("400")
    } else if cp == 0x1ED17 {
        Some("500")
    } else if cp == 0x1ED18 {
        Some("600")
    } else if cp == 0x1ED19 {
        Some("700")
    } else if cp == 0x1ED1A {
        Some("800")
    } else if cp == 0x1ED1B {
        Some("900")
    } else if cp == 0x1ED1C {
        Some("1000")
    } else if cp == 0x1ED1D {
        Some("2000")
    } else {
        None
    }
}

fn numeric_text_of_17(cp: u32) -> (r: Option<&'static str>)
    ensures
        r == numeric_text_17(cp),
{
    if cp == 0x1EC90 {
        Some("5000")
    } else if cp == 0x1EC91 {
        Some("6000")
    } else if cp == 0x1EC92 {
        Some("7000")
    } else if cp == 0x1EC93 {
        Some("8000")
    } else if cp == 0x1EC94 {
        Some("9000")
    } else if cp == 0x1EC95 {
        Some("10000")
    } else if cp == 0x1EC96 {
        Some("20000")
    } else if cp == 0x1EC97 {
        Some("30000")
    } else if cp == 0x1EC98 {
        Some("40000")
    } else if cp == 0x1EC99 {
        Some("50000")
    } else if cp == 0x1EC9A {
        Some("60000")
    } else if cp == 0x1EC9B {
        Some("70000")
    } else if cp == 0x1EC9C {
        Some("80000")
    } else if cp == 0x1EC9D {
        Some("90000")
    } else if cp == 0x1EC9E {
        Some("100000")
    } else if cp == 0x1EC9F {
        Some("200000")
    } else if cp == 0x1ECA0 {
        Some("100000")
    } else if cp == 0x1ECA1 {
        Some("10000000")
    } else if cp == 0x1ECA2 {
        Some("20000000")
    } else if cp == 0x1ECA3 {
        Some("1")
    } else if cp == 0x1ECA4 {
        Some("2")
    } else if cp == 0x1ECA5 {
        Some("3")
    } else if cp == 0x1ECA6 {
        Some("4")
    } else if cp == 0x1ECA7 {
        Some("5")
    } else if cp == 0x1ECA8 {
        Some("6")
    } else if cp == 0x1ECA9 {
        Some("7")
    } else if cp == 0x1ECAA {
        Some("8")
    } else if cp == 0x1ECAB {
        Some("9")
    } else if cp == 0x1ECAD {
        Some("0.25")
    } else if cp == 0x1ECAE {
        Some("0.5")
    } else if cp == 0x1ECAF {
        Some("0.75")
    } else if cp == 0x1ECB1 {
        Some("1")
    } else if cp == 0x1ECB2 {
        Some("2")
    } else if cp == 0x1ECB3 {
        Some("10000")
    } else if cp == 0x1ECB4 {
        Some("100000")
    } else if cp == 0x1ED01 {
        Some("1")
    } else if cp == 0x1ED02 {
        Some("2")
    } else if cp == 0x1ED03 {
        Some("3")
    } else if cp == 0x1ED04 {
        Some("4")
    } else if cp == 0x1ED05 {
        Some("5")
    } else if cp == 0x1ED06 {
        Some("6")
    } else if cp == 0x1ED07 {
        Some("7")
    } else if cp == 0x1ED08 {
        Some("8")
    } else if cp == 0x1ED09 {
        Some("9")
    } else if cp == 0x1ED0A {
        Some("10")
    } else if cp == 0x1ED0B {
        Some("20")
    } else if cp == 0x1ED0C {
        Some("30")
    } else if cp == 0x1ED0D {
        Some("40")
    } else if cp == 0x1ED0E {
        Some("50")
    } else if cp == 0x1ED0F {
        Some("60")
    } else if cp == 0x1ED10 {
        Some("70")
    } else if cp == 0x1ED11 {
        Some("80")
    } else if cp == 0x1ED12 {
        Some("90")
    } else if cp == 0x1ED13 {
        Some("100")
    } else if cp == 0x1ED14 {
        Some("200")
    } else if cp == 0x1ED15 {
        Some("300")
    } else if cp == 0x1ED16 {
        Some("400")
    } else if cp == 0x1ED17 {
        Some("500")
    } else if cp == 0x1ED18 {
        Some("600")
    } else if cp == 0x1ED19 {
        Some("700")
    } else if cp == 0x1ED1A {
        Some("800")
    } else if cp == 0x1ED1B {
        Some("900")
    } else if cp == 0x1ED1C {
        Some("1000")
    } else if cp == 0x1ED1D {
        Some("2000")
    } else {
        None
    }
}

/// One part of the table [`numeric_text`], by code point.
pub open spec fn numeric_text_18(cp: u32) -> Option<&'static str> {
    if cp == 0x1ED1E {
        Some("3000")
    } else if cp == 0x1ED1F {
        Some("4000")
    } else if cp == 0x1ED20 {
        Some("5000")
    } else if cp == 0x1ED21 {
        Some("6000")
    } else if cp == 0x1ED22 {
        Some("7000")
    } else if cp == 0x1ED23 {
        Some("8000")
    } else if cp == 0x1ED24 {
        Some("9000")
    } else if cp == 0x1ED25 {
        Some("10000")
    } else if cp == 0x1ED26 {
        Some("20000")
    } else if cp == 0x1ED27 {
        Some("30000")
    } else if cp == 0x1ED28 {
        Some("40000")
    } else if cp == 0x1ED29 {
        Some("50000")
    } else if cp == 0x1ED2A {
        Some("60000")
    } else if cp == 0x1ED2B {
        Some("70000")
    } else if cp == 0x1ED2C {
        Some("80000")
    } else if cp == 0x1ED2D {
        Some("90000")
    } else if cp == 0x1ED2F {
        Some("2")
    } else if cp == 0x1ED30 {
        Some("3")
    } else if cp == 0x1ED31 {
        Some("4")
    } else if cp == 0x1ED32 {
        Some("5")
    } else if cp == 0x1ED33 {
        Some("6")
    } else if cp == 0x1ED34 {
        Some("7")
    } else if cp == 0x1ED35 {
        Some("8")
    } else if cp == 0x1ED36 {
        Some("9")
    } else if cp == 0x1ED37 {
        Some("10")
    } else if cp == 0x1ED38 {
        Some("400")
    } else if cp == 0x1ED39 {
        Some("600")
    } else if cp == 0x1ED3A {
        Some("2000")
    } else if cp == 0x1ED3B {
        Some("10000")
    } else if cp == 0x1ED3C {
        Some("0.5")
    } else if cp == 0x1ED3D {
        Some("0.16666666666666666")
    } else if cp == 0x1F100 {
        Some("0")
    } else if cp == 0x1F101 {
        Some("0")
    } else if cp == 0x1F102 {
        Some("1")
    } else if cp == 0x1F103 {
        Some("2")
    } else if cp == 0x1F104 {
        Some("3")
    } else if cp == 0x1F105 {
        Some("4")
    } else if cp == 0x1F106 {
        Some("5")
    } else if cp == 0x1F107 {
        Some("6")
    } else if cp == 0x1F108 {
        Some("7")
    } else if cp == 0x1F109 {
        Some("8")
    } else if cp == 0x1F10A {
        Some("9")
    } else if cp == 0x1F10B {
        Some("0")
    } else if cp == 0x1F10C {
        Some("0")
    } else if cp == 0x20001 {
        Some("7")
    } else if cp == 0x20064 {
        Some("4")
    } else if cp == 0x200E2 {
        Some("4")
    } else if cp == 0x20121 {
        Some("5")
    } else if cp == 0x2092A {
        Some("1")
    } else if cp == 0x20983 {
        Some("30")
    } else if cp == 0x2098C {
        Some("40")
    } else if cp == 0x2099C {
        Some("40")
    } else if cp == 0x20AEA {
        Some("6")
    } else if cp == 0x20AFD {
        Some("3")
    } else if cp == 0x20B19 {
        Some("3")
    } else if cp == 0x22390 {
        Some("2")
    } else if cp == 0x22998 {
        Some("3")
    } else if cp == 0x23B1B {
        Some("3")
    } else if cp == 0x2626D {
        Some("4")
    } else if cp == 0x2F890 {
        Some("9")
    } else {
        None
    }
}

fn numeric_text_of_18(cp: u32) -> (r: Option<&'static str>)
    ensures
        r == numeric_text_18(cp),
{
    if cp == 0x1ED1E {
        Some("3000")
    } else if cp == 0x1ED1F {
        Some("4000")
    } else if cp == 0x1ED20 {
        Some("5000")
    } else if cp == 0x1ED21 {
        Some("6000")
    } else if cp == 0x1ED22 {
        Some("7000")
    } else if cp == 0x1ED23 {
        Some("8000")
    } else if cp == 0x1ED24 {
        Some("9000")
    } else if cp == 0x1ED25 {
        Some("10000")
    } else if cp == 0x1ED26 {
        Some("20000")
    } else if cp == 0x1ED27 {
        Some("30000")
    } else if cp == 0x1ED28 {
        Some("40000")
    } else if cp == 0x1ED29 {
        Some("50000")
    } else if cp == 0x1ED2A {
        Some("60000")
    } else if cp == 0x1ED2B {
        Some("70000")
    } else if cp == 0x1ED2C {
        Some("80000")
    } else if cp == 0x1ED2D {
        Some("90000")
    } else if cp == 0x1ED2F {
        Some("2")
    } else if cp == 0x1ED30 {
        Some("3")
    } else if cp == 0x1ED31 {
        Some("4")
    } else if cp == 0x1ED32 {
        Some("5")
    } else if cp == 0x1ED33 {
        Some("6")
    } else if cp == 0x1ED34 {
        Some("7")
    } else if cp == 0x1ED35 {
        Some("8")
    } else if cp == 0x1ED36 {
        Some("9")
    } else if cp == 0x1ED37 {
        Some("10")
    } else if cp == 0x1ED38 {
        Some("400")
    } else if cp == 0x1ED39 {
        Some("600")
    } else if cp == 0x1ED3A {
        Some("2000")
    } else if cp == 0x1ED3B {
        Some("10000")
    } else if cp == 0x1ED3C {
        Some("0.5")
    } else if cp == 0x1ED3D {
        Some("0.16666666666666666")
    } else if cp == 0x1F100 {
        Some("0")
    } else if cp == 0x1F101 {
        Some("0")
    } else if cp == 0x1F102 {
        Some("1")
    } else if cp == 0x1F103 {
        Some("2")
    } else if cp == 0x1F104 {
        Some("3")
    } else if cp == 0x1F105 {
        Some("4")
    } else if cp == 0x1F106 {
        Some("5")
    } else if cp == 0x1F107 {
        Some("6")
    } else if cp == 0x1F108 {
        Some("7")
    } else if cp == 0x1F109 {
        Some("8")
    } else if cp == 0x1F10A {
        Some("9")
    } else if cp == 0x1F10B {
        Some("0")
    } else if cp == 0x1F10C {
        Some("0")
    } else if cp == 0x20001 {
        Some("7")
    } else if cp == 0x20064 {
        Some("4")
    } else if cp == 0x200E2 {
        Some("4")
    } else if cp == 0x20121 {
        Some("5")
    } else if cp == 0x2092A {
        Some("1")
    } else if cp == 0x20983 {
        Some("30")
    } else if cp == 0x2098C {
        Some("40")
    } else if cp == 0x2099C {
        Some("40")
    } else if cp == 0x20AEA {
        Some("6")
    } else if cp == 0x20AFD {
        Some("3")
    } else if cp == 0x20B19 {
        Some("3")
    } else if cp == 0x22390 {
        Some("2")
    } else if cp == 0x22998 {
        Some("3")
    } else if cp == 0x23B1B {
        Some("3")
    } else if cp == 0x2626D {
        Some("4")
    } else if cp == 0x2F890 {
        Some("9")
    } else {
        None
    }
}

/// The case folding of the code point `cp` where it differs from its Unicode
/// lowercase mapping.
pub open spec fn fold_exception(cp: u32) -> Option<&'static str> {
    if cp <= 0x13CE {
        fold_exception_0(cp)
    } else if cp <= 0x1F54 {
        fold_exception_1(cp)
    } else if cp <= 0x1FD3 {
        fold_exception_2(cp)
    } else if cp <= 0xABA2 {
        fold_exception_3(cp)
    } else {
        fold_exception_4(cp)
    }
}

/// Returns the case folding of `cp` where it differs from its lowercase mapping, or `None`.
pub fn fold_exception_of(cp: u32) -> (r: Option<&'static str>)
    ensures
        r == fold_exception(cp),
{
    if cp <= 0x13CE {
        fold_exception_of_0(cp)
    } else if cp <= 0x1F54 {
        fold_exception_of_1(cp)
    } else if cp <= 0x1FD3 {
        fold_exception_of_2(cp)
    } else if cp <= 0xABA2 {
        fold_exception_of_3(cp)
    } else {
        fold_exception_of_4(cp)
    }
}

/// One part of the table [`fold_exception`], by code point.
pub open spec fn fold_exception_0(cp: u32) -> Option<&'static str> {
    if cp == 0xB5 {
        Some("\u{3BC}")
    } else if cp == 0xDF {
        Some("ss")
    } else if cp == 0x149 {
        Some("\u{2BC}n")
    } else if cp == 0x17F {
        Some("s")
    } else if cp == 0x1F0 {
        Some("j\u{30C}")
    } else if cp == 0x345 {
        Some("\u{3B9}")
    } else if cp == 0x390 {
        Some("\u{3B9}\u{308}\u{301}")
    } else if cp == 0x3B0 {
        Some("\u{3C5}\u{308}\u{301}")
    } else if cp == 0x3C2 {
        Some("\u{3C3}")
    } else if cp == 0x3D0 {
        Some("\u{3B2}")
    } else if cp == 0x3D1 {
        Some("\u{3B8}")
    } else if cp == 0x3D5 {
        Some("\u{3C6}")
    } else if cp == 0x3D6 {
        Some("\u{3C0}")
    } else if cp == 0x3F0 {
        Some("\u{3BA}")
    } else if cp == 0x3F1 {
        Some("\u{3C1}")
    } else if cp == 0x3F5 {
        Some("\u{3B5}")
    } else if cp == 0x587 {
        Some("\u{565}\u{582}")
    } else if cp == 0x13A0 {
        Some("\u{13A0}")
    } else if cp == 0x13A1 {
        Some("\u{13A1}")
    } else if cp == 0x13A2 {
        Some("\u{13A2}")
    } else if cp == 0x13A3 {
        Some("\u{13A3}")
    } else if cp == 0x13A4 {
        Some("\u{13A4}")
    } else if cp == 0x13A5 {
        Some("\u{13A5}")
    } else if cp == 0x13A6 {
        Some("\u{13A6}")
    } else if cp == 0x13A7 {
        Some("\u{13A7}")
    } else if cp == 0x13A8 {
        Some("\u{13A8}")
    } else if cp == 0x13A9 {
        Some("\u{13A9}")
    } else if cp == 0x13AA {
        Some("\u{13AA}")
    } else if cp == 0x13AB {
        Some("\u{13AB}")
    } else if cp == 0x13AC {
        Some("\u{13AC}")
    } else if cp == 0x13AD {
        Some("\u{13AD}")
    } else if cp == 0x13AE {
        Some("\u{13AE}")
    } else if cp == 0x13AF {
        Some("\u{13AF}")
    } else if cp == 0x13B0 {
        Some("\u{13B0}")
    } else if cp == 0x13B1 {
        Some("\u{13B1}")
    } else if cp == 0x13B2 {
        Some("\u{13B2}")
    } else if cp == 0x13B3 {
        Some("\u{13B3}")
    } else if cp == 0x13B4 {
        Some("\u{13B4}")
    } else if cp == 0x13B5 {
        Some("\u{13B5}")
    } else if cp == 0x13B6 {
        Some("\u{13B6}")
    } else if cp == 0x13B7 {
        Some("\u{13B7}")
    } else if cp == 0x13B8 {
        Some("\u{13B8}")
    } else if cp == 0x13B9 {
        Some("\u{13B9}")
    } else if cp == 0x13BA {
        Some("\u{13BA}")
    } else if cp == 0x13BB {
        Some("\u{13BB}")
    } else if cp == 0x13BC {
        Some("\u{13BC}")
    } else if cp == 0x13BD {
        Some("\u{13BD}")
    } else if cp == 0x13BE {
        Some("\u{13BE}")
    } else if cp == 0x13BF {
        Some("\u{13BF}")
    } else if cp == 0x13C0 {
        Some("\u{13C0}")
    } else if cp == 0x13C1 {
        Some("\u{13C1}")
    } else if cp == 0x13C2 {
        Some("\u{13C2}")
    } else if cp == 0x13C3 {
        Some("\u{13C3}")
    } else if cp == 0x13C4 {
        Some("\u{13C4}")
    } else if cp == 0x13C5 {
        Some("\u{13C5}")
    } else if cp == 0x13C6 {
        Some("\u{13C6}")
    } else if cp == 0x13C7 {
        Some("\u{13C7}")
    } else if cp == 0x13C8 {
        Some("\u{13C8}")
    } else if cp == 0x13C9 {
        Some("\u{13C9}")
    } else if cp == 0x13CA {
        Some("\u{13CA}")
    } else if cp == 0x13CB {
        Some("\u{13CB}")
    } else if cp == 0x13CC {
        Some("\u{13CC}")
    } else if cp == 0x13CD {
        Some("\u{13CD}")
    } else if cp == 0x13CE {
        Some("\u{13CE}")
    } else {
        None
    }
}

fn fold_exception_of_0(cp: u32) -> (r: Option<&'static str>)
    ensures
        r == fold_exception_0(cp),
{
    if cp == 0xB5 {
        Some("\u{3BC}")
    } else if cp == 0xDF {
        Some("ss")
    } else if cp == 0x149 {
        Some("\u{2BC}n")
    } else if cp == 0x17F {
        Some("s")
    } else if cp == 0x1F0 {
        Some("j\u{30C}")
    } else if cp == 0x345 {
        Some("\u{3B9}")
    } else if cp == 0x390 {
        Some("\u{3B9}\u{308}\u{301}")
    } else if cp == 0x3B0 {
        Some("\u{3C5}\u{308}\u{301}")
    } else if cp == 0x3C2 {
        Some("\u{3C3}")
    } else if cp == 0x3D0 {
        Some("\u{3B2}")
    } else if cp == 0x3D1 {
        Some("\u{3B8}")
    } else if cp == 0x3D5 {
        Some("\u{3C6}")
    } else if cp == 0x3D6 {
        Some("\u{3C0}")
    } else if cp == 0x3F0 {
        Some("\u{3BA}")
    } else if cp == 0x3F1 {
        Some("\u{3C1}")
    } else if cp == 0x3F5 {
        Some("\u{3B5}")
    } else if cp == 0x587 {
        Some("\u{565}\u{582}")
    } else if cp == 0x13A0 {
        Some("\u{13A0}")
    } else if cp == 0x13A1 {
        Some("\u{13A1}")
    } else if cp == 0x13A2 {
        Some("\u{13A2}")
    } else if cp == 0x13A3 {
        Some("\u{13A3}")
    } else if cp == 0x13A4 {
        Some("\u{13A4}")
    } else if cp == 0x13A5 {
        Some("\u{13A5}")
    } else if cp == 0x13A6 {
        Some("\u{13A6}")
    } else if cp == 0x13A7 {
        Some("\u{13A7}")
    } else if cp == 0x13A8 {
        Some("\u{13A8}")
    } else if cp == 0x13A9 {
        Some("\u{13A9}")
    } else if cp == 0x13AA {
        Some("\u{13AA}")
    } else if cp == 0x13AB {
        Some("\u{13AB}")
    } else if cp == 0x13AC {
        Some("\u{13AC}")
    } else if cp == 0x13AD {
        Some("\u{13AD}")
    } else if cp == 0x13AE {
        Some("\u{13AE}")
    } else if cp == 0x13AF {
        Some("\u{13AF}")
    } else if cp == 0x13B0 {
        Some("\u{13B0}")
    } else if cp == 0x13B1 {
        Some("\u{13B1}")
    } else if cp == 0x13B2 {
        Some("\u{13B2}")
    } else if cp == 0x13B3 {
        Some("\u{13B3}")
    } else if cp == 0x13B4 {
        Some("\u{13B4}")
    } else if cp == 0x13B5 {
        Some("\u{13B5}")
    } else if cp == 0x13B6 {
        Some("\u{13B6}")
    } else if cp == 0x13B7 {
        Some("\u{13B7}")
    } else if cp == 0x13B8 {
        Some("\u{13B8}")
    } else if cp == 0x13B9 {
        Some("\u{13B9}")
    } else if cp == 0x13BA {
        Some("\u{13BA}")
    } else if cp == 0x13BB {
        Some("\u{13BB}")
    } else if cp == 0x13BC {
        Some("\u{13BC}")
    } else if cp == 0x13BD {
        Some("\u{13BD}")
    } else if cp == 0x13BE {
        Some("\u{13BE}")
    } else if cp == 0x13BF {
        Some("\u{13BF}")
    } else if cp == 0x13C0 {
        Some("\u{13C0}")
    } else if cp == 0x13C1 {
        Some("\u{13C1}")
    } else if cp == 0x13C2 {
        Some("\u{13C2}")
    } else if cp == 0x13C3 {
        Some("\u{13C3}")
    } else if cp == 0x13C4 {
        Some("\u{13C4}")
    } else if cp == 0x13C5 {
        Some("\u{13C5}")
    } else if cp == 0x13C6 {
        Some("\u{13C6}")
    } else if cp == 0x13C7 {
        Some("\u{13C7}")
    } else if cp == 0x13C8 {
        Some("\u{13C8}")
    } else if cp == 0x13C9 {
        Some("\u{13C9}")
    } else if cp == 0x13CA {
        Some("\u{13CA}")
    } else if cp == 0x13CB {
        Some("\u{13CB}")
    } else if cp == 0x13CC {
        Some("\u{13CC}")
    } else if cp == 0x13CD {
        Some("\u{13CD}")
    } else if cp == 0x13CE {
        Some("\u{13CE}")
    } else {
        None
    }
}

/// One part of the table [`fold_exception`], by code point.
pub open spec fn fold_exception_1(cp: u32) -> Option<&'static str> {
    if cp == 0x13CF {
        Some("\u{13CF}")
    } else if cp == 0x13D0 {
        Some("\u{13D0}")
    } else if cp == 0x13D1 {
        Some("\u{13D1}")
    } else if cp == 0x13D2 {
        Some("\u{13D2}")
    } else if cp == 0x13D3 {
        Some("\u{13D3}")
    } else if cp == 0x13D4 {
        Some("\u{13D4}")
    } else if cp == 0x13D5 {
        Some("\u{13D5}")
    } else if cp == 0x13D6 {
        Some("\u{13D6}")
    } else if cp == 0x13D7 {
        Some("\u{13D7}")
    } else if cp == 0x13D8 {
        Some("\u{13D8}")
    } else if cp == 0x13D9 {
        Some("\u{13D9}")
    } else if cp == 0x13DA {
        Some("\u{13DA}")
    } else if cp == 0x13DB {
        Some("\u{13DB}")
    } else if cp == 0x13DC {
        Some("\u{13DC}")
    } else if cp == 0x13DD {
        Some("\u{13DD}")
    } else if cp == 0x13DE {
        Some("\u{13DE}")
    } else if cp == 0x13DF {
        Some("\u{13DF}")
    } else if cp == 0x13E0 {
        Some("\u{13E0}")
    } else if cp == 0x13E1 {
        Some("\u{13E1}")
    } else if cp == 0x13E2 {
        Some("\u{13E2}")
    } else if cp == 0x13E3 {
        Some("\u{13E3}")
    } else if cp == 0x13E4 {
        Some("\u{13E4}")
    } else if cp == 0x13E5 {
        Some("\u{13E5}")
    } else if cp == 0x13E6 {
        Some("\u{13E6}")
    } else if cp == 0x13E7 {
        Some("\u{13E7}")
    } else if cp == 0x13E8 {
        Some("\u{13E8}")
    } else if cp == 0x13E9 {
        Some("\u{13E9}")
    } else if cp == 0x13EA {
        Some("\u{13EA}")
    } else if cp == 0x13EB {
        Some("\u{13EB}")
    } else if cp == 0x13EC {
        Some("\u{13EC}")
    } else if cp == 0x13ED {
        Some("\u{13ED}")
    } else if cp == 0x13EE {
        Some("\u{13EE}")
    } else if cp == 0x13EF {
        Some("\u{13EF}")
    } else if cp == 0x13F0 {
        Some("\u{13F0}")
    } else if cp == 0x13F1 {
        Some("\u{13F1}")
    } else if cp == 0x13F2 {
        Some("\u{13F2}")
    } else if cp == 0x13F3 {
        Some("\u{13F3}")
    } else if cp == 0x13F4 {
        Some("\u{13F4}")
    } else if cp == 0x13F5 {
        Some("\u{13F5}")
    } else if cp == 0x13F8 {
        Some("\u{13F0}")
    } else if cp == 0x13F9 {
        Some("\u{13F1}")
    } else if cp == 0x13FA {
        Some("\u{13F2}")
    } else if cp == 0x13FB {
        Some("\u{13F3}")
    } else if cp == 0x13FC {
        Some("\u{13F4}")
    } else if cp == 0x13FD {
        Some("\u{13F5}")
    } else if cp == 0x1C80 {
        Some("\u{432}")
    } else if cp == 0x1C81 {
        Some("\u{434}")
    } else if cp == 0x1C82 {
        Some("\u{43E}")
    } else if cp == 0x1C83 {
        Some("\u{441}")
    } else if cp == 0x1C84 {
        Some("\u{442}")
    } else if cp == 0x1C85 {
        Some("\u{442}")
    } else if cp == 0x1C86 {
        Some("\u{44A}")
    } else if cp == 0x1C87 {
        Some("\u{463}")
    } else if cp == 0x1C88 {
        Some("\u{A64B}")
    } else if cp == 0x1E96 {
        Some("h\u{331}")
    } else if cp == 0x1E97 {
        Some("t\u{308}")
    } else if cp == 0x1E98 {
        Some("w\u{30A}")
    } else if cp == 0x1E99 {
        Some("y\u{30A}")
    } else if cp == 0x1E9A {
        Some("a\u{2BE}")
    } else if cp == 0x1E9B {
        Some("\u{1E61}")
    } else if cp == 0x1E9E {
        Some("ss")
    } else if cp == 0x1F50 {
        Some("\u{3C5}\u{313}")
    } else if cp == 0x1F52 {
        Some("\u{3C5}\u{313}\u{300}")
    } else if cp == 0x1F54 {
        Some("\u{3C5}\u{313}\u{301}")
    } else {
        None
    }
}

fn fold_exception_of_1(cp: u32) -> (r: Option<&'static str>)
    ensures
        r == fold_exception_1(cp),
{
    if cp == 0x13CF {
        Some("\u{13CF}")
    } else if cp == 0x13D0 {
        Some("\u{13D0}")
    } else if cp == 0x13D1 {
        Some("\u{13D1}")
    } else if cp == 0x13D2 {
        Some("\u{13D2}")
    } else if cp == 0x13D3 {
        Some("\u{13D3}")
    } else if cp == 0x13D4 {
        Some("\u{13D4}")
    } else if cp == 0x13D5 {
        Some("\u{13D5}")
    } else if cp == 0x13D6 {
        Some("\u{13D6}")
    } else if cp == 0x13D7 {
        Some("\u{13D7}")
    } else if cp == 0x13D8 {
        Some("\u{13D8}")
    } else if cp == 0x13D9 {
        Some("\u{13D9}")
    } else if cp == 0x13DA {
        Some("\u{13DA}")
    } else if cp == 0x13DB {
        Some("\u{13DB}")
    } else if cp == 0x13DC {
        Some("\u{13DC}")
    } else if cp == 0x13DD {
        Some("\u{13DD}")
    } else if cp == 0x13DE {
        Some("\u{13DE}")
    } else if cp == 0x13DF {
        Some("\u{13DF}")
    } else if cp == 0x13E0 {
        Some("\u{13E0}")
    } else if cp == 0x13E1 {
        Some("\u{13E1}")
    } else if cp == 0x13E2 {
        Some("\u{13E2}")
    } else if cp == 0x13E3 {
        Some("\u{13E3}")
    } else if cp == 0x13E4 {
        Some("\u{13E4}")
    } else if cp == 0x13E5 {
        Some("\u{13E5}")
    } else if cp == 0x13E6 {
        Some("\u{13E6}")
    } else if cp == 0x13E7 {
        Some("\u{13E7}")
    } else if cp == 0x13E8 {
        Some("\u{13E8}")
    } else if cp == 0x13E9 {
        Some("\u{13E9}")
    } else if cp == 0x13EA {
        Some("\u{13EA}")
    } else if cp == 0x13EB {
        Some("\u{13EB}")
    } else if cp == 0x13EC {
        Some("\u{13EC}")
    } else if cp == 0x13ED {
        Some("\u{13ED}")
    } else if cp == 0x13EE {
        Some("\u{13EE}")
    } else if cp == 0x13EF {
        Some("\u{13EF}")
    } else if cp == 0x13F0 {
        Some("\u{13F0}")
    } else if cp == 0x13F1 {
        Some("\u{13F1}")
    } else if cp == 0x13F2 {
        Some("\u{13F2}")
    } else if cp == 0x13F3 {
        Some("\u{13F3}")
    } else if cp == 0x13F4 {
        Some("\u{13F4}")
    } else if cp == 0x13F5 {
        Some("\u{13F5}")
    } else if cp == 0x13F8 {
        Some("\u{13F0}")
    } else if cp == 0x13F9 {
        Some("\u{13F1}")
    } else if cp == 0x13FA {
        Some("\u{13F2}")
    } else if cp == 0x13FB {
        Some("\u{13F3}")
    } else if cp == 0x13FC {
        Some("\u{13F4}")
    } else if cp == 0x13FD {
        Some("\u{13F5}")
    } else if cp == 0x1C80 {
        Some("\u{432}")
    } else if cp == 0x1C81 {
        Some("\u{434}")
    } else if cp == 0x1C82 {
        Some("\u{43E}")
    } else if cp == 0x1C83 {
        Some("\u{441}")
    } else if cp == 0x1C84 {
        Some("\u{442}")
    } else if cp == 0x1C85 {
        Some("\u{442}")
    } else if cp == 0x1C86 {
        Some("\u{44A}")
    } else if cp == 0x1C87 {
        Some("\u{463}")
    } else if cp == 0x1C88 {
        Some("\u{A64B}")
    } else if cp == 0x1E96 {
        Some("h\u{331}")
    } else if cp == 0x1E97 {
        Some("t\u{308}")
    } else if cp == 0x1E98 {
        Some("w\u{30A}")
    } else if cp == 0x1E99 {
        Some("y\u{30A}")
    } else if cp == 0x1E9A {
        Some("a\u{2BE}")
    } else if cp == 0x1E9B {
        Some("\u{1E61}")
    } else if cp == 0x1E9E {
        Some("ss")
    } else if cp == 0x1F50 {
        Some("\u{3C5}\u{313}")
    } else if cp == 0x1F52 {
        Some("\u{3C5}\u{313}\u{300}")
    } else if cp == 0x1F54 {
        Some("\u{3C5}\u{313}\u{301}")
    } else {
        None
    }
}

/// One part of the table [`fold_exception`], by code point.
pub open spec fn fold_exception_2(cp: u32) -> Option<&'static str> {
    if cp == 0x1F56 {
        Some("\u{3C5}\u{313}\u{342}")
    } else if cp == 0x1F80 {
        Some("\u{1F00}\u{3B9}")
    } else if cp == 0x1F81 {
        Some("\u{1F01}\u{3B9}")
    } else if cp == 0x1F82 {
        Some("\u{1F02}\u{3B9}")
    } else if cp == 0x1F83 {
        Some("\u{1F03}\u{3B9}")
    } else if cp == 0x1F84 {
        Some("\u{1F04}\u{3B9}")
    } else if cp == 0x1F85 {
        Some("\u{1F05}\u{3B9}")
    } else if cp == 0x1F86 {
        Some("\u{1F06}\u{3B9}")
    } else if cp == 0x1F87 {
        Some("\u{1F07}\u{3B9}")
    } else if cp == 0x1F88 {
        Some("\u{1F00}\u{3B9}")
    } else if cp == 0x1F89 {
        Some("\u{1F01}\u{3B9}")
    } else if cp == 0x1F8A {
        Some("\u{1F02}\u{3B9}")
    } else if cp == 0x1F8B {
        Some("\u{1F03}\u{3B9}")
    } else if cp == 0x1F8C {
        Some("\u{1F04}\u{3B9}")
    } else if cp == 0x1F8D {
        Some("\u{1F05}\u{3B9}")
    } else if cp == 0x1F8E {
        Some("\u{1F06}\u{3B9}")
    } else if cp == 0x1F8F {
        Some("\u{1F07}\u{3B9}")
    } else if cp == 0x1F90 {
        Some("\u{1F20}\u{3B9}")
    } else if cp == 0x1F91 {
        Some("\u{1F21}\u{3B9}")
    } else if cp == 0x1F92 {
        Some("\u{1F22}\u{3B9}")
    } else if cp == 0x1F93 {
        Some("\u{1F23}\u{3B9}")
    } else if cp == 0x1F94 {
        Some("\u{1F24}\u{3B9}")
    } else if cp == 0x1F95 {
        Some("\u{1F25}\u{3B9}")
    } else if cp == 0x1F96 {
        Some("\u{1F26}\u{3B9}")
    } else if cp == 0x1F97 {
        Some("\u{1F27}\u{3B9}")
    } else if cp == 0x1F98 {
        Some("\u{1F20}\u{3B9}")
    } else if cp == 0x1F99 {
        Some("\u{1F21}\u{3B9}")
    } else if cp == 0x1F9A {
        Some("\u{1F22}\u{3B9}")
    } else if cp == 0x1F9B {
        Some("\u{1F23}\u{3B9}")
    } else if cp == 0x1F9C {
        Some("\u{1F24}\u{3B9}")
    } else if cp == 0x1F9D {
        Some("\u{1F25}\u{3B9}")
    } else if cp == 0x1F9E {
        Some("\u{1F26}\u{3B9}")
    } else if cp == 0x1F9F {
        Some("\u{1F27}\u{3B9}")
    } else if cp == 0x1FA0 {
        Some("\u{1F60}\u{3B9}")
    } else if cp == 0x1FA1 {
        Some("\u{1F61}\u{3B9}")
    } else if cp == 0x1FA2 {
        Some("\u{1F62}\u{3B9}")
    } else if cp == 0x1FA3 {
        Some("\u{1F63}\u{3B9}")
    } else if cp == 0x1FA4 {
        Some("\u{1F64}\u{3B9}")
    } else if cp == 0x1FA5 {
        Some("\u{1F65}\u{3B9}")
    } else if cp == 0x1FA6 {
        Some("\u{1F66}\u{3B9}")
    } else if cp == 0x1FA7 {
        Some("\u{1F67}\u{3B9}")
    } else if cp == 0x1FA8 {
        Some("\u{1F60}\u{3B9}")
    } else if cp == 0x1FA9 {
        Some("\u{1F61}\u{3B9}")
    } else if cp == 0x1FAA {
        Some("\u{1F62}\u{3B9}")
    } else if cp == 0x1FAB {
        Some("\u{1F63}\u{3B9}")
    } else if cp == 0x1FAC {
        Some("\u{1F64}\u{3B9}")
    } else if cp == 0x1FAD {
        Some("\u{1F65}\u{3B9}")
    } else if cp == 0x1FAE {
        Some("\u{1F66}\u{3B9}")
    } else if cp == 0x1FAF {
        Some("\u{1F67}\u{3B9}")
    } else if cp == 0x1FB2 {
        Some("\u{1F70}\u{3B9}")
    } else if cp == 0x1FB3 {
        Some("\u{3B1}\u{3B9}")
    } else if cp == 0x1FB4 {
        Some("\u{3AC}\u{3B9}")
    } else if cp == 0x1FB6 {
        Some("\u{3B1}\u{342}")
    } else if cp == 0x1FB7 {
        Some("\u{3B1}\u{342}\u{3B9}")
    } else if cp == 0x1FBC {
        Some("\u{3B1}\u{3B9}")
    } else if cp == 0x1FBE {
        Some("\u{3B9}")
    } else if cp == 0x1FC2 {
        Some("\u{1F74}\u{3B9}")
    } else if cp == 0x1FC3 {
        Some("\u{3B7}\u{3B9}")
    } else if cp == 0x1FC4 {
        Some("\u{3AE}\u{3B9}")
    } else if cp == 0x1FC6 {
        Some("\u{3B7}\u{342}")
    } else if cp == 0x1FC7 {
        Some("\u{3B7}\u{342}\u{3B9}")
    } else if cp == 0x1FCC {
        Some("\u{3B7}\u{3B9}")
    } else if cp == 0x1FD2 {
        Some("\u{3B9}\u{308}\u{300}")
    } else if cp == 0x1FD3 {
        Some("\u{3B9}\u{308}\u{301}")
    } else {
        None
    }
}

fn fold_exception_of_2(cp: u32) -> (r: Option<&'static str>)
    ensures
        r == fold_exception_2(cp),
{
    if cp == 0x1F56 {
        Some("\u{3C5}\u{313}\u{342}")
    } else if cp == 0x1F80 {
        Some("\u{1F00}\u{3B9}")
    } else if cp == 0x1F81 {
        Some("\u{1F01}\u{3B9}")
    } else if cp == 0x1F82 {
        Some("\u{1F02}\u{3B9}")
    } else if cp == 0x1F83 {
        Some("\u{1F03}\u{3B9}")
    } else if cp == 0x1F84 {
        Some("\u{1F04}\u{3B9}")
    } else if cp == 0x1F85 {
        Some("\u{1F05}\u{3B9}")
    } else if cp == 0x1F86 {
        Some("\u{1F06}\u{3B9}")
    } else if cp == 0x1F87 {
        Some("\u{1F07}\u{3B9}")
    } else if cp == 0x1F88 {
        Some("\u{1F00}\u{3B9}")
    } else if cp == 0x1F89 {
        Some("\u{1F01}\u{3B9}")
    } else if cp == 0x1F8A {
        Some("\u{1F02}\u{3B9}")
    } else if cp == 0x1F8B {
        Some("\u{1F03}\u{3B9}")
    } else if cp == 0x1F8C {
        Some("\u{1F04}\u{3B9}")
    } else if cp == 0x1F8D {
        Some("\u{1F05}\u{3B9}")
    } else if cp == 0x1F8E {
        Some("\u{1F06}\u{3B9}")
    } else if cp == 0x1F8F {
        Some("\u{1F07}\u{3B9}")
    } else if cp == 0x1F90 {
        Some("\u{1F20}\u{3B9}")
    } else if cp == 0x1F91 {
        Some("\u{1F21}\u{3B9}")
    } else if cp == 0x1F92 {
        Some("\u{1F22}\u{3B9}")
    } else if cp == 0x1F93 {
        Some("\u{1F23}\u{3B9}")
    } else if cp == 0x1F94 {
        Some("\u{1F24}\u{3B9}")
    } else if cp == 0x1F95 {
        Some("\u{1F25}\u{3B9}")
    } else if cp == 0x1F96 {
        Some("\u{1F26}\u{3B9}")
    } else if cp == 0x1F97 {
        Some("\u{1F27}\u{3B9}")
    } else if cp == 0x1F98 {
        Some("\u{1F20}\u{3B9}")
    } else if cp == 0x1F99 {
        Some("\u{1F21}\u{3B9}")
    } else if cp == 0x1F9A {
        Some("\u{1F22}\u{3B9}")
    } else if cp == 0x1F9B {
        Some("\u{1F23}\u{3B9}")
    } else if cp == 0x1F9C {
        Some("\u{1F24}\u{3B9}")
    } else if cp == 0x1F9D {
        Some("\u{1F25}\u{3B9}")
    } else if cp == 0x1F9E {
        Some("\u{1F26}\u{3B9}")
    } else if cp == 0x1F9F {
        Some("\u{1F27}\u{3B9}")
    } else if cp == 0x1FA0 {
        Some("\u{1F60}\u{3B9}")
    } else if cp == 0x1FA1 {
        Some("\u{1F61}\u{3B9}")
    } else if cp == 0x1FA2 {
        Some("\u{1F62}\u{3B9}")
    } else if cp == 0x1FA3 {
        Some("\u{1F63}\u{3B9}")
    } else if cp == 0x1FA4 {
        Some("\u{1F64}\u{3B9}")
    } else if cp == 0x1FA5 {
        Some("\u{1F65}\u{3B9}")
    } else if cp == 0x1FA6 {
        Some("\u{1F66}\u{3B9}")
    } else if cp == 0x1FA7 {
        Some("\u{1F67}\u{3B9}")
    } else if cp == 0x1FA8 {
        Some("\u{1F60}\u{3B9}")
    } else if cp == 0x1FA9 {
        Some("\u{1F61}\u{3B9}")
    } else if cp == 0x1FAA {
        Some("\u{1F62}\u{3B9}")
    } else if cp == 0x1FAB {
        Some("\u{1F63}\u{3B9}")
    } else if cp == 0x1FAC {
        Some("\u{1F64}\u{3B9}")
    } else if cp == 0x1FAD {
        Some("\u{1F65}\u{3B9}")
    } else if cp == 0x1FAE {
        Some("\u{1F66}\u{3B9}")
    } else if cp == 0x1FAF {
        Some("\u{1F67}\u{3B9}")
    } else if cp == 0x1FB2 {
        Some("\u{1F70}\u{3B9}")
    } else if cp == 0x1FB3 {
        Some("\u{3B1}\u{3B9}")
    } else if cp == 0x1FB4 {
        Some("\u{3AC}\u{3B9}")
    } else if cp == 0x1FB6 {
        Some("\u{3B1}\u{342}")
    } else if cp == 0x1FB7 {
        Some("\u{3B1}\u{342}\u{3B9}")
    } else if cp == 0x1FBC {
        Some("\u{3B1}\u{3B9}")
    } else if cp == 0x1FBE {
        Some("\u{3B9}")
    } else if cp == 0x1FC2 {
        Some("\u{1F74}\u{3B9}")
    } else if cp == 0x1FC3 {
        Some("\u{3B7}\u{3B9}")
    } else if cp == 0x1FC4 {
        Some("\u{3AE}\u{3B9}")
    } else if cp == 0x1FC6 {
        Some("\u{3B7}\u{342}")
    } else if cp == 0x1FC7 {
        Some("\u{3B7}\u{342}\u{3B9}")
    } else if cp == 0x1FCC {
        Some("\u{3B7}\u{3B9}")
    } else if cp == 0x1FD2 {
        Some("\u{3B9}\u{308}\u{300}")
    } else if cp == 0x1FD3 {
        Some("\u{3B9}\u{308}\u{301}")
    } else {
        None
    }
}

/// One part of the table [`fold_exception`], by code point.
pub open spec fn fold_exception_3(cp: u32) -> Option<&'static str> {
    if cp == 0x1FD6 {
        Some("\u{3B9}\u{342}")
    } else if cp == 0x1FD7 {
        Some("\u{3B9}\u{308}\u{342}")
    } else if cp == 0x1FE2 {
        Some("\u{3C5}\u{308}\u{300}")
    } else if cp == 0x1FE3 {
        Some("\u{3C5}\u{308}\u{301}")
    } else if cp == 0x1FE4 {
        Some("\u{3C1}\u{313}")
    } else if cp == 0x1FE6 {
        Some("\u{3C5}\u{342}")
    } else if cp == 0x1FE7 {
        Some("\u{3C5}\u{308}\u{342}")
    } else if cp == 0x1FF2 {
        Some("\u{1F7C}\u{3B9}")
    } else if cp == 0x1FF3 {
        Some("\u{3C9}\u{3B9}")
    } else if cp == 0x1FF4 {
        Some("\u{3CE}\u{3B9}")
    } else if cp == 0x1FF6 {
        Some("\u{3C9}\u{342}")
    } else if cp == 0x1FF7 {
        Some("\u{3C9}\u{342}\u{3B9}")
    } else if cp == 0x1FFC {
        Some("\u{3C9}\u{3B9}")
    } else if cp == 0xAB70 {
        Some("\u{13A0}")
    } else if cp == 0xAB71 {
        Some("\u{13A1}")
    } else if cp == 0xAB72 {
        Some("\u{13A2}")
    } else if cp == 0xAB73 {
        Some("\u{13A3}")
    } else if cp == 0xAB74 {
        Some("\u{13A4}")
    } else if cp == 0xAB75 {
        Some("\u{13A5}")
    } else if cp == 0xAB76 {
        Some("\u{13A6}")
    } else if cp == 0xAB77 {
        Some("\u{13A7}")
    } else if cp == 0xAB78 {
        Some("\u{13A8}")
    } else if cp == 0xAB79 {
        Some("\u{13A9}")
    } else if cp == 0xAB7A {
        Some("\u{13AA}")
    } else if cp == 0xAB7B {
        Some("\u{13AB}")
    } else if cp == 0xAB7C {
        Some("\u{13AC}")
    } else if cp == 0xAB7D {
        Some("\u{13AD}")
    } else if cp == 0xAB7E {
        Some("\u{13AE}")
    } else if cp == 0xAB7F {
        Some("\u{13AF}")
    } else if cp == 0xAB80 {
        Some("\u{13B0}")
    } else if cp == 0xAB81 {
        Some("\u{13B1}")
    } else if cp == 0xAB82 {
        Some("\u{13B2}")
    } else if cp == 0xAB83 {
        Some("\u{13B3}")
    } else if cp == 0xAB84 {
        Some("\u{13B4}")
    } else if cp == 0xAB85 {
        Some("\u{13B5}")
    } else if cp == 0xAB86 {
        Some("\u{13B6}")
    } else if cp == 0xAB87 {
        Some("\u{13B7}")
    } else if cp == 0xAB88 {
        Some("\u{13B8}")
    } else if cp == 0xAB89 {
        Some("\u{13B9}")
    } else if cp == 0xAB8A {
        Some("\u{13BA}")
    } else if cp == 0xAB8B {
        Some("\u{13BB}")
    } else if cp == 0xAB8C {
        Some("\u{13BC}")
    } else if cp == 0xAB8D {
        Some("\u{13BD}")
    } else if cp == 0xAB8E {
        Some("\u{13BE}")
    } else if cp == 0xAB8F {
        Some("\u{13BF}")
    } else if cp == 0xAB90 {
        Some("\u{13C0}")
    } else if cp == 0xAB91 {
        Some("\u{13C1}")
    } else if cp == 0xAB92 {
        Some("\u{13C2}")
    } else if cp == 0xAB93 {
        Some("\u{13C3}")
    } else if cp == 0xAB94 {
        Some("\u{13C4}")
    } else if cp == 0xAB95 {
        Some("\u{13C5}")
    } else if cp == 0xAB96 {
        Some("\u{13C6}")
    } else if cp == 0xAB97 {
        Some("\u{13C7}")
    } else if cp == 0xAB98 {
        Some("\u{13C8}")
    } else if cp == 0xAB99 {
        Some("\u{13C9}")
    } else if cp == 0xAB9A {
        Some("\u{13CA}")
    } else if cp == 0xAB9B {
        Some("\u{13CB}")
    } else if cp == 0xAB9C {
        Some("\u{13CC}")
    } else if cp == 0xAB9D {
        Some("\u{13CD}")
    } else if cp == 0xAB9E {
        Some("\u{13CE}")
    } else if cp == 0xAB9F {
        Some("\u{13CF}")
    } else if cp == 0xABA0 {
        Some("\u{13D0}")
    } else if cp == 0xABA1 {
        Some("\u{13D1}")
    } else if cp == 0xABA2 {
        Some("\u{13D2}")
    } else {
        None
    }
}

fn fold_exception_of_3(cp: u32) -> (r: Option<&'static str>)
    ensures
        r == fold_exception_3(cp),
{
    if cp == 0x1FD6 {
        Some("\u{3B9}\u{342}")
    } else if cp == 0x1FD7 {
        Some("\u{3B9}\u{308}\u{342}")
    } else if cp == 0x1FE2 {
        Some("\u{3C5}\u{308}\u{300}")
    } else if cp == 0x1FE3 {
        Some("\u{3C5}\u{308}\u{301}")
    } else if cp == 0x1FE4 {
        Some("\u{3C1}\u{313}")
    } else if cp == 0x1FE6 {
        Some("\u{3C5}\u{342}")
    } else if cp == 0x1FE7 {
        Some("\u{3C5}\u{308}\u{342}")
    } else if cp == 0x1FF2 {
        Some("\u{1F7C}\u{3B9}")
    } else if cp == 0x1FF3 {
        Some("\u{3C9}\u{3B9}")
    } else if cp == 0x1FF4 {
        Some("\u{3CE}\u{3B9}")
    } else if cp == 0x1FF6 {
        Some("\u{3C9}\u{342}")
    } else if cp == 0x1FF7 {
        Some("\u{3C9}\u{342}\u{3B9}")
    } else if cp == 0x1FFC {
        Some("\u{3C9}\u{3B9}")
    } else if cp == 0xAB70 {
        Some("\u{13A0}")
    } else if cp == 0xAB71 {
        Some("\u{13A1}")
    } else if cp == 0xAB72 {
        Some("\u{13A2}")
    } else if cp == 0xAB73 {
        Some("\u{13A3}")
    } else if cp == 0xAB74 {
        Some("\u{13A4}")
    } else if cp == 0xAB75 {
        Some("\u{13A5}")
    } else if cp == 0xAB76 {
        Some("\u{13A6}")
    } else if cp == 0xAB77 {
        Some("\u{13A7}")
    } else if cp == 0xAB78 {
        Some("\u{13A8}")
    } else if cp == 0xAB79 {
        Some("\u{13A9}")
    } else if cp == 0xAB7A {
        Some("\u{13AA}")
    } else if cp == 0xAB7B {
        Some("\u{13AB}")
    } else if cp == 0xAB7C {
        Some("\u{13AC}")
    } else if cp == 0xAB7D {
        Some("\u{13AD}")
    } else if cp == 0xAB7E {
        Some("\u{13AE}")
    } else if cp == 0xAB7F {
        Some("\u{13AF}")
    } else if cp == 0xAB80 {
        Some("\u{13B0}")
    } else if cp == 0xAB81 {
        Some("\u{13B1}")
    } else if cp == 0xAB82 {
        Some("\u{13B2}")
    } else if cp == 0xAB83 {
        Some("\u{13B3}")
    } else if cp == 0xAB84 {
        Some("\u{13B4}")
    } else if cp == 0xAB85 {
        Some("\u{13B5}")
    } else if cp == 0xAB86 {
        Some("\u{13B6}")
    } else if cp == 0xAB87 {
        Some("\u{13B7}")
    } else if cp == 0xAB88 {
        Some("\u{13B8}")
    } else if cp == 0xAB89 {
        Some("\u{13B9}")
    } else if cp == 0xAB8A {
        Some("\u{13BA}")
    } else if cp == 0xAB8B {
        Some("\u{13BB}")
    } else if cp == 0xAB8C {
        Some("\u{13BC}")
    } else if cp == 0xAB8D {
        Some("\u{13BD}")
    } else if cp == 0xAB8E {
        Some("\u{13BE}")
    } else if cp == 0xAB8F {
        Some("\u{13BF}")
    } else if cp == 0xAB90 {
        Some("\u{13C0}")
    } else if cp == 0xAB91 {
        Some("\u{13C1}")
    } else if cp == 0xAB92 {
        Some("\u{13C2}")
    } else if cp == 0xAB93 {
        Some("\u{13C3}")
    } else if cp == 0xAB94 {
        Some("\u{13C4}")
    } else if cp == 0xAB95 {
        Some("\u{13C5}")
    } else if cp == 0xAB96 {
        Some("\u{13C6}")
    } else if cp == 0xAB97 {
        Some("\u{13C7}")
    } else if cp == 0xAB98 {
        Some("\u{13C8}")
    } else if cp == 0xAB99 {
        Some("\u{13C9}")
    } else if cp == 0xAB9A {
        Some("\u{13CA}")
    } else if cp == 0xAB9B {
        Some("\u{13CB}")
    } else if cp == 0xAB9C {
        Some("\u{13CC}")
    } else if cp == 0xAB9D {
        Some("\u{13CD}")
    } else if cp == 0xAB9E {
        Some("\u{13CE}")
    } else if cp == 0xAB9F {
        Some("\u{13CF}")
    } else if cp == 0xABA0 {
        Some("\u{13D0}")
    } else if cp == 0xABA1 {
        Some("\u{13D1}")
    } else if cp == 0xABA2 {
        Some("\u{13D2}")
    } else {
        None
    }
}

/// One part of the table [`fold_exception`], by code point.
pub open spec fn fold_exception_4(cp: u32) -> Option<&'static str> {
    if cp == 0xABA3 {
        Some("\u{13D3}")
    } else if cp == 0xABA4 {
        Some("\u{13D4}")
    } else if cp == 0xABA5 {
        Some("\u{13D5}")
    } else if cp == 0xABA6 {
        Some("\u{13D6}")
    } else if cp == 0xABA7 {
        Some("\u{13D7}")
    } else if cp == 0xABA8 {
        Some("\u{13D8}")
    } else if cp == 0xABA9 {
        Some("\u{13D9}")
    } else if cp == 0xABAA {
        Some("\u{13DA}")
    } else if cp == 0xABAB {
        Some("\u{13DB}")
    } else if cp == 0xABAC {
        Some("\u{13DC}")
    } else if cp == 0xABAD {
        Some("\u{13DD}")
    } else if cp == 0xABAE {
        Some("\u{13DE}")
    } else if cp == 0xABAF {
        Some("\u{13DF}")
    } else if cp == 0xABB0 {
        Some("\u{13E0}")
    } else if cp == 0xABB1 {
        Some("\u{13E1}")
    } else if cp == 0xABB2 {
        Some("\u{13E2}")
    } else if cp == 0xABB3 {
        Some("\u{13E3}")
    } else if cp == 0xABB4 {
        Some("\u{13E4}")
    } else if cp == 0xABB5 {
        Some("\u{13E5}")
    } else if cp == 0xABB6 {
        Some("\u{13E6}")
    } else if cp == 0xABB7 {
        Some("\u{13E7}")
    } else if cp == 0xABB8 {
        Some("\u{13E8}")
    } else if cp == 0xABB9 {
        Some("\u{13E9}")
    } else if cp == 0xABBA {
        Some("\u{13EA}")
    } else if cp == 0xABBB {
        Some("\u{13EB}")
    } else if cp == 0xABBC {
        Some("\u{13EC}")
    } else if cp == 0xABBD {
        Some("\u{13ED}")
    } else if cp == 0xABBE {
        Some("\u{13EE}")
    } else if cp == 0xABBF {
        Some("\u{13EF}")
    } else if cp == 0xFB00 {
        Some("ff")
    } else if cp == 0xFB01 {
        Some("fi")
    } else if cp == 0xFB02 {
        Some("fl")
    } else if cp == 0xFB03 {
        Some("ffi")
    } else if cp == 0xFB04 {
        Some("ffl")
    } else if cp == 0xFB05 {
        Some("st")
    } else if cp == 0xFB06 {
        Some("st")
    } else if cp == 0xFB13 {
        Some("\u{574}\u{576}")
    } else if cp == 0xFB14 {
        Some("\u{574}\u{565}")
    } else if cp == 0xFB15 {
        Some("\u{574}\u{56B}")
    } else if cp == 0xFB16 {
        Some("\u{57E}\u{576}")
    } else if cp == 0xFB17 {
        Some("\u{574}\u{56D}")
    } else {
        None
    }
}

fn fold_exception_of_4(cp: u32) -> (r: Option<&'static str>)
    ensures
        r == fold_exception_4(cp),
{
    if cp == 0xABA3 {
        Some("\u{13D3}")
    } else if cp == 0xABA4 {
        Some("\u{13D4}")
    } else if cp == 0xABA5 {
        Some("\u{13D5}")
    } else if cp == 0xABA6 {
        Some("\u{13D6}")
    } else if cp == 0xABA7 {
        Some("\u{13D7}")
    } else if cp == 0xABA8 {
        Some("\u{13D8}")
    } else if cp == 0xABA9 {
        Some("\u{13D9}")
    } else if cp == 0xABAA {
        Some("\u{13DA}")
    } else if cp == 0xABAB {
        Some("\u{13DB}")
    } else if cp == 0xABAC {
        Some("\u{13DC}")
    } else if cp == 0xABAD {
        Some("\u{13DD}")
    } else if cp == 0xABAE {
        Some("\u{13DE}")
    } else if cp == 0xABAF {
        Some("\u{13DF}")
    } else if cp == 0xABB0 {
        Some("\u{13E0}")
    } else if cp == 0xABB1 {
        Some("\u{13E1}")
    } else if cp == 0xABB2 {
        Some("\u{13E2}")
    } else if cp == 0xABB3 {
        Some("\u{13E3}")
    } else if cp == 0xABB4 {
        Some("\u{13E4}")
    } else if cp == 0xABB5 {
        Some("\u{13E5}")
    } else if cp == 0xABB6 {
        Some("\u{13E6}")
    } else if cp == 0xABB7 {
        Some("\u{13E7}")
    } else if cp == 0xABB8 {
        Some("\u{13E8}")
    } else if cp == 0xABB9 {
        Some("\u{13E9}")
    } else if cp == 0xABBA {
        Some("\u{13EA}")
    } else if cp == 0xABBB {
        Some("\u{13EB}")
    } else if cp == 0xABBC {
        Some("\u{13EC}")
    } else if cp == 0xABBD {
        Some("\u{13ED}")
    } else if cp == 0xABBE {
        Some("\u{13EE}")
    } else if cp == 0xABBF {
        Some("\u{13EF}")
    } else if cp == 0xFB00 {
        Some("ff")
    } else if cp == 0xFB01 {
        Some("fi")
    } else if cp == 0xFB02 {
        Some("fl")
    } else if cp == 0xFB03 {
        Some("ffi")
    } else if cp == 0xFB04 {
        Some("ffl")
    } else if cp == 0xFB05 {
        Some("st")
    } else if cp == 0xFB06 {
        Some("st")
    } else if cp == 0xFB13 {
        Some("\u{574}\u{576}")
    } else if cp == 0xFB14 {
        Some("\u{574}\u{565}")
    } else if cp == 0xFB15 {
        Some("\u{574}\u{56B}")
    } else if cp == 0xFB16 {
        Some("\u{57E}\u{576}")
    } else if cp == 0xFB17 {
        Some("\u{574}\u{56D}")
    } else {
        None
    }
}

/// The canonical combining class of the code point `cp` (0 for starters).
pub open spec fn combining_class(cp: u32) -> u8 {
    if cp <= 0x5B2 {
        combining_class_0(cp)
    } else if cp <= 0x734 {
        combining_class_1(cp)
    } else if cp <= 0x951 {
        combining_class_2(cp)
    } else if cp <= 0x17DD {
        combining_class_3(cp)
    } else if cp <= 0x1DF5 {
        combining_class_4(cp)
    } else if cp <= 0xAABF {
        combining_class_5(cp)
    } else if cp <= 0x11442 {
        combining_class_6(cp)
    } else {
        combining_class_7(cp)
    }
}

/// Returns the canonical combining class of `cp`.
pub fn combining_class_of(cp: u32) -> (r: u8)
    ensures
        r == combining_class(cp),
{
    if cp <= 0x5B2 {
        combining_class_of_0(cp)
    } else if cp <= 0x734 {
        combining_class_of_1(cp)
    } else if cp <= 0x951 {
        combining_class_of_2(cp)
    } else if cp <= 0x17DD {
        combining_class_of_3(cp)
    } else if cp <= 0x1DF5 {
        combining_class_of_4(cp)
    } else if cp <= 0xAABF {
        combining_class_of_5(cp)
    } else if cp <= 0x11442 {
        combining_class_of_6(cp)
    } else {
        combining_class_of_7(cp)
    }
}

/// One part of the table [`combining_class`], by code point.
pub open spec fn combining_class_0(cp: u32) -> u8 {
    if 0x300 <= cp <= 0x314 {
        230
    } else if 0x315 <= cp <= 0x315 {
        232
    } else if 0x316 <= cp <= 0x319 {
        220
    } else if 0x31A <= cp <= 0x31A {
        232
    } else if 0x31B <= cp <= 0x31B {
        216
    } else if 0x31C <= cp <= 0x320 {
        220
    } else if 0x321 <= cp <= 0x322 {
        202
    } else if 0x323 <= cp <= 0x326 {
        220
    } else if 0x327 <= cp <= 0x328 {
        202
    } else if 0x329 <= cp <= 0x333 {
        220
    } else if 0x334 <= cp <= 0x338 {
        1
    } else if 0x339 <= cp <= 0x33C {
        220
    } else if 0x33D <= cp <= 0x344 {
        230
    } else if 0x345 <= cp <= 0x345 {
        240
    } else if 0x346 <= cp <= 0x346 {
        230
    } else if 0x347 <= cp <= 0x349 {
        220
    } else if 0x34A <= cp <= 0x34C {
        230
    } else if 0x34D <= cp <= 0x34E {
        220
    } else if 0x350 <= cp <= 0x352 {
        230
    } else if 0x353 <= cp <= 0x356 {
        220
    } else if 0x357 <= cp <= 0x357 {
        230
    } else if 0x358 <= cp <= 0x358 {
        232
    } else if 0x359 <= cp <= 0x35A {
        220
    } else if 0x35B <= cp <= 0x35B {
        230
    } else if 0x35C <= cp <= 0x35C {
        233
    } else if 0x35D <= cp <= 0x35E {
        234
    } else if 0x35F <= cp <= 0x35F {
        233
    } else if 0x360 <= cp <= 0x361 {
        234
    } else if 0x362 <= cp <= 0x362 {
        233
    } else if 0x363 <= cp <= 0x36F {
        230
    } else if 0x483 <= cp <= 0x487 {
        230
    } else if 0x591 <= cp <= 0x591 {
        220
    } else if 0x592 <= cp <= 0x595 {
        230
    } else if 0x596 <= cp <= 0x596 {
        220
    } else if 0x597 <= cp <= 0x599 {
        230
    } else if 0x59A <= cp <= 0x59A {
        222
    } else if 0x59B <= cp <= 0x59B {
        220
    } else if 0x59C <= cp <= 0x5A1 {
        230
    } else if 0x5A2 <= cp <= 0x5A7 {
        220
    } else if 0x5A8 <= cp <= 0x5A9 {
        230
    } else if 0x5AA <= cp <= 0x5AA {
        220
    } else if 0x5AB <= cp <= 0x5AC {
        230
    } else if 0x5AD <= cp <= 0x5AD {
        222
    } else if 0x5AE <= cp <= 0x5AE {
        228
    } else if 0x5AF <= cp <= 0x5AF {
        230
    } else if 0x5B0 <= cp <= 0x5B0 {
        10
    } else if 0x5B1 <= cp <= 0x5B1 {
        11
    } else if 0x5B2 <= cp <= 0x5B2 {
        12
    } else {
        0
    }
}

fn combining_class_of_0(cp: u32) -> (r: u8)
    ensures
        r == combining_class_0(cp),
{
    if 0x300 <= cp && cp <= 0x314 {
        230
    } else if 0x315 <= cp && cp <= 0x315 {
        232
    } else if 0x316 <= cp && cp <= 0x319 {
        220
    } else if 0x31A <= cp && cp <= 0x31A {
        232
    } else if 0x31B <= cp && cp <= 0x31B {
        216
    } else if 0x31C <= cp && cp <= 0x320 {
        220
    } else if 0x321 <= cp && cp <= 0x322 {
        202
    } else if 0x323 <= cp && cp <= 0x326 {
        220
    } else if 0x327 <= cp && cp <= 0x328 {
        202
    } else if 0x329 <= cp && cp <= 0x333 {
        220
    } else if 0x334 <= cp && cp <= 0x338 {
        1
    } else if 0x339 <= cp && cp <= 0x33C {
        220
    } else if 0x33D <= cp && cp <= 0x344 {
        230
    } else if 0x345 <= cp && cp <= 0x345 {
        240
    } else if 0x346 <= cp && cp <= 0x346 {
        230
    } else if 0x347 <= cp && cp <= 0x349 {
        220
    } else if 0x34A <= cp && cp <= 0x34C {
        230
    } else if 0x34D <= cp && cp <= 0x34E {
        220
    } else if 0x350 <= cp && cp <= 0x352 {
        230
    } else if 0x353 <= cp && cp <= 0x356 {
        220
    } else if 0x357 <= cp && cp <= 0x357 {
        230
    } else if 0x358 <= cp && cp <= 0x358 {
        232
    } else if 0x359 <= cp && cp <= 0x35A {
        220
    } else if 0x35B <= cp && cp <= 0x35B {
        230
    } else if 0x35C <= cp && cp <= 0x35C {
        233
    } else if 0x35D <= cp && cp <= 0x35E {
        234
    } else if 0x35F <= cp && cp <= 0x35F {
        233
    } else if 0x360 <= cp && cp <= 0x361 {
        234
    } else if 0x362 <= cp && cp <= 0x362 {
        233
    } else if 0x363 <= cp && cp <= 0x36F {
        230
    } else if 0x483 <= cp && cp <= 0x487 {
        230
    } else if 0x591 <= cp && cp <= 0x591 {
        220
    } else if 0x592 <= cp && cp <= 0x595 {
        230
    } else if 0x596 <= cp && cp <= 0x596 {
        220
    } else if 0x597 <= cp && cp <= 0x599 {
        230
    } else if 0x59A <= cp && cp <= 0x59A {
        222
    } else if 0x59B <= cp && cp <= 0x59B {
        220
    } else if 0x59C <= cp && cp <= 0x5A1 {
        230
    } else if 0x5A2 <= cp && cp <= 0x5A7 {
        220
    } else if 0x5A8 <= cp && cp <= 0x5A9 {
        230
    } else if 0x5AA <= cp && cp <= 0x5AA {
        220
    } else if 0x5AB <= cp && cp <= 0x5AC {
        230
    } else if 0x5AD <= cp && cp <= 0x5AD {
        222
    } else if 0x5AE <= cp && cp <= 0x5AE {
        228
    } else if 0x5AF <= cp && cp <= 0x5AF {
        230
    } else if 0x5B0 <= cp && cp <= 0x5B0 {
        10
    } else if 0x5B1 <= cp && cp <= 0x5B1 {
        11
    } else if 0x5B2 <= cp && cp <= 0x5B2 {
        12
    } else {
        0
    }
}

/// One part of the table [`combining_class`], by code point.
pub open spec fn combining_class_1(cp: u32) -> u8 {
    if 0x5B3 <= cp <= 0x5B3 {
        13
    } else if 0x5B4 <= cp <= 0x5B4 {
        14
    } else if 0x5B5 <= cp <= 0x5B5 {
        15
    } else if 0x5B6 <= cp <= 0x5B6 {
        16
    } else if 0x5B7 <= cp <= 0x5B7 {
        17
    } else if 0x5B8 <= cp <= 0x5B8 {
        18
    } else if 0x5B9 <= cp <= 0x5BA {
        19
    } else if 0x5BB <= cp <= 0x5BB {
        20
    } else if 0x5BC <= cp <= 0x5BC {
        21
    } else if 0x5BD <= cp <= 0x5BD {
        22
    } else if 0x5BF <= cp <= 0x5BF {
        23
    } else if 0x5C1 <= cp <= 0x5C1 {
        24
    } else if 0x5C2 <= cp <= 0x5C2 {
        25
    } else if 0x5C4 <= cp <= 0x5C4 {
        230
    } else if 0x5C5 <= cp <= 0x5C5 {
        220
    } else if 0x5C7 <= cp <= 0x5C7 {
        18
    } else if 0x610 <= cp <= 0x617 {
        230
    } else if 0x618 <= cp <= 0x618 {
        30
    } else if 0x619 <= cp <= 0x619 {
        31
    } else if 0x61A <= cp <= 0x61A {
        32
    } else if 0x64B <= cp <= 0x64B {
        27
    } else if 0x64C <= cp <= 0x64C {
        28
    } else if 0x64D <= cp <= 0x64D {
        29
    } else if 0x64E <= cp <= 0x64E {
        30
    } else if 0x64F <= cp <= 0x64F {
        31
    } else if 0x650 <= cp <= 0x650 {
        32
    } else if 0x651 <= cp <= 0x651 {
        33
    } else if 0x652 <= cp <= 0x652 {
        34
    } else if 0x653 <= cp <= 0x654 {
        230
    } else if 0x655 <= cp <= 0x656 {
        220
    } else if 0x657 <= cp <= 0x65B {
        230
    } else if 0x65C <= cp <= 0x65C {
        220
    } else if 0x65D <= cp <= 0x65E {
        230
    } else if 0x65F <= cp <= 0x65F {
        220
    } else if 0x670 <= cp <= 0x670 {
        35
    } else if 0x6D6 <= cp <= 0x6DC {
        230
    } else if 0x6DF <= cp <= 0x6E2 {
        230
    } else if 0x6E3 <= cp <= 0x6E3 {
        220
    } else if 0x6E4 <= cp <= 0x6E4 {
        230
    } else if 0x6E7 <= cp <= 0x6E8 {
        230
    } else if 0x6EA <= cp <= 0x6EA {
        220
    } else if 0x6EB <= cp <= 0x6EC {
        230
    } else if 0x6ED <= cp <= 0x6ED {
        220
    } else if 0x711 <= cp <= 0x711 {
        36
    } else if 0x730 <= cp <= 0x730 {
        230
    } else if 0x731 <= cp <= 0x731 {
        220
    } else if 0x732 <= cp <= 0x733 {
        230
    } else if 0x734 <= cp <= 0x734 {
        220
    } else {
        0
    }
}

fn combining_class_of_1(cp: u32) -> (r: u8)
    ensures
        r == combining_class_1(cp),
{
    if 0x5B3 <= cp && cp <= 0x5B3 {
        13
    } else if 0x5B4 <= cp && cp <= 0x5B4 {
        14
    } else if 0x5B5 <= cp && cp <= 0x5B5 {
        15
    } else if 0x5B6 <= cp && cp <= 0x5B6 {
        16
    } else if 0x5B7 <= cp && cp <= 0x5B7 {
        17
    } else if 0x5B8 <= cp && cp <= 0x5B8 {
        18
    } else if 0x5B9 <= cp && cp <= 0x5BA {
        19
    } else if 0x5BB <= cp && cp <= 0x5BB {
        20
    } else if 0x5BC <= cp && cp <= 0x5BC {
        21
    } else if 0x5BD <= cp && cp <= 0x5BD {
        22
    } else if 0x5BF <= cp && cp <= 0x5BF {
        23
    } else if 0x5C1 <= cp && cp <= 0x5C1 {
        24
    } else if 0x5C2 <= cp && cp <= 0x5C2 {
        25
    } else if 0x5C4 <= cp && cp <= 0x5C4 {
        230
    } else if 0x5C5 <= cp && cp <= 0x5C5 {
        220
    } else if 0x5C7 <= cp && cp <= 0x5C7 {
        18
    } else if 0x610 <= cp && cp <= 0x617 {
        230
    } else if 0x618 <= cp && cp <= 0x618 {
        30
    } else if 0x619 <= cp && cp <= 0x619 {
        31
    } else if 0x61A <= cp && cp <= 0x61A {
        32
    } else if 0x64B <= cp && cp <= 0x64B {
        27
    } else if 0x64C <= cp && cp <= 0x64C {
        28
    } else if 0x64D <= cp && cp <= 0x64D {
        29
    } else if 0x64E <= cp && cp <= 0x64E {
        30
    } else if 0x64F <= cp && cp <= 0x64F {
        31
    } else if 0x650 <= cp && cp <= 0x650 {
        32
    } else if 0x651 <= cp && cp <= 0x651 {
        33
    } else if 0x652 <= cp && cp <= 0x652 {
        34
    } else if 0x653 <= cp && cp <= 0x654 {
        230
    } else if 0x655 <= cp && cp <= 0x656 {
        220
    } else if 0x657 <= cp && cp <= 0x65B {
        230
    } else if 0x65C <= cp && cp <= 0x65C {
        220
    } else if 0x65D <= cp && cp <= 0x65E {
        230
    } else if 0x65F <= cp && cp <= 0x65F {
        220
    } else if 0x670 <= cp && cp <= 0x670 {
        35
    } else if 0x6D6 <= cp && cp <= 0x6DC {
        230
    } else if 0x6DF <= cp && cp <= 0x6E2 {
        230
    } else if 0x6E3 <= cp && cp <= 0x6E3 {
        220
    } else if 0x6E4 <= cp && cp <= 0x6E4 {
        230
    } else if 0x6E7 <= cp && cp <= 0x6E8 {
        230
    } else if 0x6EA <= cp && cp <= 0x6EA {
        220
    } else if 0x6EB <= cp && cp <= 0x6EC {
        230
    } else if 0x6ED <= cp && cp <= 0x6ED {
        220
    } else if 0x711 <= cp && cp <= 0x711 {
        36
    } else if 0x730 <= cp && cp <= 0x730 {
        230
    } else if 0x731 <= cp && cp <= 0x731 {
        220
    } else if 0x732 <= cp && cp <= 0x733 {
        230
    } else if 0x734 <= cp && cp <= 0x734 {
        220
    } else {
        0
    }
}

/// One part of the table [`combining_class`], by code point.
pub open spec fn combining_class_2(cp: u32) -> u8 {
    if 0x735 <= cp <= 0x736 {
        230
    } else if 0x737 <= cp <= 0x739 {
        220
    } else if 0x73A <= cp <= 0x73A {
        230
    } else if 0x73B <= cp <= 0x73C {
        220
    } else if 0x73D <= cp <= 0x73D {
        230
    } else if 0x73E <= cp <= 0x73E {
        220
    } else if 0x73F <= cp <= 0x741 {
        230
    } else if 0x742 <= cp <= 0x742 {
        220
    } else if 0x743 <= cp <= 0x743 {
        230
    } else if 0x744 <= cp <= 0x744 {
        220
    } else if 0x745 <= cp <= 0x745 {
        230
    } else if 0x746 <= cp <= 0x746 {
        220
    } else if 0x747 <= cp <= 0x747 {
        230
    } else if 0x748 <= cp <= 0x748 {
        220
    } else if 0x749 <= cp <= 0x74A {
        230
    } else if 0x7EB <= cp <= 0x7F1 {
        230
    } else if 0x7F2 <= cp <= 0x7F2 {
        220
    } else if 0x7F3 <= cp <= 0x7F3 {
        230
    } else if 0x7FD <= cp <= 0x7FD {
        220
    } else if 0x816 <= cp <= 0x819 {
        230
    } else if 0x81B <= cp <= 0x823 {
        230
    } else if 0x825 <= cp <= 0x827 {
        230
    } else if 0x829 <= cp <= 0x82D {
        230
    } else if 0x859 <= cp <= 0x85B {
        220
    } else if 0x898 <= cp <= 0x898 {
        230
    } else if 0x899 <= cp <= 0x89B {
        220
    } else if 0x89C <= cp <= 0x89F {
        230
    } else if 0x8CA <= cp <= 0x8CE {
        230
    } else if 0x8CF <= cp <= 0x8D3 {
        220
    } else if 0x8D4 <= cp <= 0x8E1 {
        230
    } else if 0x8E3 <= cp <= 0x8E3 {
        220
    } else if 0x8E4 <= cp <= 0x8E5 {
        230
    } else if 0x8E6 <= cp <= 0x8E6 {
        220
    } else if 0x8E7 <= cp <= 0x8E8 {
        230
    } else if 0x8E9 <= cp <= 0x8E9 {
        220
    } else if 0x8EA <= cp <= 0x8EC {
        230
    } else if 0x8ED <= cp <= 0x8EF {
        220
    } else if 0x8F0 <= cp <= 0x8F0 {
        27
    } else if 0x8F1 <= cp <= 0x8F1 {
        28
    } else if 0x8F2 <= cp <= 0x8F2 {
        29
    } else if 0x8F3 <= cp <= 0x8F5 {
        230
    } else if 0x8F6 <= cp <= 0x8F6 {
        220
    } else if 0x8F7 <= cp <= 0x8F8 {
        230
    } else if 0x8F9 <= cp <= 0x8FA {
        220
    } else if 0x8FB <= cp <= 0x8FF {
        230
    } else if 0x93C <= cp <= 0x93C {
        7
    } else if 0x94D <= cp <= 0x94D {
        9
    } else if 0x951 <= cp <= 0x951 {
        230
    } else {
        0
    }
}

fn combining_class_of_2(cp: u32) -> (r: u8)
    ensures
        r == combining_class_2(cp),
{
    if 0x735 <= cp && cp <= 0x736 {
        230
    } else if 0x737 <= cp && cp <= 0x739 {
        220
    } else if 0x73A <= cp && cp <= 0x73A {
        230
    } else if 0x73B <= cp && cp <= 0x73C {
        220
    } else if 0x73D <= cp && cp <= 0x73D {
        230
    } else if 0x73E <= cp && cp <= 0x73E {
        220
    } else if 0x73F <= cp && cp <= 0x741 {
        230
    } else if 0x742 <= cp && cp <= 0x742 {
        220
    } else if 0x743 <= cp && cp <= 0x743 {
        230
    } else if 0x744 <= cp && cp <= 0x744 {
        220
    } else if 0x745 <= cp && cp <= 0x745 {
        230
    } else if 0x746 <= cp && cp <= 0x746 {
        220
    } else if 0x747 <= cp && cp <= 0x747 {
        230
    } else if 0x748 <= cp && cp <= 0x748 {
        220
    } else if 0x749 <= cp && cp <= 0x74A {
        230
    } else if 0x7EB <= cp && cp <= 0x7F1 {
        230
    } else if 0x7F2 <= cp && cp <= 0x7F2 {
        220
    } else if 0x7F3 <= cp && cp <= 0x7F3 {
        230
    } else if 0x7FD <= cp && cp <= 0x7FD {
        220
    } else if 0x816 <= cp && cp <= 0x819 {
        230
    } else if 0x81B <= cp && cp <= 0x823 {
        230
    } else if 0x825 <= cp && cp <= 0x827 {
        230
    } else if 0x829 <= cp && cp <= 0x82D {
        230
    } else if 0x859 <= cp && cp <= 0x85B {
        220
    } else if 0x898 <= cp && cp <= 0x898 {
        230
    } else if 0x899 <= cp && cp <= 0x89B {
        220
    } else if 0x89C <= cp && cp <= 0x89F {
        230
    } else if 0x8CA <= cp && cp <= 0x8CE {
        230
    } else if 0x8CF <= cp && cp <= 0x8D3 {
        220
    } else if 0x8D4 <= cp && cp <= 0x8E1 {
        230
    } else if 0x8E3 <= cp && cp <= 0x8E3 {
        220
    } else if 0x8E4 <= cp && cp <= 0x8E5 {
        230
    } else if 0x8E6 <= cp && cp <= 0x8E6 {
        220
    } else if 0x8E7 <= cp && cp <= 0x8E8 {
        230
    } else if 0x8E9 <= cp && cp <= 0x8E9 {
        220
    } else if 0x8EA <= cp && cp <= 0x8EC {
        230
    } else if 0x8ED <= cp && cp <= 0x8EF {
        220
    } else if 0x8F0 <= cp && cp <= 0x8F0 {
        27
    } else if 0x8F1 <= cp && cp <= 0x8F1 {
        28
    } else if 0x8F2 <= cp && cp <= 0x8F2 {
        29
    } else if 0x8F3 <= cp && cp <= 0x8F5 {
        230
    } else if 0x8F6 <= cp && cp <= 0x8F6 {
        220
    } else if 0x8F7 <= cp && cp <= 0x8F8 {
        230
    } else if 0x8F9 <= cp && cp <= 0x8FA {
        220
    } else if 0x8FB <= cp && cp <= 0x8FF {
        230
    } else if 0x93C <= cp && cp <= 0x93C {
        7
    } else if 0x94D <= cp && cp <= 0x94D {
        9
    } else if 0x951 <= cp && cp <= 0x951 {
        230
    } else {
        0
    }
}

/// One part of the table [`combining_class`], by code point.
pub open spec fn combining_class_3(cp: u32) -> u8 {
    if 0x952 <= cp <= 0x952 {
        220
    } else if 0x953 <= cp <= 0x954 {
        230
    } else if 0x9BC <= cp <= 0x9BC {
        7
    } else if 0x9CD <= cp <= 0x9CD {
        9
    } else if 0x9FE <= cp <= 0x9FE {
        230
    } else if 0xA3C <= cp <= 0xA3C {
        7
    } else if 0xA4D <= cp <= 0xA4D {
        9
    } else if 0xABC <= cp <= 0xABC {
        7
    } else if 0xACD <= cp <= 0xACD {
        9
    } else if 0xB3C <= cp <= 0xB3C {
        7
    } else if 0xB4D <= cp <= 0xB4D {
        9
    } else if 0xBCD <= cp <= 0xBCD {
        9
    } else if 0xC3C <= cp <= 0xC3C {
        7
    } else if 0xC4D <= cp <= 0xC4D {
        9
    } else if 0xC55 <= cp <= 0xC55 {
        84
    } else if 0xC56 <= cp <= 0xC56 {
        91
    } else if 0xCBC <= cp <= 0xCBC {
        7
    } else if 0xCCD <= cp <= 0xCCD {
        9
    } else if 0xD3B <= cp <= 0xD3C {
        9
    } else if 0xD4D <= cp <= 0xD4D {
        9
    } else if 0xDCA <= cp <= 0xDCA {
        9
    } else if 0xE38 <= cp <= 0xE39 {
        103
    } else if 0xE3A <= cp <= 0xE3A {
        9
    } else if 0xE48 <= cp <= 0xE4B {
        107
    } else if 0xEB8 <= cp <= 0xEB9 {
        118
    } else if 0xEBA <= cp <= 0xEBA {
        9
    } else if 0xEC8 <= cp <= 0xECB {
        122
    } else if 0xF18 <= cp <= 0xF19 {
        220
    } else if 0xF35 <= cp <= 0xF35 {
        220
    } else if 0xF37 <= cp <= 0xF37 {
        220
    } else if 0xF39 <= cp <= 0xF39 {
        216
    } else if 0xF71 <= cp <= 0xF71 {
        129
    } else if 0xF72 <= cp <= 0xF72 {
        130
    } else if 0xF74 <= cp <= 0xF74 {
        132
    } else if 0xF7A <= cp <= 0xF7D {
        130
    } else if 0xF80 <= cp <= 0xF80 {
        130
    } else if 0xF82 <= cp <= 0xF83 {
        230
    } else if 0xF84 <= cp <= 0xF84 {
        9
    } else if 0xF86 <= cp <= 0xF87 {
        230
    } else if 0xFC6 <= cp <= 0xFC6 {
        220
    } else if 0x1037 <= cp <= 0x1037 {
        7
    } else if 0x1039 <= cp <= 0x103A {
        9
    } else if 0x108D <= cp <= 0x108D {
        220
    } else if 0x135D <= cp <= 0x135F {
        230
    } else if 0x1714 <= cp <= 0x1715 {
        9
    } else if 0x1734 <= cp <= 0x1734 {
        9
    } else if 0x17D2 <= cp <= 0x17D2 {
        9
    } else if 0x17DD <= cp <= 0x17DD {
        230
    } else {
        0
    }
}

fn combining_class_of_3(cp: u32) -> (r: u8)
    ensures
        r == combining_class_3(cp),
{
    if 0x952 <= cp && cp <= 0x952 {
        220
    } else if 0x953 <= cp && cp <= 0x954 {
        230
    } else if 0x9BC <= cp && cp <= 0x9BC {
        7
    } else if 0x9CD <= cp && cp <= 0x9CD {
        9
    } else if 0x9FE <= cp && cp <= 0x9FE {
        230
    } else if 0xA3C <= cp && cp <= 0xA3C {
        7
    } else if 0xA4D <= cp && cp <= 0xA4D {
        9
    } else if 0xABC <= cp && cp <= 0xABC {
        7
    } else if 0xACD <= cp && cp <= 0xACD {
        9
    } else if 0xB3C <= cp && cp <= 0xB3C {
        7
    } else if 0xB4D <= cp && cp <= 0xB4D {
        9
    } else if 0xBCD <= cp && cp <= 0xBCD {
        9
    } else if 0xC3C <= cp && cp <= 0xC3C {
        7
    } else if 0xC4D <= cp && cp <= 0xC4D {
        9
    } else if 0xC55 <= cp && cp <= 0xC55 {
        84
    } else if 0xC56 <= cp && cp <= 0xC56 {
        91
    } else if 0xCBC <= cp && cp <= 0xCBC {
        7
    } else if 0xCCD <= cp && cp <= 0xCCD {
        9
    } else if 0xD3B <= cp && cp <= 0xD3C {
        9
    } else if 0xD4D <= cp && cp <= 0xD4D {
        9
    } else if 0xDCA <= cp && cp <= 0xDCA {
        9
    } else if 0xE38 <= cp && cp <= 0xE39 {
        103
    } else if 0xE3A <= cp && cp <= 0xE3A {
        9
    } else if 0xE48 <= cp && cp <= 0xE4B {
        107
    } else if 0xEB8 <= cp && cp <= 0xEB9 {
        118
    } else if 0xEBA <= cp && cp <= 0xEBA {
        9
    } else if 0xEC8 <= cp && cp <= 0xECB {
        122
    } else if 0xF18 <= cp && cp <= 0xF19 {
        220
    } else if 0xF35 <= cp && cp <= 0xF35 {
        220
    } else if 0xF37 <= cp && cp <= 0xF37 {
        220
    } else if 0xF39 <= cp && cp <= 0xF39 {
        216
    } else if 0xF71 <= cp && cp <= 0xF71 {
        129
    } else if 0xF72 <= cp && cp <= 0xF72 {
        130
    } else if 0xF74 <= cp && cp <= 0xF74 {
        132
    } else if 0xF7A <= cp && cp <= 0xF7D {
        130
    } else if 0xF80 <= cp && cp <= 0xF80 {
        130
    } else if 0xF82 <= cp && cp <= 0xF83 {
        230
    } else if 0xF84 <= cp && cp <= 0xF84 {
        9
    } else if 0xF86 <= cp && cp <= 0xF87 {
        230
    } else if 0xFC6 <= cp && cp <= 0xFC6 {
        220
    } else if 0x1037 <= cp && cp <= 0x1037 {
        7
    } else if 0x1039 <= cp && cp <= 0x103A {
        9
    } else if 0x108D <= cp && cp <= 0x108D {
        220
    } else if 0x135D <= cp && cp <= 0x135F {
        230
    } else if 0x1714 <= cp && cp <= 0x1715 {
        9
    } else if 0x1734 <= cp && cp <= 0x1734 {
        9
    } else if 0x17D2 <= cp && cp <= 0x17D2 {
        9
    } else if 0x17DD <= cp && cp <= 0x17DD {
        230
    } else {
        0
    }
}

/// One part of the table [`combining_class`], by code point.
pub open spec fn combining_class_4(cp: u32) -> u8 {
    if 0x18A9 <= cp <= 0x18A9 {
        228
    } else if 0x1939 <= cp <= 0x1939 {
        222
    } else if 0x193A <= cp <= 0x193A {
        230
    } else if 0x193B <= cp <= 0x193B {
        220
    } else if 0x1A17 <= cp <= 0x1A17 {
        230
    } else if 0x1A18 <= cp <= 0x1A18 {
        220
    } else if 0x1A60 <= cp <= 0x1A60 {
        9
    } else if 0x1A75 <= cp <= 0x1A7C {
        230
    } else if 0x1A7F <= cp <= 0x1A7F {
        220
    } else if 0x1AB0 <= cp <= 0x1AB4 {
        230
    } else if 0x1AB5 <= cp <= 0x1ABA {
        220
    } else if 0x1ABB <= cp <= 0x1ABC {
        230
    } else if 0x1ABD <= cp <= 0x1ABD {
        220
    } else if 0x1ABF <= cp <= 0x1AC0 {
        220
    } else if 0x1AC1 <= cp <= 0x1AC2 {
        230
    } else if 0x1AC3 <= cp <= 0x1AC4 {
        220
    } else if 0x1AC5 <= cp <= 0x1AC9 {
        230
    } else if 0x1ACA <= cp <= 0x1ACA {
        220
    } else if 0x1ACB <= cp <= 0x1ACE {
        230
    } else if 0x1B34 <= cp <= 0x1B34 {
        7
    } else if 0x1B44 <= cp <= 0x1B44 {
        9
    } else if 0x1B6B <= cp <= 0x1B6B {
        230
    } else if 0x1B6C <= cp <= 0x1B6C {
        220
    } else if 0x1B6D <= cp <= 0x1B73 {
        230
    } else if 0x1BAA <= cp <= 0x1BAB {
        9
    } else if 0x1BE6 <= cp <= 0x1BE6 {
        7
    } else if 0x1BF2 <= cp <= 0x1BF3 {
        9
    } else if 0x1C37 <= cp <= 0x1C37 {
        7
    } else if 0x1CD0 <= cp <= 0x1CD2 {
        230
    } else if 0x1CD4 <= cp <= 0x1CD4 {
        1
    } else if 0x1CD5 <= cp <= 0x1CD9 {
        220
    } else if 0x1CDA <= cp <= 0x1CDB {
        230
    } else if 0x1CDC <= cp <= 0x1CDF {
        220
    } else if 0x1CE0 <= cp <= 0x1CE0 {
        230
    } else if 0x1CE2 <= cp <= 0x1CE8 {
        1
    } else if 0x1CED <= cp <= 0x1CED {
        220
    } else if 0x1CF4 <= cp <= 0x1CF4 {
        230
    } else if 0x1CF8 <= cp <= 0x1CF9 {
        230
    } else if 0x1DC0 <= cp <= 0x1DC1 {
        230
    } else if 0x1DC2 <= cp <= 0x1DC2 {
        220
    } else if 0x1DC3 <= cp <= 0x1DC9 {
        230
    } else if 0x1DCA <= cp <= 0x1DCA {
        220
    } else if 0x1DCB <= cp <= 0x1DCC {
        230
    } else if 0x1DCD <= cp <= 0x1DCD {
        234
    } else if 0x1DCE <= cp <= 0x1DCE {
        214
    } else if 0x1DCF <= cp <= 0x1DCF {
        220
    } else if 0x1DD0 <= cp <= 0x1DD0 {
        202
    } else if 0x1DD1 <= cp <= 0x1DF5 {
        230
    } else {
        0
    }
}

fn combining_class_of_4(cp: u32) -> (r: u8)
    ensures
        r == combining_class_4(cp),
{
    if 0x18A9 <= cp && cp <= 0x18A9 {
        228
    } else if 0x1939 <= cp && cp <= 0x1939 {
        222
    } else if 0x193A <= cp && cp <= 0x193A {
        230
    } else if 0x193B <= cp && cp <= 0x193B {
        220
    } else if 0x1A17 <= cp && cp <= 0x1A17 {
        230
    } else if 0x1A18 <= cp && cp <= 0x1A18 {
        220
    } else if 0x1A60 <= cp && cp <= 0x1A60 {
        9
    } else if 0x1A75 <= cp && cp <= 0x1A7C {
        230
    } else if 0x1A7F <= cp && cp <= 0x1A7F {
        220
    } else if 0x1AB0 <= cp && cp <= 0x1AB4 {
        230
    } else if 0x1AB5 <= cp && cp <= 0x1ABA {
        220
    } else if 0x1ABB <= cp && cp <= 0x1ABC {
        230
    } else if 0x1ABD <= cp && cp <= 0x1ABD {
        220
    } else if 0x1ABF <= cp && cp <= 0x1AC0 {
        220
    } else if 0x1AC1 <= cp && cp <= 0x1AC2 {
        230
    } else if 0x1AC3 <= cp && cp <= 0x1AC4 {
        220
    } else if 0x1AC5 <= cp && cp <= 0x1AC9 {
        230
    } else if 0x1ACA <= cp && cp <= 0x1ACA {
        220
    } else if 0x1ACB <= cp && cp <= 0x1ACE {
        230
    } else if 0x1B34 <= cp && cp <= 0x1B34 {
        7
    } else if 0x1B44 <= cp && cp <= 0x1B44 {
        9
    } else if 0x1B6B <= cp && cp <= 0x1B6B {
        230
    } else if 0x1B6C <= cp && cp <= 0x1B6C {
        220
    } else if 0x1B6D <= cp && cp <= 0x1B73 {
        230
    } else if 0x1BAA <= cp && cp <= 0x1BAB {
        9
    } else if 0x1BE6 <= cp && cp <= 0x1BE6 {
        7
    } else if 0x1BF2 <= cp && cp <= 0x1BF3 {
        9
    } else if 0x1C37 <= cp && cp <= 0x1C37 {
        7
    } else if 0x1CD0 <= cp && cp <= 0x1CD2 {
        230
    } else if 0x1CD4 <= cp && cp <= 0x1CD4 {
        1
    } else if 0x1CD5 <= cp && cp <= 0x1CD9 {
        220
    } else if 0x1CDA <= cp && cp <= 0x1CDB {
        230
    } else if 0x1CDC <= cp && cp <= 0x1CDF {
        220
    } else if 0x1CE0 <= cp && cp <= 0x1CE0 {
        230
    } else if 0x1CE2 <= cp && cp <= 0x1CE8 {
        1
    } else if 0x1CED <= cp && cp <= 0x1CED {
        220
    } else if 0x1CF4 <= cp && cp <= 0x1CF4 {
        230
    } else if 0x1CF8 <= cp && cp <= 0x1CF9 {
        230
    } else if 0x1DC0 <= cp && cp <= 0x1DC1 {
        230
    } else if 0x1DC2 <= cp && cp <= 0x1DC2 {
        220
    } else if 0x1DC3 <= cp && cp <= 0x1DC9 {
        230
    } else if 0x1DCA <= cp && cp <= 0x1DCA {
        220
    } else if 0x1DCB <= cp && cp <= 0x1DCC {
        230
    } else if 0x1DCD <= cp && cp <= 0x1DCD {
        234
    } else if 0x1DCE <= cp && cp <= 0x1DCE {
        214
    } else if 0x1DCF <= cp && cp <= 0x1DCF {
        220
    } else if 0x1DD0 <= cp && cp <= 0x1DD0 {
        202
    } else if 0x1DD1 <= cp && cp <= 0x1DF5 {
        230
    } else {
        0
    }
}

/// One part of the table [`combining_class`], by code point.
pub open spec fn combining_class_5(cp: u32) -> u8 {
    if 0x1DF6 <= cp <= 0x1DF6 {
        232
    } else if 0x1DF7 <= cp <= 0x1DF8 {
        228
    } else if 0x1DF9 <= cp <= 0x1DF9 {
        220
    } else if 0x1DFA <= cp <= 0x1DFA {
        218
    } else if 0x1DFB <= cp <= 0x1DFB {
        230
    } else if 0x1DFC <= cp <= 0x1DFC {
        233
    } else if 0x1DFD <= cp <= 0x1DFD {
        220
    } else if 0x1DFE <= cp <= 0x1DFE {
        230
    } else if 0x1DFF <= cp <= 0x1DFF {
        220
    } else if 0x20D0 <= cp <= 0x20D1 {
        230
    } else if 0x20D2 <= cp <= 0x20D3 {
        1
    } else if 0x20D4 <= cp <= 0x20D7 {
        230
    } else if 0x20D8 <= cp <= 0x20DA {
        1
    } else if 0x20DB <= cp <= 0x20DC {
        230
    } else if 0x20E1 <= cp <= 0x20E1 {
        230
    } else if 0x20E5 <= cp <= 0x20E6 {
        1
    } else if 0x20E7 <= cp <= 0x20E7 {
        230
    } else if 0x20E8 <= cp <= 0x20E8 {
        220
    } else if 0x20E9 <= cp <= 0x20E9 {
        230
    } else if 0x20EA <= cp <= 0x20EB {
        1
    } else if 0x20EC <= cp <= 0x20EF {
        220
    } else if 0x20F0 <= cp <= 0x20F0 {
        230
    } else if 0x2CEF <= cp <= 0x2CF1 {
        230
    } else if 0x2D7F <= cp <= 0x2D7F {
        9
    } else if 0x2DE0 <= cp <= 0x2DFF {
        230
    } else if 0x302A <= cp <= 0x302A {
        218
    } else if 0x302B <= cp <= 0x302B {
        228
    } else if 0x302C <= cp <= 0x302C {
        232
    } else if 0x302D <= cp <= 0x302D {
        222
    } else if 0x302E <= cp <= 0x302F {
        224
    } else if 0x3099 <= cp <= 0x309A {
        8
    } else if 0xA66F <= cp <= 0xA66F {
        230
    } else if 0xA674 <= cp <= 0xA67D {
        230
    } else if 0xA69E <= cp <= 0xA69F {
        230
    } else if 0xA6F0 <= cp <= 0xA6F1 {
        230
    } else if 0xA806 <= cp <= 0xA806 {
        9
    } else if 0xA82C <= cp <= 0xA82C {
        9
    } else if 0xA8C4 <= cp <= 0xA8C4 {
        9
    } else if 0xA8E0 <= cp <= 0xA8F1 {
        230
    } else if 0xA92B <= cp <= 0xA92D {
        220
    } else if 0xA953 <= cp <= 0xA953 {
        9
    } else if 0xA9B3 <= cp <= 0xA9B3 {
        7
    } else if 0xA9C0 <= cp <= 0xA9C0 {
        9
    } else if 0xAAB0 <= cp <= 0xAAB0 {
        230
    } else if 0xAAB2 <= cp <= 0xAAB3 {
        230
    } else if 0xAAB4 <= cp <= 0xAAB4 {
        220
    } else if 0xAAB7 <= cp <= 0xAAB8 {
        230
    } else if 0xAABE <= cp <= 0xAABF {
        230
    } else {
        0
    }
}

fn combining_class_of_5(cp: u32) -> (r: u8)
    ensures
        r == combining_class_5(cp),
{
    if 0x1DF6 <= cp && cp <= 0x1DF6 {
        232
    } else if 0x1DF7 <= cp && cp <= 0x1DF8 {
        228
    } else if 0x1DF9 <= cp && cp <= 0x1DF9 {
        220
    } else if 0x1DFA <= cp && cp <= 0x1DFA {
        218
    } else if 0x1DFB <= cp && cp <= 0x1DFB {
        230
    } else if 0x1DFC <= cp && cp <= 0x1DFC {
        233
    } else if 0x1DFD <= cp && cp <= 0x1DFD {
        220
    } else if 0x1DFE <= cp && cp <= 0x1DFE {
        230
    } else if 0x1DFF <= cp && cp <= 0x1DFF {
        220
    } else if 0x20D0 <= cp && cp <= 0x20D1 {
        230
    } else if 0x20D2 <= cp && cp <= 0x20D3 {
        1
    } else if 0x20D4 <= cp && cp <= 0x20D7 {
        230
    } else if 0x20D8 <= cp && cp <= 0x20DA {
        1
    } else if 0x20DB <= cp && cp <= 0x20DC {
        230
    } else if 0x20E1 <= cp && cp <= 0x20E1 {
        230
    } else if 0x20E5 <= cp && cp <= 0x20E6 {
        1
    } else if 0x20E7 <= cp && cp <= 0x20E7 {
        230
    } else if 0x20E8 <= cp && cp <= 0x20E8 {
        220
    } else if 0x20E9 <= cp && cp <= 0x20E9 {
        230
    } else if 0x20EA <= cp && cp <= 0x20EB {
        1
    } else if 0x20EC <= cp && cp <= 0x20EF {
        220
    } else if 0x20F0 <= cp && cp <= 0x20F0 {
        230
    } else if 0x2CEF <= cp && cp <= 0x2CF1 {
        230
    } else if 0x2D7F <= cp && cp <= 0x2D7F {
        9
    } else if 0x2DE0 <= cp && cp <= 0x2DFF {
        230
    } else if 0x302A <= cp && cp <= 0x302A {
        218
    } else if 0x302B <= cp && cp <= 0x302B {
        228
    } else if 0x302C <= cp && cp <= 0x302C {
        232
    } else if 0x302D <= cp && cp <= 0x302D {
        222
    } else if 0x302E <= cp && cp <= 0x302F {
        224
    } else if 0x3099 <= cp && cp <= 0x309A {
        8
    } else if 0xA66F <= cp && cp <= 0xA66F {
        230
    } else if 0xA674 <= cp && cp <= 0xA67D {
        230
    } else if 0xA69E <= cp && cp <= 0xA69F {
        230
    } else if 0xA6F0 <= cp && cp <= 0xA6F1 {
        230
    } else if 0xA806 <= cp && cp <= 0xA806 {
        9
    } else if 0xA82C <= cp && cp <= 0xA82C {
        9
    } else if 0xA8C4 <= cp && cp <= 0xA8C4 {
        9
    } else if 0xA8E0 <= cp && cp <= 0xA8F1 {
        230
    } else if 0xA92B <= cp && cp <= 0xA92D {
        220
    } else if 0xA953 <= cp && cp <= 0xA953 {
        9
    } else if 0xA9B3 <= cp && cp <= 0xA9B3 {
        7
    } else if 0xA9C0 <= cp && cp <= 0xA9C0 {
        9
    } else if 0xAAB0 <= cp && cp <= 0xAAB0 {
        230
    } else if 0xAAB2 <= cp && cp <= 0xAAB3 {
        230
    } else if 0xAAB4 <= cp && cp <= 0xAAB4 {
        220
    } else if 0xAAB7 <= cp && cp <= 0xAAB8 {
        230
    } else if 0xAABE <= cp && cp <= 0xAABF {
        230
    } else {
        0
    }
}

/// One part of the table [`combining_class`], by code point.
pub open spec fn combining_class_6(cp: u32) -> u8 {
    if 0xAAC1 <= cp <= 0xAAC1 {
        230
    } else if 0xAAF6 <= cp <= 0xAAF6 {
        9
    } else if 0xABED <= cp <= 0xABED {
        9
    } else if 0xFB1E <= cp <= 0xFB1E {
        26
    } else if 0xFE20 <= cp <= 0xFE26 {
        230
    } else if 0xFE27 <= cp <= 0xFE2D {
        220
    } else if 0xFE2E <= cp <= 0xFE2F {
        230
    } else if 0x101FD <= cp <= 0x101FD {
        220
    } else if 0x102E0 <= cp <= 0x102E0 {
        220
    } else if 0x10376 <= cp <= 0x1037A {
        230
    } else if 0x10A0D <= cp <= 0x10A0D {
        220
    } else if 0x10A0F <= cp <= 0x10A0F {
        230
    } else if 0x10A38 <= cp <= 0x10A38 {
        230
    } else if 0x10A39 <= cp <= 0x10A39 {
        1
    } else if 0x10A3A <= cp <= 0x10A3A {
        220
    } else if 0x10A3F <= cp <= 0x10A3F {
        9
    } else if 0x10AE5 <= cp <= 0x10AE5 {
        230
    } else if 0x10AE6 <= cp <= 0x10AE6 {
        220
    } else if 0x10D24 <= cp <= 0x10D27 {
        230
    } else if 0x10EAB <= cp <= 0x10EAC {
        230
    } else if 0x10F46 <= cp <= 0x10F47 {
        220
    } else if 0x10F48 <= cp <= 0x10F4A {
        230
    } else if 0x10F4B <= cp <= 0x10F4B {
        220
    } else if 0x10F4C <= cp <= 0x10F4C {
        230
    } else if 0x10F4D <= cp <= 0x10F50 {
        220
    } else if 0x10F82 <= cp <= 0x10F82 {
        230
    } else if 0x10F83 <= cp <= 0x10F83 {
        220
    } else if 0x10F84 <= cp <= 0x10F84 {
        230
    } else if 0x10F85 <= cp <= 0x10F85 {
        220
    } else if 0x11046 <= cp <= 0x11046 {
        9
    } else if 0x11070 <= cp <= 0x11070 {
        9
    } else if 0x1107F <= cp <= 0x1107F {
        9
    } else if 0x110B9 <= cp <= 0x110B9 {
        9
    } else if 0x110BA <= cp <= 0x110BA {
        7
    } else if 0x11100 <= cp <= 0x11102 {
        230
    } else if 0x11133 <= cp <= 0x11134 {
        9
    } else if 0x11173 <= cp <= 0x11173 {
        7
    } else if 0x111C0 <= cp <= 0x111C0 {
        9
    } else if 0x111CA <= cp <= 0x111CA {
        7
    } else if 0x11235 <= cp <= 0x11235 {
        9
    } else if 0x11236 <= cp <= 0x11236 {
        7
    } else if 0x112E9 <= cp <= 0x112E9 {
        7
    } else if 0x112EA <= cp <= 0x112EA {
        9
    } else if 0x1133B <= cp <= 0x1133C {
        7
    } else if 0x1134D <= cp <= 0x1134D {
        9
    } else if 0x11366 <= cp <= 0x1136C {
        230
    } else if 0x11370 <= cp <= 0x11374 {
        230
    } else if 0x11442 <= cp <= 0x11442 {
        9
    } else {
        0
    }
}

fn combining_class_of_6(cp: u32) -> (r: u8)
    ensures
        r == combining_class_6(cp),
{
    if 0xAAC1 <= cp && cp <= 0xAAC1 {
        230
    } else if 0xAAF6 <= cp && cp <= 0xAAF6 {
        9
    } else if 0xABED <= cp && cp <= 0xABED {
        9
    } else if 0xFB1E <= cp && cp <= 0xFB1E {
        26
    } else if 0xFE20 <= cp && cp <= 0xFE26 {
        230
    } else if 0xFE27 <= cp && cp <= 0xFE2D {
        220
    } else if 0xFE2E <= cp && cp <= 0xFE2F {
        230
    } else if 0x101FD <= cp && cp <= 0x101FD {
        220
    } else if 0x102E0 <= cp && cp <= 0x102E0 {
        220
    } else if 0x10376 <= cp && cp <= 0x1037A {
        230
    } else if 0x10A0D <= cp && cp <= 0x10A0D {
        220
    } else if 0x10A0F <= cp && cp <= 0x10A0F {
        230
    } else if 0x10A38 <= cp && cp <= 0x10A38 {
        230
    } else if 0x10A39 <= cp && cp <= 0x10A39 {
        1
    } else if 0x10A3A <= cp && cp <= 0x10A3A {
        220
    } else if 0x10A3F <= cp && cp <= 0x10A3F {
        9
    } else if 0x10AE5 <= cp && cp <= 0x10AE5 {
        230
    } else if 0x10AE6 <= cp && cp <= 0x10AE6 {
        220
    } else if 0x10D24 <= cp && cp <= 0x10D27 {
        230
    } else if 0x10EAB <= cp && cp <= 0x10EAC {
        230
    } else if 0x10F46 <= cp && cp <= 0x10F47 {
        220
    } else if 0x10F48 <= cp && cp <= 0x10F4A {
        230
    } else if 0x10F4B <= cp && cp <= 0x10F4B {
        220
    } else if 0x10F4C <= cp && cp <= 0x10F4C {
        230
    } else if 0x10F4D <= cp && cp <= 0x10F50 {
        220
    } else if 0x10F82 <= cp && cp <= 0x10F82 {
        230
    } else if 0x10F83 <= cp && cp <= 0x10F83 {
        220
    } else if 0x10F84 <= cp && cp <= 0x10F84 {
        230
    } else if 0x10F85 <= cp && cp <= 0x10F85 {
        220
    } else if 0x11046 <= cp && cp <= 0x11046 {
        9
    } else if 0x11070 <= cp && cp <= 0x11070 {
        9
    } else if 0x1107F <= cp && cp <= 0x1107F {
        9
    } else if 0x110B9 <= cp && cp <= 0x110B9 {
        9
    } else if 0x110BA <= cp && cp <= 0x110BA {
        7
    } else if 0x11100 <= cp && cp <= 0x11102 {
        230
    } else if 0x11133 <= cp && cp <= 0x11134 {
        9
    } else if 0x11173 <= cp && cp <= 0x11173 {
        7
    } else if 0x111C0 <= cp && cp <= 0x111C0 {
        9
    } else if 0x111CA <= cp && cp <= 0x111CA {
        7
    } else if 0x11235 <= cp && cp <= 0x11235 {
        9
    } else if 0x11236 <= cp && cp <= 0x11236 {
        7
    } else if 0x112E9 <= cp && cp <= 0x112E9 {
        7
    } else if 0x112EA <= cp && cp <= 0x112EA {
        9
    } else if 0x1133B <= cp && cp <= 0x1133C {
        7
    } else if 0x1134D <= cp && cp <= 0x1134D {
        9
    } else if 0x11366 <= cp && cp <= 0x1136C {
        230
    } else if 0x11370 <= cp && cp <= 0x11374 {
        230
    } else if 0x11442 <= cp && cp <= 0x11442 {
        9
    } else {
        0
    }
}

/// One part of the table [`combining_class`], by code point.
pub open spec fn combining_class_7(cp: u32) -> u8 {
    if 0x11446 <= cp <= 0x11446 {
        7
    } else if 0x1145E <= cp <= 0x1145E {
        230
    } else if 0x114C2 <= cp <= 0x114C2 {
        9
    } else if 0x114C3 <= cp <= 0x114C3 {
        7
    } else if 0x115BF <= cp <= 0x115BF {
        9
    } else if 0x115C0 <= cp <= 0x115C0 {
        7
    } else if 0x1163F <= cp <= 0x1163F {
        9
    } else if 0x116B6 <= cp <= 0x116B6 {
        9
    } else if 0x116B7 <= cp <= 0x116B7 {
        7
    } else if 0x1172B <= cp <= 0x1172B {
        9
    } else if 0x11839 <= cp <= 0x11839 {
        9
    } else if 0x1183A <= cp <= 0x1183A {
        7
    } else if 0x1193D <= cp <= 0x1193E {
        9
    } else if 0x11943 <= cp <= 0x11943 {
        7
    } else if 0x119E0 <= cp <= 0x119E0 {
        9
    } else if 0x11A34 <= cp <= 0x11A34 {
        9
    } else if 0x11A47 <= cp <= 0x11A47 {
        9
    } else if 0x11A99 <= cp <= 0x11A99 {
        9
    } else if 0x11C3F <= cp <= 0x11C3F {
        9
    } else if 0x11D42 <= cp <= 0x11D42 {
        7
    } else if 0x11D44 <= cp <= 0x11D45 {
        9
    } else if 0x11D97 <= cp <= 0x11D97 {
        9
    } else if 0x16AF0 <= cp <= 0x16AF4 {
        1
    } else if 0x16B30 <= cp <= 0x16B36 {
        230
    } else if 0x16FF0 <= cp <= 0x16FF1 {
        6
    } else if 0x1BC9E <= cp <= 0x1BC9E {
        1
    } else if 0x1D165 <= cp <= 0x1D166 {
        216
    } else if 0x1D167 <= cp <= 0x1D169 {
        1
    } else if 0x1D16D <= cp <= 0x1D16D {
        226
    } else if 0x1D16E <= cp <= 0x1D172 {
        216
    } else if 0x1D17B <= cp <= 0x1D182 {
        220
    } else if 0x1D185 <= cp <= 0x1D189 {
        230
    } else if 0x1D18A <= cp <= 0x1D18B {
        220
    } else if 0x1D1AA <= cp <= 0x1D1AD {
        230
    } else if 0x1D242 <= cp <= 0x1D244 {
        230
    } else if 0x1E000 <= cp <= 0x1E006 {
        230
    } else if 0x1E008 <= cp <= 0x1E018 {
        230
    } else if 0x1E01B <= cp <= 0x1E021 {
        230
    } else if 0x1E023 <= cp <= 0x1E024 {
        230
    } else if 0x1E026 <= cp <= 0x1E02A {
        230
    } else if 0x1E130 <= cp <= 0x1E136 {
        230
    } else if 0x1E2AE <= cp <= 0x1E2AE {
        230
    } else if 0x1E2EC <= cp <= 0x1E2EF {
        230
    } else if 0x1E8D0 <= cp <= 0x1E8D6 {
        220
    } else if 0x1E944 <= cp <= 0x1E949 {
        230
    } else if 0x1E94A <= cp <= 0x1E94A {
        7
    } else {
        0
    }
}

fn combining_class_of_7(cp: u32) -> (r: u8)
    ensures
        r == combining_class_7(cp),
{
    if 0x11446 <= cp && cp <= 0x11446 {
        7
    } else if 0x1145E <= cp && cp <= 0x1145E {
        230
    } else if 0x114C2 <= cp && cp <= 0x114C2 {
        9
    } else if 0x114C3 <= cp && cp <= 0x114C3 {
        7
    } else if 0x115BF <= cp && cp <= 0x115BF {
        9
    } else if 0x115C0 <= cp && cp <= 0x115C0 {
        7
    } else if 0x1163F <= cp && cp <= 0x1163F {
        9
    } else if 0x116B6 <= cp && cp <= 0x116B6 {
        9
    } else if 0x116B7 <= cp && cp <= 0x116B7 {
        7
    } else if 0x1172B <= cp && cp <= 0x1172B {
        9
    } else if 0x11839 <= cp && cp <= 0x11839 {
        9
    } else if 0x1183A <= cp && cp <= 0x1183A {
        7
    } else if 0x1193D <= cp && cp <= 0x1193E {
        9
    } else if 0x11943 <= cp && cp <= 0x11943 {
        7
    } else if 0x119E0 <= cp && cp <= 0x119E0 {
        9
    } else if 0x11A34 <= cp && cp <= 0x11A34 {
        9
    } else if 0x11A47 <= cp && cp <= 0x11A47 {
        9
    } else if 0x11A99 <= cp && cp <= 0x11A99 {
        9
    } else if 0x11C3F <= cp && cp <= 0x11C3F {
        9
    } else if 0x11D42 <= cp && cp <= 0x11D42 {
        7
    } else if 0x11D44 <= cp && cp <= 0x11D45 {
        9
    } else if 0x11D97 <= cp && cp <= 0x11D97 {
        9
    } else if 0x16AF0 <= cp && cp <= 0x16AF4 {
        1
    } else if 0x16B30 <= cp && cp <= 0x16B36 {
        230
    } else if 0x16FF0 <= cp && cp <= 0x16FF1 {
        6
    } else if 0x1BC9E <= cp && cp <= 0x1BC9E {
        1
    } else if 0x1D165 <= cp && cp <= 0x1D166 {
        216
    } else if 0x1D167 <= cp && cp <= 0x1D169 {
        1
    } else if 0x1D16D <= cp && cp <= 0x1D16D {
        226
    } else if 0x1D16E <= cp && cp <= 0x1D172 {
        216
    } else if 0x1D17B <= cp && cp <= 0x1D182 {
        220
    } else if 0x1D185 <= cp && cp <= 0x1D189 {
        230
    } else if 0x1D18A <= cp && cp <= 0x1D18B {
        220
    } else if 0x1D1AA <= cp && cp <= 0x1D1AD {
        230
    } else if 0x1D242 <= cp && cp <= 0x1D244 {
        230
    } else if 0x1E000 <= cp && cp <= 0x1E006 {
        230
    } else if 0x1E008 <= cp && cp <= 0x1E018 {
        230
    } else if 0x1E01B <= cp && cp <= 0x1E021 {
        230
    } else if 0x1E023 <= cp && cp <= 0x1E024 {
        230
    } else if 0x1E026 <= cp && cp <= 0x1E02A {
        230
    } else if 0x1E130 <= cp && cp <= 0x1E136 {
        230
    } else if 0x1E2AE <= cp && cp <= 0x1E2AE {
        230
    } else if 0x1E2EC <= cp && cp <= 0x1E2EF {
        230
    } else if 0x1E8D0 <= cp && cp <= 0x1E8D6 {
        220
    } else if 0x1E944 <= cp && cp <= 0x1E949 {
        230
    } else if 0x1E94A <= cp && cp <= 0x1E94A {
        7
    } else {
        0
    }
}

/// The full canonical decomposition of the code point `cp`, in canonical order,
/// where it has one (Hangul syllables excepted: they decompose by rule).
pub open spec fn canonical_decomposition(cp: u32) -> Option<&'static str> {
    if cp <= 0x10A {
        canonical_decomposition_0(cp)
    } else if cp <= 0x15B {
        canonical_decomposition_1(cp)
    } else if cp <= 0x1EA {
        canonical_decomposition_2(cp)
    } else if cp <= 0x344 {
        canonical_decomposition_3(cp)
    } else if cp <= 0x4E7 {
        canonical_decomposition_4(cp)
    } else if cp <= 0xDDC {
        canonical_decomposition_5(cp)
    } else if cp <= 0x1E20 {
        canonical_decomposition_6(cp)
    } else if cp <= 0x1E60 {
        canonical_decomposition_7(cp)
    } else if cp <= 0x1EA5 {
        canonical_decomposition_8(cp)
    } else if cp <= 0x1EE5 {
        canonical_decomposition_9(cp)
    } else if cp <= 0x1F2F {
        canonical_decomposition_10(cp)
    } else if cp <= 0x1F77 {
        canonical_decomposition_11(cp)
    } else if cp <= 0x1FBA {
        canonical_decomposition_12(cp)
    } else if cp <= 0x219B {
        canonical_decomposition_13(cp)
    } else if cp <= 0x3074 {
        canonical_decomposition_14(cp)
    } else if cp <= 0xF918 {
        canonical_decomposition_15(cp)
    } else if cp <= 0xF958 {
        canonical_decomposition_16(cp)
    } else if cp <= 0xF998 {
        canonical_decomposition_17(cp)
    } else if cp <= 0xF9D8 {
        canonical_decomposition_18(cp)
    } else if cp <= 0xFA1D {
        canonical_decomposition_19(cp)
    } else if cp <= 0xFA64 {
        canonical_decomposition_20(cp)
    } else if cp <= 0xFAA6 {
        canonical_decomposition_21(cp)
    } else if cp <= 0xFB34 {
        canonical_decomposition_22(cp)
    } else if cp <= 0x2F810 {
        canonical_decomposition_23(cp)
    } else if cp <= 0x2F850 {
        canonical_decomposition_24(cp)
    } else if cp <= 0x2F890 {
        canonical_decomposition_25(cp)
    } else if cp <= 0x2F8D0 {
        canonical_decomposition_26(cp)
    } else if cp <= 0x2F910 {
        canonical_decomposition_27(cp)
    } else if cp <= 0x2F950 {
        canonical_decomposition_28(cp)
    } else if cp <= 0x2F990 {
        canonical_decomposition_29(cp)
    } else if cp <= 0x2F9D0 {
        canonical_decomposition_30(cp)
    } else if cp <= 0x2FA10 {
        canonical_decomposition_31(cp)
    } else {
        canonical_decomposition_32(cp)
    }
}

/// Returns the full canonical decomposition of `cp` where it has one (Hangul
/// syllables excepted), or `None`.
pub fn canonical_decomposition_of(cp: u32) -> (r: Option<&'static str>)
    ensures
        r == canonical_decomposition(cp),
{
    if cp <= 0x10A {
        canonical_decomposition_of_0(cp)
    } else if cp <= 0x15B {
        canonical_decomposition_of_1(cp)
    } else if cp <= 0x1EA {
        canonical_decomposition_of_2(cp)
    } else if cp <= 0x344 {
        canonical_decomposition_of_3(cp)
    } else if cp <= 0x4E7 {
        canonical_decomposition_of_4(cp)
    } else if cp <= 0xDDC {
        canonical_decomposition_of_5(cp)
    } else if cp <= 0x1E20 {
        canonical_decomposition_of_6(cp)
    } else if cp <= 0x1E60 {
        canonical_decomposition_of_7(cp)
    } else if cp <= 0x1EA5 {
        canonical_decomposition_of_8(cp)
    } else if cp <= 0x1EE5 {
        canonical_decomposition_of_9(cp)
    } else if cp <= 0x1F2F {
        canonical_decomposition_of_10(cp)
    } else if cp <= 0x1F77 {
        canonical_decomposition_of_11(cp)
    } else if cp <= 0x1FBA {
        canonical_decomposition_of_12(cp)
    } else if cp <= 0x219B {
        canonical_decomposition_of_13(cp)
    } else if cp <= 0x3074 {
        canonical_decomposition_of_14(cp)
    } else if cp <= 0xF918 {
        canonical_decomposition_of_15(cp)
    } else if cp <= 0xF958 {
        canonical_decomposition_of_16(cp)
    } else if cp <= 0xF998 {
        canonical_decomposition_of_17(cp)
    } else if cp <= 0xF9D8 {
        canonical_decomposition_of_18(cp)
    } else if cp <= 0xFA1D {
        canonical_decomposition_of_19(cp)
    } else if cp <= 0xFA64 {
        canonical_decomposition_of_20(cp)
    } else if cp <= 0xFAA6 {
        canonical_decomposition_of_21(cp)
    } else if cp <= 0xFB34 {
        canonical_decomposition_of_22(cp)
    } else if cp <= 0x2F810 {
        canonical_decomposition_of_23(cp)
    } else if cp <= 0x2F850 {
        canonical_decomposition_of_24(cp)
    } else if cp <= 0x2F890 {
        canonical_decomposition_of_25(cp)
    } else if cp <= 0x2F8D0 {
        canonical_decomposition_of_26(cp)
    } else if cp <= 0x2F910 {
        canonical_decomposition_of_27(cp)
    } else if cp <= 0x2F950 {
        canonical_decomposition_of_28(cp)
    } else if cp <= 0x2F990 {
        canonical_decomposition_of_29(cp)
    } else if cp <= 0x2F9D0 {
        canonical_decomposition_of_30(cp)
    } else if cp <= 0x2FA10 {
        canonical_decomposition_of_31(cp)
    } else {
        canonical_decomposition_of_32(cp)
    }
}

/// One part of the table [`canonical_decomposition`], by code point.
pub open spec fn canonical_decomposition_0(cp: u32) -> Option<&'static str> {
    if cp == 0xC0 {
        Some("A\u{300}")
    } else if cp == 0xC1 {
        Some("A\u{301}")
    } else if cp == 0xC2 {
        Some("A\u{302}")
    } else if cp == 0xC3 {
        Some("A\u{303}")
    } else if cp == 0xC4 {
        Some("A\u{308}")
    } else if cp == 0xC5 {
        Some("A\u{30A}")
    } else if cp == 0xC7 {
        Some("C\u{327}")
    } else if cp == 0xC8 {
        Some("E\u{300}")
    } else if cp == 0xC9 {
        Some("E\u{301}")
    } else if cp == 0xCA {
        Some("E\u{302}")
    } else if cp == 0xCB {
        Some("E\u{308}")
    } else if cp == 0xCC {
        Some("I\u{300}")
    } else if cp == 0xCD {
        Some("I\u{301}")
    } else if cp == 0xCE {
        Some("I\u{302}")
    } else if cp == 0xCF {
        Some("I\u{308}")
    } else if cp == 0xD1 {
        Some("N\u{303}")
    } else if cp == 0xD2 {
        Some("O\u{300}")
    } else if cp == 0xD3 {
        Some("O\u{301}")
    } else if cp == 0xD4 {
        Some("O\u{302}")
    } else if cp == 0xD5 {
        Some("O\u{303}")
    } else if cp == 0xD6 {
        Some("O\u{308}")
    } else if cp == 0xD9 {
        Some("U\u{300}")
    } else if cp == 0xDA {
        Some("U\u{301}")
    } else if cp == 0xDB {
        Some("U\u{302}")
    } else if cp == 0xDC {
        Some("U\u{308}")
    } else if cp == 0xDD {
        Some("Y\u{301}")
    } else if cp == 0xE0 {
        Some("a\u{300}")
    } else if cp == 0xE1 {
        Some("a\u{301}")
    } else if cp == 0xE2 {
        Some("a\u{302}")
    } else if cp == 0xE3 {
        Some("a\u{303}")
    } else if cp == 0xE4 {
        Some("a\u{308}")
    } else if cp == 0xE5 {
        Some("a\u{30A}")
    } else if cp == 0xE7 {
        Some("c\u{327}")
    } else if cp == 0xE8 {
        Some("e\u{300}")
    } else if cp == 0xE9 {
        Some("e\u{301}")
    } else if cp == 0xEA {
        Some("e\u{302}")
    } else if cp == 0xEB {
        Some("e\u{308}")
    } else if cp == 0xEC {
        Some("i\u{300}")
    } else if cp == 0xED {
        Some("i\u{301}")
    } else if cp == 0xEE {
        Some("i\u{302}")
    } else if cp == 0xEF {
        Some("i\u{308}")
    } else if cp == 0xF1 {
        Some("n\u{303}")
    } else if cp == 0xF2 {
        Some("o\u{300}")
    } else if cp == 0xF3 {
        Some("o\u{301}")
    } else if cp == 0xF4 {
        Some("o\u{302}")
    } else if cp == 0xF5 {
        Some("o\u{303}")
    } else if cp == 0xF6 {
        Some("o\u{308}")
    } else if cp == 0xF9 {
        Some("u\u{300}")
    } else if cp == 0xFA {
        Some("u\u{301}")
    } else if cp == 0xFB {
        Some("u\u{302}")
    } else if cp == 0xFC {
        Some("u\u{308}")
    } else if cp == 0xFD {
        Some("y\u{301}")
    } else if cp == 0xFF {
        Some("y\u{308}")
    } else if cp == 0x100 {
        Some("A\u{304}")
    } else if cp == 0x101 {
        Some("a\u{304}")
    } else if cp == 0x102 {
        Some("A\u{306}")
    } else if cp == 0x103 {
        Some("a\u{306}")
    } else if cp == 0x104 {
        Some("A\u{328}")
    } else if cp == 0x105 {
        Some("a\u{328}")
    } else if cp == 0x106 {
        Some("C\u{301}")
    } else if cp == 0x107 {
        Some("c\u{301}")
    } else if cp == 0x108 {
        Some("C\u{302}")
    } else if cp == 0x109 {
        Some("c\u{302}")
    } else if cp == 0x10A {
        Some("C\u{307}")
    } else {
        None
    }
}

fn canonical_decomposition_of_0(cp: u32) -> (r: Option<&'static str>)
    ensures
        r == canonical_decomposition_0(cp),
{
    if cp == 0xC0 {
        Some("A\u{300}")
    } else if cp == 0xC1 {
        Some("A\u{301}")
    } else if cp == 0xC2 {
        Some("A\u{302}")
    } else if cp == 0xC3 {
        Some("A\u{303}")
    } else if cp == 0xC4 {
        Some("A\u{308}")
    } else if cp == 0xC5 {
        Some("A\u{30A}")
    } else if cp == 0xC7 {
        Some("C\u{327}")
    } else if cp == 0xC8 {
        Some("E\u{300}")
    } else if cp == 0xC9 {
        Some("E\u{301}")
    } else if cp == 0xCA {
        Some("E\u{302}")
    } else if cp == 0xCB {
        Some("E\u{308}")
    } else if cp == 0xCC {
        Some("I\u{300}")
    } else if cp == 0xCD {
        Some("I\u{301}")
    } else if cp == 0xCE {
        Some("I\u{302}")
    } else if cp == 0xCF {
        Some("I\u{308}")
    } else if cp == 0xD1 {
        Some("N\u{303}")
    } else if cp == 0xD2 {
        Some("O\u{300}")
    } else if cp == 0xD3 {
        Some("O\u{301}")
    } else if cp == 0xD4 {
        Some("O\u{302}")
    } else if cp == 0xD5 {
        Some("O\u{303}")
    } else if cp == 0xD6 {
        Some("O\u{308}")
    } else if cp == 0xD9 {
        Some("U\u{300}")
    } else if cp == 0xDA {
        Some("U\u{301}")
    } else if cp == 0xDB {
        Some("U\u{302}")
    } else if cp == 0xDC {
        Some("U\u{308}")
    } else if cp == 0xDD {
        Some("Y\u{301}")
    } else if cp == 0xE0 {
        Some("a\u{300}")
    } else if cp == 0xE1 {
        Some("a\u{301}")
    } else if cp == 0xE2 {
        Some("a\u{302}")
    } else if cp == 0xE3 {
        Some("a\u{303}")
    } else if cp == 0xE4 {
        Some("a\u{308}")
    } else if cp == 0xE5 {
        Some("a\u{30A}")
    } else if cp == 0xE7 {
        Some("c\u{327}")
    } else if cp == 0xE8 {
        Some("e\u{300}")
    } else if cp == 0xE9 {
        Some("e\u{301}")
    } else if cp == 0xEA {
        Some("e\u{302}")
    } else if cp == 0xEB {
        Some("e\u{308}")
    } else if cp == 0xEC {
        Some("i\u{300}")
    } else if cp == 0xED {
        Some("i\u{301}")
    } else if cp == 0xEE {
        Some("i\u{302}")
    } else if cp == 0xEF {
        Some("i\u{308}")
    } else if cp == 0xF1 {
        Some("n\u{303}")
    } else if cp == 0xF2 {
        Some("o\u{300}")
    } else if cp == 0xF3 {
        Some("o\u{301}")
    } else if cp == 0xF4 {
        Some("o\u{302}")
    } else if cp == 0xF5 {
        Some("o\u{303}")
    } else if cp == 0xF6 {
        Some("o\u{308}")
    } else if cp == 0xF9 {
        Some("u\u{300}")
    } else if cp == 0xFA {
        Some("u\u{301}")
    } else if cp == 0xFB {
        Some("u\u{302}")
    } else if cp == 0xFC {
        Some("u\u{308}")
    } else if cp == 0xFD {
        Some("y\u{301}")
    } else if cp == 0xFF {
        Some("y\u{308}")
    } else if cp == 0x100 {
        Some("A\u{304}")
    } else if cp == 0x101 {
        Some("a\u{304}")
    } else if cp == 0x102 {
        Some("A\u{306}")
    } else if cp == 0x103 {
        Some("a\u{306}")
    } else if cp == 0x104 {
        Some("A\u{328}")
    } else if cp == 0x105 {
        Some("a\u{328}")
    } else if cp == 0x106 {
        Some("C\u{301}")
    } else if cp == 0x107 {
        Some("c\u{301}")
    } else if cp == 0x108 {
        Some("C\u{302}")
    } else if cp == 0x109 {
        Some("c\u{302}")
    } else if cp == 0x10A {
        Some("C\u{307}")
    } else {
        None
    }
}

/// One part of the table [`canonical_decomposition`], by code point.
pub open spec fn canonical_decomposition_1(cp: u32) -> Option<&'static str> {
    if cp == 0x10B {
        Some("c\u{307}")
    } else if cp == 0x10C {
        Some("C\u{30C}")
    } else if cp == 0x10D {
        Some("c\u{30C}")
    } else if cp == 0x10E {
        Some("D\u{30C}")
    } else if cp == 0x10F {
        Some("d\u{30C}")
    } else if cp == 0x112 {
        Some("E\u{304}")
    } else if cp == 0x113 {
        Some("e\u{304}")
    } else if cp == 0x114 {
        Some("E\u{306}")
    } else if cp == 0x115 {
        Some("e\u{306}")
    } else if cp == 0x116 {
        Some("E\u{307}")
    } else if cp == 0x117 {
        Some("e\u{307}")
    } else if cp == 0x118 {
        Some("E\u{328}")
    } else if cp == 0x119 {
        Some("e\u{328}")
    } else if cp == 0x11A {
        Some("E\u{30C}")
    } else if cp == 0x11B {
        Some("e\u{30C}")
    } else if cp == 0x11C {
        Some("G\u{302}")
    } else if cp == 0x11D {
        Some("g\u{302}")
    } else if cp == 0x11E {
        Some("G\u{306}")
    } else if cp == 0x11F {
        Some("g\u{306}")
    } else if cp == 0x120 {
        Some("G\u{307}")
    } else if cp == 0x121 {
        Some("g\u{307}")
    } else if cp == 0x122 {
        Some("G\u{327}")
    } else if cp == 0x123 {
        Some("g\u{327}")
    } else if cp == 0x124 {
        Some("H\u{302}")
    } else if cp == 0x125 {
        Some("h\u{302}")
    } else if cp == 0x128 {
        Some("I\u{303}")
    } else if cp == 0x129 {
        Some("i\u{303}")
    } else if cp == 0x12A {
        Some("I\u{304}")
    } else if cp == 0x12B {
        Some("i\u{304}")
    } else if cp == 0x12C {
        Some("I\u{306}")
    } else if cp == 0x12D {
        Some("i\u{306}")
    } else if cp == 0x12E {
        Some("I\u{328}")
    } else if cp == 0x12F {
        Some("i\u{328}")
    } else if cp == 0x130 {
        Some("I\u{307}")
    } else if cp == 0x134 {
        Some("J\u{302}")
    } else if cp == 0x135 {
        Some("j\u{302}")
    } else if cp == 0x136 {
        Some("K\u{327}")
    } else if cp == 0x137 {
        Some("k\u{327}")
    } else if cp == 0x139 {
        Some("L\u{301}")
    } else if cp == 0x13A {
        Some("l\u{301}")
    } else if cp == 0x13B {
        Some("L\u{327}")
    } else if cp == 0x13C {
        Some("l\u{327}")
    } else if cp == 0x13D {
        Some("L\u{30C}")
    } else if cp == 0x13E {
        Some("l\u{30C}")
    } else if cp == 0x143 {
        Some("N\u{301}")
    } else if cp == 0x144 {
        Some("n\u{301}")
    } else if cp == 0x145 {
        Some("N\u{327}")
    } else if cp == 0x146 {
        Some("n\u{327}")
    } else if cp == 0x147 {
        Some("N\u{30C}")
    } else if cp == 0x148 {
        Some("n\u{30C}")
    } else if cp == 0x14C {
        Some("O\u{304}")
    } else if cp == 0x14D {
        Some("o\u{304}")
    } else if cp == 0x14E {
        Some("O\u{306}")
    } else if cp == 0x14F {
        Some("o\u{306}")
    } else if cp == 0x150 {
        Some("O\u{30B}")
    } else if cp == 0x151 {
        Some("o\u{30B}")
    } else if cp == 0x154 {
        Some("R\u{301}")
    } else if cp == 0x155 {
        Some("r\u{301}")
    } else if cp == 0x156 {
        Some("R\u{327}")
    } else if cp == 0x157 {
        Some("r\u{327}")
    } else if cp == 0x158 {
        Some("R\u{30C}")
    } else if cp == 0x159 {
        Some("r\u{30C}")
    } else if cp == 0x15A {
        Some("S\u{301}")
    } else if cp == 0x15B {
        Some("s\u{301}")
    } else {
        None
    }
}

fn canonical_decomposition_of_1(cp: u32) -> (r: Option<&'static str>)
    ensures
        r == canonical_decomposition_1(cp),
{
    if cp == 0x10B {
        Some("c\u{307}")
    } else if cp == 0x10C {
        Some("C\u{30C}")
    } else if cp == 0x10D {
        Some("c\u{30C}")
    } else if cp == 0x10E {
        Some("D\u{30C}")
    } else if cp == 0x10F {
        Some("d\u{30C}")
    } else if cp == 0x112 {
        Some("E\u{304}")
    } else if cp == 0x113 {
        Some("e\u{304}")
    } else if cp == 0x114 {
        Some("E\u{306}")
    } else if cp == 0x115 {
        Some("e\u{306}")
    } else if cp == 0x116 {
        Some("E\u{307}")
    } else if cp == 0x117 {
        Some("e\u{307}")
    } else if cp == 0x118 {
        Some("E\u{328}")
    } else if cp == 0x119 {
        Some("e\u{328}")
    } else if cp == 0x11A {
        Some("E\u{30C}")
    } else if cp == 0x11B {
        Some("e\u{30C}")
    } else if cp == 0x11C {
        Some("G\u{302}")
    } else if cp == 0x11D {
        Some("g\u{302}")
    } else if cp == 0x11E {
        Some("G\u{306}")
    } else if cp == 0x11F {
        Some("g\u{306}")
    } else if cp == 0x120 {
        Some("G\u{307}")
    } else if cp == 0x121 {
        Some("g\u{307}")
    } else if cp == 0x122 {
        Some("G\u{327}")
    } else if cp == 0x123 {
        Some("g\u{327}")
    } else if cp == 0x124 {
        Some("H\u{302}")
    } else if cp == 0x125 {
        Some("h\u{302}")
    } else if cp == 0x128 {
        Some("I\u{303}")
    } else if cp == 0x129 {
        Some("i\u{303}")
    } else if cp == 0x12A {
        Some("I\u{304}")
    } else if cp == 0x12B {
        Some("i\u{304}")
    } else if cp == 0x12C {
        Some("I\u{306}")
    } else if cp == 0x12D {
        Some("i\u{306}")
    } else if cp == 0x12E {
        Some("I\u{328}")
    } else if cp == 0x12F {
        Some("i\u{328}")
    } else if cp == 0x130 {
        Some("I\u{307}")
    } else if cp == 0x134 {
        Some("J\u{302}")
    } else if cp == 0x135 {
        Some("j\u{302}")
    } else if cp == 0x136 {
        Some("K\u{327}")
    } else if cp == 0x137 {
        Some("k\u{327}")
    } else if cp == 0x139 {
        Some("L\u{301}")
    } else if cp == 0x13A {
        Some("l\u{301}")
    } else if cp == 0x13B {
        Some("L\u{327}")
    } else if cp == 0x13C {
        Some("l\u{327}")
    } else if cp == 0x13D {
        Some("L\u{30C}")
    } else if cp == 0x13E {
        Some("l\u{30C}")
    } else if cp == 0x143 {
        Some("N\u{301}")
    } else if cp == 0x144 {
        Some("n\u{301}")
    } else if cp == 0x145 {
        Some("N\u{327}")
    } else if cp == 0x146 {
        Some("n\u{327}")
    } else if cp == 0x147 {
        Some("N\u{30C}")
    } else if cp == 0x148 {
        Some("n\u{30C}")
    } else if cp == 0x14C {
        Some("O\u{304}")
    } else if cp == 0x14D {
        Some("o\u{304}")
    } else if cp == 0x14E {
        Some("O\u{306}")
    } else if cp == 0x14F {
        Some("o\u{306}")
    } else if cp == 0x150 {
        Some("O\u{30B}")
    } else if cp == 0x151 {
        Some("o\u{30B}")
    } else if cp == 0x154 {
        Some("R\u{301}")
    } else if cp == 0x155 {
        Some("r\u{301}")
    } else if cp == 0x156 {
        Some("R\u{327}")
    } else if cp == 0x157 {
        Some("r\u{327}")
    } else if cp == 0x158 {
        Some("R\u{30C}")
    } else if cp == 0x159 {
        Some("r\u{30C}")
    } else if cp == 0x15A {
        Some("S\u{301}")
    } else if cp == 0x15B {
        Some("s\u{301}")
    } else {
        None
    }
}

/// One part of the table [`canonical_decomposition`], by code point.
pub open spec fn canonical_decomposition_2(cp: u32) -> Option<&'static str> {
    if cp == 0x15C {
        Some("S\u{302}")
    } else if cp == 0x15D {
        Some("s\u{302}")
    } else if cp == 0x15E {
        Some("S\u{327}")
    } else if cp == 0x15F {
        Some("s\u{327}")
    } else if cp == 0x160 {
        Some("S\u{30C}")
    } else if cp == 0x161 {
        Some("s\u{30C}")
    } else if cp == 0x162 {
        Some("T\u{327}")
    } else if cp == 0x163 {
        Some("t\u{327}")
    } else if cp == 0x164 {
        Some("T\u{30C}")
    } else if cp == 0x165 {
        Some("t\u{30C}")
    } else if cp == 0x168 {
        Some("U\u{303}")
    } else if cp == 0x169 {
        Some("u\u{303}")
    } else if cp == 0x16A {
        Some("U\u{304}")
    } else if cp == 0x16B {
        Some("u\u{304}")
    } else if cp == 0x16C {
        Some("U\u{306}")
    } else if cp == 0x16D {
        Some("u\u{306}")
    } else if cp == 0x16E {
        Some("U\u{30A}")
    } else if cp == 0x16F {
        Some("u\u{30A}")
    } else if cp == 0x170 {
        Some("U\u{30B}")
    } else if cp == 0x171 {
        Some("u\u{30B}")
    } else if cp == 0x172 {
        Some("U\u{328}")
    } else if cp == 0x173 {
        Some("u\u{328}")
    } else if cp == 0x174 {
        Some("W\u{302}")
    } else if cp == 0x175 {
        Some("w\u{302}")
    } else if cp == 0x176 {
        Some("Y\u{302}")
    } else if cp == 0x177 {
        Some("y\u{302}")
    } else if cp == 0x178 {
        Some("Y\u{308}")
    } else if cp == 0x179 {
        Some("Z\u{301}")
    } else if cp == 0x17A {
        Some("z\u{301}")
    } else if cp == 0x17B {
        Some("Z\u{307}")
    } else if cp == 0x17C {
        Some("z\u{307}")
    } else if cp == 0x17D {
        Some("Z\u{30C}")
    } else if cp == 0x17E {
        Some("z\u{30C}")
    } else if cp == 0x1A0 {
        Some("O\u{31B}")
    } else if cp == 0x1A1 {
        Some("o\u{31B}")
    } else if cp == 0x1AF {
        Some("U\u{31B}")
    } else if cp == 0x1B0 {
        Some("u\u{31B}")
    } else if cp == 0x1CD {
        Some("A\u{30C}")
    } else if cp == 0x1CE {
        Some("a\u{30C}")
    } else if cp == 0x1CF {
        Some("I\u{30C}")
    } else if cp == 0x1D0 {
        Some("i\u{30C}")
    } else if cp == 0x1D1 {
        Some("O\u{30C}")
    } else if cp == 0x1D2 {
        Some("o\u{30C}")
    } else if cp == 0x1D3 {
        Some("U\u{30C}")
    } else if cp == 0x1D4 {
        Some("u\u{30C}")
    } else if cp == 0x1D5 {
        Some("U\u{308}\u{304}")
    } else if cp == 0x1D6 {
        Some("u\u{308}\u{304}")
    } else if cp == 0x1D7 {
        Some("U\u{308}\u{301}")
    } else if cp == 0x1D8 {
        Some("u\u{308}\u{301}")
    } else if cp == 0x1D9 {
        Some("U\u{308}\u{30C}")
    } else if cp == 0x1DA {
        Some("u\u{308}\u{30C}")
    } else if cp == 0x1DB {
        Some("U\u{308}\u{300}")
    } else if cp == 0x1DC {
        Some("u\u{308}\u{300}")
    } else if cp == 0x1DE {
        Some("A\u{308}\u{304}")
    } else if cp == 0x1DF {
        Some("a\u{308}\u{304}")
    } else if cp == 0x1E0 {
        Some("A\u{307}\u{304}")
    } else if cp == 0x1E1 {
        Some("a\u{307}\u{304}")
    } else if cp == 0x1E2 {
        Some("\u{C6}\u{304}")
    } else if cp == 0x1E3 {
        Some("\u{E6}\u{304}")
    } else if cp == 0x1E6 {
        Some("G\u{30C}")
    } else if cp == 0x1E7 {
        Some("g\u{30C}")
    } else if cp == 0x1E8 {
        Some("K\u{30C}")
    } else if cp == 0x1E9 {
        Some("k\u{30C}")
    } else if cp == 0x1EA {
        Some("O\u{328}")
    } else {
        None
    }
}

fn canonical_decomposition_of_2(cp: u32) -> (r: Option<&'static str>)
    ensures
        r == canonical_decomposition_2(cp),
{
    if cp == 0x15C {
        Some("S\u{302}")
    } else if cp == 0x15D {
        Some("s\u{302}")
    } else if cp == 0x15E {
        Some("S\u{327}")
    } else if cp == 0x15F {
        Some("s\u{327}")
    } else if cp == 0x160 {
        Some("S\u{30C}")
    } else if cp == 0x161 {
        Some("s\u{30C}")
    } else if cp == 0x162 {
        Some("T\u{327}")
    } else if cp == 0x163 {
        Some("t\u{327}")
    } else if cp == 0x164 {
        Some("T\u{30C}")
    } else if cp == 0x165 {
        Some("t\u{30C}")
    } else if cp == 0x168 {
        Some("U\u{303}")
    } else if cp == 0x169 {
        Some("u\u{303}")
    } else if cp == 0x16A {
        Some("U\u{304}")
    } else if cp == 0x16B {
        Some("u\u{304}")
    } else if cp == 0x16C {
        Some("U\u{306}")
    } else if cp == 0x16D {
        Some("u\u{306}")
    } else if cp == 0x16E {
        Some("U\u{30A}")
    } else if cp == 0x16F {
        Some("u\u{30A}")
    } else if cp == 0x170 {
        Some("U\u{30B}")
    } else if cp == 0x171 {
        Some("u\u{30B}")
    } else if cp == 0x172 {
        Some("U\u{328}")
    } else if cp == 0x173 {
        Some("u\u{328}")
    } else if cp == 0x174 {
        Some("W\u{302}")
    } else if cp == 0x175 {
        Some("w\u{302}")
    } else if cp == 0x176 {
        Some("Y\u{302}")
    } else if cp == 0x177 {
        Some("y\u{302}")
    } else if cp == 0x178 {
        Some("Y\u{308}")
    } else if cp == 0x179 {
        Some("Z\u{301}")
    } else if cp == 0x17A {
        Some("z\u{301}")
    } else if cp == 0x17B {
        Some("Z\u{307}")
    } else if cp == 0x17C {
        Some("z\u{307}")
    } else if cp == 0x17D {
        Some("Z\u{30C}")
    } else if cp == 0x17E {
        Some("z\u{30C}")
    } else if cp == 0x1A0 {
        Some("O\u{31B}")
    } else if cp == 0x1A1 {
        Some("o\u{31B}")
    } else if cp == 0x1AF {
        Some("U\u{31B}")
    } else if cp == 0x1B0 {
        Some("u\u{31B}")
    } else if cp == 0x1CD {
        Some("A\u{30C}")
    } else if cp == 0x1CE {
        Some("a\u{30C}")
    } else if cp == 0x1CF {
        Some("I\u{30C}")
    } else if cp == 0x1D0 {
        Some("i\u{30C}")
    } else if cp == 0x1D1 {
        Some("O\u{30C}")
    } else if cp == 0x1D2 {
        Some("o\u{30C}")
    } else if cp == 0x1D3 {
        Some("U\u{30C}")
    } else if cp == 0x1D4 {
        Some("u\u{30C}")
    } else if cp == 0x1D5 {
        Some("U\u{308}\u{304}")
    } else if cp == 0x1D6 {
        Some("u\u{308}\u{304}")
    } else if cp == 0x1D7 {
        Some("U\u{308}\u{301}")
    } else if cp == 0x1D8 {
        Some("u\u{308}\u{301}")
    } else if cp == 0x1D9 {
        Some("U\u{308}\u{30C}")
    } else if cp == 0x1DA {
        Some("u\u{308}\u{30C}")
    } else if cp == 0x1DB {
        Some("U\u{308}\u{300}")
    } else if cp == 0x1DC {
        Some("u\u{308}\u{300}")
    } else if cp == 0x1DE {
        Some("A\u{308}\u{304}")
    } else if cp == 0x1DF {
        Some("a\u{308}\u{304}")
    } else if cp == 0x1E0 {
        Some("A\u{307}\u{304}")
    } else if cp == 0x1E1 {
        Some("a\u{307}\u{304}")
    } else if cp == 0x1E2 {
        Some("\u{C6}\u{304}")
    } else if cp == 0x1E3 {
        Some("\u{E6}\u{304}")
    } else if cp == 0x1E6 {
        Some("G\u{30C}")
    } else if cp == 0x1E7 {
        Some("g\u{30C}")
    } else if cp == 0x1E8 {
        Some("K\u{30C}")
    } else if cp == 0x1E9 {
        Some("k\u{30C}")
    } else if cp == 0x1EA {
        Some("O\u{328}")
    } else {
        None
    }
}

/// One part of the table [`canonical_decomposition`], by code point.
pub open spec fn canonical_decomposition_3(cp: u32) -> Option<&'static str> {
    if cp == 0x1EB {
        Some("o\u{328}")
    } else if cp == 0x1EC {
        Some("O\u{328}\u{304}")
    } else if cp == 0x1ED {
        Some("o\u{328}\u{304}")
    } else if cp == 0x1EE {
        Some("\u{1B7}\u{30C}")
    } else if cp == 0x1EF {
        Some("\u{292}\u{30C}")
    } else if cp == 0x1F0 {
        Some("j\u{30C}")
    } else if cp == 0x1F4 {
        Some("G\u{301}")
    } else if cp == 0x1F5 {
        Some("g\u{301}")
    } else if cp == 0x1F8 {
        Some("N\u{300}")
    } else if cp == 0x1F9 {
        Some("n\u{300}")
    } else if cp == 0x1FA {
        Some("A\u{30A}\u{301}")
    } else if cp == 0x1FB {
        Some("a\u{30A}\u{301}")
    } else if cp == 0x1FC {
        Some("\u{C6}\u{301}")
    } else if cp == 0x1FD {
        Some("\u{E6}\u{301}")
    } else if cp == 0x1FE {
        Some("\u{D8}\u{301}")
    } else if cp == 0x1FF {
        Some("\u{F8}\u{301}")
    } else if cp == 0x200 {
        Some("A\u{30F}")
    } else if cp == 0x201 {
        Some("a\u{30F}")
    } else if cp == 0x202 {
        Some("A\u{311}")
    } else if cp == 0x203 {
        Some("a\u{311}")
    } else if cp == 0x204 {
        Some("E\u{30F}")
    } else if cp == 0x205 {
        Some("e\u{30F}")
    } else if cp == 0x206 {
        Some("E\u{311}")
    } else if cp == 0x207 {
        Some("e\u{311}")
    } else if cp == 0x208 {
        Some("I\u{30F}")
    } else if cp == 0x209 {
        Some("i\u{30F}")
    } else if cp == 0x20A {
        Some("I\u{311}")
    } else if cp == 0x20B {
        Some("i\u{311}")
    } else if cp == 0x20C {
        Some("O\u{30F}")
    } else if cp == 0x20D {
        Some("o\u{30F}")
    } else if cp == 0x20E {
        Some("O\u{311}")
    } else if cp == 0x20F {
        Some("o\u{311}")
    } else if cp == 0x210 {
        Some("R\u{30F}")
    } else if cp == 0x211 {
        Some("r\u{30F}")
    } else if cp == 0x212 {
        Some("R\u{311}")
    } else if cp == 0x213 {
        Some("r\u{311}")
    } else if cp == 0x214 {
        Some("U\u{30F}")
    } else if cp == 0x215 {
        Some("u\u{30F}")
    } else if cp == 0x216 {
        Some("U\u{311}")
    } else if cp == 0x217 {
        Some("u\u{311}")
    } else if cp == 0x218 {
        Some("S\u{326}")
    } else if cp == 0x219 {
        Some("s\u{326}")
    } else if cp == 0x21A {
        Some("T\u{326}")
    } else if cp == 0x21B {
        Some("t\u{326}")
    } else if cp == 0x21E {
        Some("H\u{30C}")
    } else if cp == 0x21F {
        Some("h\u{30C}")
    } else if cp == 0x226 {
        Some("A\u{307}")
    } else if cp == 0x227 {
        Some("a\u{307}")
    } else if cp == 0x228 {
        Some("E\u{327}")
    } else if cp == 0x229 {
        Some("e\u{327}")
    } else if cp == 0x22A {
        Some("O\u{308}\u{304}")
    } else if cp == 0x22B {
        Some("o\u{308}\u{304}")
    } else if cp == 0x22C {
        Some("O\u{303}\u{304}")
    } else if cp == 0x22D {
        Some("o\u{303}\u{304}")
    } else if cp == 0x22E {
        Some("O\u{307}")
    } else if cp == 0x22F {
        Some("o\u{307}")
    } else if cp == 0x230 {
        Some("O\u{307}\u{304}")
    } else if cp == 0x231 {
        Some("o\u{307}\u{304}")
    } else if cp == 0x232 {
        Some("Y\u{304}")
    } else if cp == 0x233 {
        Some("y\u{304}")
    } else if cp == 0x340 {
        Some("\u{300}")
    } else if cp == 0x341 {
        Some("\u{301}")
    } else if cp == 0x343 {
        Some("\u{313}")
    } else if cp == 0x344 {
        Some("\u{308}\u{301}")
    } else {
        None
    }
}

fn canonical_decomposition_of_3(cp: u32) -> (r: Option<&'static str>)
    ensures
        r == canonical_decomposition_3(cp),
{
    if cp == 0x1EB {
        Some("o\u{328}")
    } else if cp == 0x1EC {
        Some("O\u{328}\u{304}")
    } else if cp == 0x1ED {
        Some("o\u{328}\u{304}")
    } else if cp == 0x1EE {
        Some("\u{1B7}\u{30C}")
    } else if cp == 0x1EF {
        Some("\u{292}\u{30C}")
    } else if cp == 0x1F0 {
        Some("j\u{30C}")
    } else if cp == 0x1F4 {
        Some("G\u{301}")
    } else if cp == 0x1F5 {
        Some("g\u{301}")
    } else if cp == 0x1F8 {
        Some("N\u{300}")
    } else if cp == 0x1F9 {
        Some("n\u{300}")
    } else if cp == 0x1FA {
        Some("A\u{30A}\u{301}")
    } else if cp == 0x1FB {
        Some("a\u{30A}\u{301}")
    } else if cp == 0x1FC {
        Some("\u{C6}\u{301}")
    } else if cp == 0x1FD {
        Some("\u{E6}\u{301}")
    } else if cp == 0x1FE {
        Some("\u{D8}\u{301}")
    } else if cp == 0x1FF {
        Some("\u{F8}\u{301}")
    } else if cp == 0x200 {
        Some("A\u{30F}")
    } else if cp == 0x201 {
        Some("a\u{30F}")
    } else if cp == 0x202 {
        Some("A\u{311}")
    } else if cp == 0x203 {
        Some("a\u{311}")
    } else if cp == 0x204 {
        Some("E\u{30F}")
    } else if cp == 0x205 {
        Some("e\u{30F}")
    } else if cp == 0x206 {
        Some("E\u{311}")
    } else if cp == 0x207 {
        Some("e\u{311}")
    } else if cp == 0x208 {
        Some("I\u{30F}")
    } else if cp == 0x209 {
        Some("i\u{30F}")
    } else if cp == 0x20A {
        Some("I\u{311}")
    } else if cp == 0x20B {
        Some("i\u{311}")
    } else if cp == 0x20C {
        Some("O\u{30F}")
    } else if cp == 0x20D {
        Some("o\u{30F}")
    } else if cp == 0x20E {
        Some("O\u{311}")
    } else if cp == 0x20F {
        Some("o\u{311}")
    } else if cp == 0x210 {
        Some("R\u{30F}")
    } else if cp == 0x211 {
        Some("r\u{30F}")
    } else if cp == 0x212 {
        Some("R\u{311}")
    } else if cp == 0x213 {
        Some("r\u{311}")
    } else if cp == 0x214 {
        Some("U\u{30F}")
    } else if cp == 0x215 {
        Some("u\u{30F}")
    } else if cp == 0x216 {
        Some("U\u{311}")
    } else if cp == 0x217 {
        Some("u\u{311}")
    } else if cp == 0x218 {
        Some("S\u{326}")
    } else if cp == 0x219 {
        Some("s\u{326}")
    } else if cp == 0x21A {
        Some("T\u{326}")
    } else if cp == 0x21B {
        Some("t\u{326}")
    } else if cp == 0x21E {
        Some("H\u{30C}")
    } else if cp == 0x21F {
        Some("h\u{30C}")
    } else if cp == 0x226 {
        Some("A\u{307}")
    } else if cp == 0x227 {
        Some("a\u{307}")
    } else if cp == 0x228 {
        Some("E\u{327}")
    } else if cp == 0x229 {
        Some("e\u{327}")
    } else if cp == 0x22A {
        Some("O\u{308}\u{304}")
    } else if cp == 0x22B {
        Some("o\u{308}\u{304}")
    } else if cp == 0x22C {
        Some("O\u{303}\u{304}")
    } else if cp == 0x22D {
        Some("o\u{303}\u{304}")
    } else if cp == 0x22E {
        Some("O\u{307}")
    } else if cp == 0x22F {
        Some("o\u{307}")
    } else if cp == 0x230 {
        Some("O\u{307}\u{304}")
    } else if cp == 0x231 {
        Some("o\u{307}\u{304}")
    } else if cp == 0x232 {
        Some("Y\u{304}")
    } else if cp == 0x233 {
        Some("y\u{304}")
    } else if cp == 0x340 {
        Some("\u{300}")
    } else if cp == 0x341 {
        Some("\u{301}")
    } else if cp == 0x343 {
        Some("\u{313}")
    } else if cp == 0x344 {
        Some("\u{308}\u{301}")
    } else {
        None
    }
}

/// One part of the table [`canonical_decomposition`], by code point.
pub open spec fn canonical_decomposition_4(cp: u32) -> Option<&'static str> {
    if cp == 0x374 {
        Some("\u{2B9}")
    } else if cp == 0x37E {
        Some(";")
    } else if cp == 0x385 {
        Some("\u{A8}\u{301}")
    } else if cp == 0x386 {
        Some("\u{391}\u{301}")
    } else if cp == 0x387 {
        Some("\u{B7}")
    } else if cp == 0x388 {
        Some("\u{395}\u{301}")
    } else if cp == 0x389 {
        Some("\u{397}\u{301}")
    } else if cp == 0x38A {
        Some("\u{399}\u{301}")
    } else if cp == 0x38C {
        Some("\u{39F}\u{301}")
    } else if cp == 0x38E {
        Some("\u{3A5}\u{301}")
    } else if cp == 0x38F {
        Some("\u{3A9}\u{301}")
    } else if cp == 0x390 {
        Some("\u{3B9}\u{308}\u{301}")
    } else if cp == 0x3AA {
        Some("\u{399}\u{308}")
    } else if cp == 0x3AB {
        Some("\u{3A5}\u{308}")
    } else if cp == 0x3AC {
        Some("\u{3B1}\u{301}")
    } else if cp == 0x3AD {
        Some("\u{3B5}\u{301}")
    } else if cp == 0x3AE {
        Some("\u{3B7}\u{301}")
    } else if cp == 0x3AF {
        Some("\u{3B9}\u{301}")
    } else if cp == 0x3B0 {
        Some("\u{3C5}\u{308}\u{301}")
    } else if cp == 0x3CA {
        Some("\u{3B9}\u{308}")
    } else if cp == 0x3CB {
        Some("\u{3C5}\u{308}")
    } else if cp == 0x3CC {
        Some("\u{3BF}\u{301}")
    } else if cp == 0x3CD {
        Some("\u{3C5}\u{301}")
    } else if cp == 0x3CE {
        Some("\u{3C9}\u{301}")
    } else if cp == 0x3D3 {
        Some("\u{3D2}\u{301}")
    } else if cp == 0x3D4 {
        Some("\u{3D2}\u{308}")
    } else if cp == 0x400 {
        Some("\u{415}\u{300}")
    } else if cp == 0x401 {
        Some("\u{415}\u{308}")
    } else if cp == 0x403 {
        Some("\u{413}\u{301}")
    } else if cp == 0x407 {
        Some("\u{406}\u{308}")
    } else if cp == 0x40C {
        Some("\u{41A}\u{301}")
    } else if cp == 0x40D {
        Some("\u{418}\u{300}")
    } else if cp == 0x40E {
        Some("\u{423}\u{306}")
    } else if cp == 0x419 {
        Some("\u{418}\u{306}")
    } else if cp == 0x439 {
        Some("\u{438}\u{306}")
    } else if cp == 0x450 {
        Some("\u{435}\u{300}")
    } else if cp == 0x451 {
        Some("\u{435}\u{308}")
    } else if cp == 0x453 {
        Some("\u{433}\u{301}")
    } else if cp == 0x457 {
        Some("\u{456}\u{308}")
    } else if cp == 0x45C {
        Some("\u{43A}\u{301}")
    } else if cp == 0x45D {
        Some("\u{438}\u{300}")
    } else if cp == 0x45E {
        Some("\u{443}\u{306}")
    } else if cp == 0x476 {
        Some("\u{474}\u{30F}")
    } else if cp == 0x477 {
        Some("\u{475}\u{30F}")
    } else if cp == 0x4C1 {
        Some("\u{416}\u{306}")
    } else if cp == 0x4C2 {
        Some("\u{436}\u{306}")
    } else if cp == 0x4D0 {
        Some("\u{410}\u{306}")
    } else if cp == 0x4D1 {
        Some("\u{430}\u{306}")
    } else if cp == 0x4D2 {
        Some("\u{410}\u{308}")
    } else if cp == 0x4D3 {
        Some("\u{430}\u{308}")
    } else if cp == 0x4D6 {
        Some("\u{415}\u{306}")
    } else if cp == 0x4D7 {
        Some("\u{435}\u{306}")
    } else if cp == 0x4DA {
        Some("\u{4D8}\u{308}")
    } else if cp == 0x4DB {
        Some("\u{4D9}\u{308}")
    } else if cp == 0x4DC {
        Some("\u{416}\u{308}")
    } else if cp == 0x4DD {
        Some("\u{436}\u{308}")
    } else if cp == 0x4DE {
        Some("\u{417}\u{308}")
    } else if cp == 0x4DF {
        Some("\u{437}\u{308}")
    } else if cp == 0x4E2 {
        Some("\u{418}\u{304}")
    } else if cp == 0x4E3 {
        Some("\u{438}\u{304}")
    } else if cp == 0x4E4 {
        Some("\u{418}\u{308}")
    } else if cp == 0x4E5 {
        Some("\u{438}\u{308}")
    } else if cp == 0x4E6 {
        Some("\u{41E}\u{308}")
    } else if cp == 0x4E7 {
        Some("\u{43E}\u{308}")
    } else {
        None
    }
}

fn canonical_decomposition_of_4(cp: u32) -> (r: Option<&'static str>)
    ensures
        r == canonical_decomposition_4(cp),
{
    if cp == 0x374 {
        Some("\u{2B9}")
    } else if cp == 0x37E {
        Some(";")
    } else if cp == 0x385 {
        Some("\u{A8}\u{301}")
    } else if cp == 0x386 {
        Some("\u{391}\u{301}")
    } else if cp == 0x387 {
        Some("\u{B7}")
    } else if cp == 0x388 {
        Some("\u{395}\u{301}")
    } else if cp == 0x389 {
        Some("\u{397}\u{301}")
    } else if cp == 0x38A {
        Some("\u{399}\u{301}")
    } else if cp == 0x38C {
        Some("\u{39F}\u{301}")
    } else if cp == 0x38E {
        Some("\u{3A5}\u{301}")
    } else if cp == 0x38F {
        Some("\u{3A9}\u{301}")
    } else if cp == 0x390 {
        Some("\u{3B9}\u{308}\u{301}")
    } else if cp == 0x3AA {
        Some("\u{399}\u{308}")
    } else if cp == 0x3AB {
        Some("\u{3A5}\u{308}")
    } else if cp == 0x3AC {
        Some("\u{3B1}\u{301}")
    } else if cp == 0x3AD {
        Some("\u{3B5}\u{301}")
    } else if cp == 0x3AE {
        Some("\u{3B7}\u{301}")
    } else if cp == 0x3AF {
        Some("\u{3B9}\u{301}")
    } else if cp == 0x3B0 {
        Some("\u{3C5}\u{308}\u{301}")
    } else if cp == 0x3CA {
        Some("\u{3B9}\u{308}")
    } else if cp == 0x3CB {
        Some("\u{3C5}\u{308}")
    } else if cp == 0x3CC {
        Some("\u{3BF}\u{301}")
    } else if cp == 0x3CD {
        Some("\u{3C5}\u{301}")
    } else if cp == 0x3CE {
        Some("\u{3C9}\u{301}")
    } else if cp == 0x3D3 {
        Some("\u{3D2}\u{301}")
    } else if cp == 0x3D4 {
        Some("\u{3D2}\u{308}")
    } else if cp == 0x400 {
        Some("\u{415}\u{300}")
    } else if cp == 0x401 {
        Some("\u{415}\u{308}")
    } else if cp == 0x403 {
        Some("\u{413}\u{301}")
    } else if cp == 0x407 {
        Some("\u{406}\u{308}")
    } else if cp == 0x40C {
        Some("\u{41A}\u{301}")
    } else if cp == 0x40D {
        Some("\u{418}\u{300}")
    } else if cp == 0x40E {
        Some("\u{423}\u{306}")
    } else if cp == 0x419 {
        Some("\u{418}\u{306}")
    } else if cp == 0x439 {
        Some("\u{438}\u{306}")
    } else if cp == 0x450 {
        Some("\u{435}\u{300}")
    } else if cp == 0x451 {
        Some("\u{435}\u{308}")
    } else if cp == 0x453 {
        Some("\u{433}\u{301}")
    } else if cp == 0x457 {
        Some("\u{456}\u{308}")
    } else if cp == 0x45C {
        Some("\u{43A}\u{301}")
    } else if cp == 0x45D {
        Some("\u{438}\u{300}")
    } else if cp == 0x45E {
        Some("\u{443}\u{306}")
    } else if cp == 0x476 {
        Some("\u{474}\u{30F}")
    } else if cp == 0x477 {
        Some("\u{475}\u{30F}")
    } else if cp == 0x4C1 {
        Some("\u{416}\u{306}")
    } else if cp == 0x4C2 {
        Some("\u{436}\u{306}")
    } else if cp == 0x4D0 {
        Some("\u{410}\u{306}")
    } else if cp == 0x4D1 {
        Some("\u{430}\u{306}")
    } else if cp == 0x4D2 {
        Some("\u{410}\u{308}")
    } else if cp == 0x4D3 {
        Some("\u{430}\u{308}")
    } else if cp == 0x4D6 {
        Some("\u{415}\u{306}")
    } else if cp == 0x4D7 {
        Some("\u{435}\u{306}")
    } else if cp == 0x4DA {
        Some("\u{4D8}\u{308}")
    } else if cp == 0x4DB {
        Some("\u{4D9}\u{308}")
    } else if cp == 0x4DC {
        Some("\u{416}\u{308}")
    } else if cp == 0x4DD {
        Some("\u{436}\u{308}")
    } else if cp == 0x4DE {
        Some("\u{417}\u{308}")
    } else if cp == 0x4DF {
        Some("\u{437}\u{308}")
    } else if cp == 0x4E2 {
        Some("\u{418}\u{304}")
    } else if cp == 0x4E3 {
        Some("\u{438}\u{304}")
    } else if cp == 0x4E4 {
        Some("\u{418}\u{308}")
    } else if cp == 0x4E5 {
        Some("\u{438}\u{308}")
    } else if cp == 0x4E6 {
        Some("\u{41E}\u{308}")
    } else if cp == 0x4E7 {
        Some("\u{43E}\u{308}")
    } else {
        None
    }
}

/// One part of the table [`canonical_decomposition`], by code point.
pub open spec fn canonical_decomposition_5(cp: u32) -> Option<&'static str> {
    if cp == 0x4EA {
        Some("\u{4E8}\u{308}")
    } else if cp == 0x4EB {
        Some("\u{4E9}\u{308}")
    } else if cp == 0x4EC {
        Some("\u{42D}\u{308}")
    } else if cp == 0x4ED {
        Some("\u{44D}\u{308}")
    } else if cp == 0x4EE {
        Some("\u{423}\u{304}")
    } else if cp == 0x4EF {
        Some("\u{443}\u{304}")
    } else if cp == 0x4F0 {
        Some("\u{423}\u{308}")
    } else if cp == 0x4F1 {
        Some("\u{443}\u{308}")
    } else if cp == 0x4F2 {
        Some("\u{423}\u{30B}")
    } else if cp == 0x4F3 {
        Some("\u{443}\u{30B}")
    } else if cp == 0x4F4 {
        Some("\u{427}\u{308}")
    } else if cp == 0x4F5 {
        Some("\u{447}\u{308}")
    } else if cp == 0x4F8 {
        Some("\u{42B}\u{308}")
    } else if cp == 0x4F9 {
        Some("\u{44B}\u{308}")
    } else if cp == 0x622 {
        Some("\u{627}\u{653}")
    } else if cp == 0x623 {
        Some("\u{627}\u{654}")
    } else if cp == 0x624 {
        Some("\u{648}\u{654}")
    } else if cp == 0x625 {
        Some("\u{627}\u{655}")
    } else if cp == 0x626 {
        Some("\u{64A}\u{654}")
    } else if cp == 0x6C0 {
        Some("\u{6D5}\u{654}")
    } else if cp == 0x6C2 {
        Some("\u{6C1}\u{654}")
    } else if cp == 0x6D3 {
        Some("\u{6D2}\u{654}")
    } else if cp == 0x929 {
        Some("\u{928}\u{93C}")
    } else if cp == 0x931 {
        Some("\u{930}\u{93C}")
    } else if cp == 0x934 {
        Some("\u{933}\u{93C}")
    } else if cp == 0x958 {
        Some("\u{915}\u{93C}")
    } else if cp == 0x959 {
        Some("\u{916}\u{93C}")
    } else if cp == 0x95A {
        Some("\u{917}\u{93C}")
    } else if cp == 0x95B {
        Some("\u{91C}\u{93C}")
    } else if cp == 0x95C {
        Some("\u{921}\u{93C}")
    } else if cp == 0x95D {
        Some("\u{922}\u{93C}")
    } else if cp == 0x95E {
        Some("\u{92B}\u{93C}")
    } else if cp == 0x95F {
        Some("\u{92F}\u{93C}")
    } else if cp == 0x9CB {
        Some("\u{9C7}\u{9BE}")
    } else if cp == 0x9CC {
        Some("\u{9C7}\u{9D7}")
    } else if cp == 0x9DC {
        Some("\u{9A1}\u{9BC}")
    } else if cp == 0x9DD {
        Some("\u{9A2}\u{9BC}")
    } else if cp == 0x9DF {
        Some("\u{9AF}\u{9BC}")
    } else if cp == 0xA33 {
        Some("\u{A32}\u{A3C}")
    } else if cp == 0xA36 {
        Some("\u{A38}\u{A3C}")
    } else if cp == 0xA59 {
        Some("\u{A16}\u{A3C}")
    } else if cp == 0xA5A {
        Some("\u{A17}\u{A3C}")
    } else if cp == 0xA5B {
        Some("\u{A1C}\u{A3C}")
    } else if cp == 0xA5E {
        Some("\u{A2B}\u{A3C}")
    } else if cp == 0xB48 {
        Some("\u{B47}\u{B56}")
    } else if cp == 0xB4B {
        Some("\u{B47}\u{B3E}")
    } else if cp == 0xB4C {
        Some("\u{B47}\u{B57}")
    } else if cp == 0xB5C {
        Some("\u{B21}\u{B3C}")
    } else if cp == 0xB5D {
        Some("\u{B22}\u{B3C}")
    } else if cp == 0xB94 {
        Some("\u{B92}\u{BD7}")
    } else if cp == 0xBCA {
        Some("\u{BC6}\u{BBE}")
    } else if cp == 0xBCB {
        Some("\u{BC7}\u{BBE}")
    } else if cp == 0xBCC {
        Some("\u{BC6}\u{BD7}")
    } else if cp == 0xC48 {
        Some("\u{C46}\u{C56}")
    } else if cp == 0xCC0 {
        Some("\u{CBF}\u{CD5}")
    } else if cp == 0xCC7 {
        Some("\u{CC6}\u{CD5}")
    } else if cp == 0xCC8 {
        Some("\u{CC6}\u{CD6}")
    } else if cp == 0xCCA {
        Some("\u{CC6}\u{CC2}")
    } else if cp == 0xCCB {
        Some("\u{CC6}\u{CC2}\u{CD5}")
    } else if cp == 0xD4A {
        Some("\u{D46}\u{D3E}")
    } else if cp == 0xD4B {
        Some("\u{D47}\u{D3E}")
    } else if cp == 0xD4C {
        Some("\u{D46}\u{D57}")
    } else if cp == 0xDDA {
        Some("\u{DD9}\u{DCA}")
    } else if cp == 0xDDC {
        Some("\u{DD9}\u{DCF}")
    } else {
        None
    }
}

fn canonical_decomposition_of_5(cp: u32) -> (r: Option<&'static str>)
    ensures
        r == canonical_decomposition_5(cp),
{
    if cp == 0x4EA {
        Some("\u{4E8}\u{308}")
    } else if cp == 0x4EB {
        Some("\u{4E9}\u{308}")
    } else if cp == 0x4EC {
        Some("\u{42D}\u{308}")
    } else if cp == 0x4ED {
        Some("\u{44D}\u{308}")
    } else if cp == 0x4EE {
        Some("\u{423}\u{304}")
    } else if cp == 0x4EF {
        Some("\u{443}\u{304}")
    } else if cp == 0x4F0 {
        Some("\u{423}\u{308}")
    } else if cp == 0x4F1 {
        Some("\u{443}\u{308}")
    } else if cp == 0x4F2 {
        Some("\u{423}\u{30B}")
    } else if cp == 0x4F3 {
        Some("\u{443}\u{30B}")
    } else if cp == 0x4F4 {
        Some("\u{427}\u{308}")
    } else if cp == 0x4F5 {
        Some("\u{447}\u{308}")
    } else if cp == 0x4F8 {
        Some("\u{42B}\u{308}")
    } else if cp == 0x4F9 {
        Some("\u{44B}\u{308}")
    } else if cp == 0x622 {
        Some("\u{627}\u{653}")
    } else if cp == 0x623 {
        Some("\u{627}\u{654}")
    } else if cp == 0x624 {
        Some("\u{648}\u{654}")
    } else if cp == 0x625 {
        Some("\u{627}\u{655}")
    } else if cp == 0x626 {
        Some("\u{64A}\u{654}")
    } else if cp == 0x6C0 {
        Some("\u{6D5}\u{654}")
    } else if cp == 0x6C2 {
        Some("\u{6C1}\u{654}")
    } else if cp == 0x6D3 {
        Some("\u{6D2}\u{654}")
    } else if cp == 0x929 {
        Some("\u{928}\u{93C}")
    } else if cp == 0x931 {
        Some("\u{930}\u{93C}")
    } else if cp == 0x934 {
        Some("\u{933}\u{93C}")
    } else if cp == 0x958 {
        Some("\u{915}\u{93C}")
    } else if cp == 0x959 {
        Some("\u{916}\u{93C}")
    } else if cp == 0x95A {
        Some("\u{917}\u{93C}")
    } else if cp == 0x95B {
        Some("\u{91C}\u{93C}")
    } else if cp == 0x95C {
        Some("\u{921}\u{93C}")
    } else if cp == 0x95D {
        Some("\u{922}\u{93C}")
    } else if cp == 0x95E {
        Some("\u{92B}\u{93C}")
    } else if cp == 0x95F {
        Some("\u{92F}\u{93C}")
    } else if cp == 0x9CB {
        Some("\u{9C7}\u{9BE}")
    } else if cp == 0x9CC {
        Some("\u{9C7}\u{9D7}")
    } else if cp == 0x9DC {
        Some("\u{9A1}\u{9BC}")
    } else if cp == 0x9DD {
        Some("\u{9A2}\u{9BC}")
    } else if cp == 0x9DF {
        Some("\u{9AF}\u{9BC}")
    } else if cp == 0xA33 {
        Some("\u{A32}\u{A3C}")
    } else if cp == 0xA36 {
        Some("\u{A38}\u{A3C}")
    } else if cp == 0xA59 {
        Some("\u{A16}\u{A3C}")
    } else if cp == 0xA5A {
        Some("\u{A17}\u{A3C}")
    } else if cp == 0xA5B {
        Some("\u{A1C}\u{A3C}")
    } else if cp == 0xA5E {
        Some("\u{A2B}\u{A3C}")
    } else if cp == 0xB48 {
        Some("\u{B47}\u{B56}")
    } else if cp == 0xB4B {
        Some("\u{B47}\u{B3E}")
    } else if cp == 0xB4C {
        Some("\u{B47}\u{B57}")
    } else if cp == 0xB5C {
        Some("\u{B21}\u{B3C}")
    } else if cp == 0xB5D {
        Some("\u{B22}\u{B3C}")
    } else if cp == 0xB94 {
        Some("\u{B92}\u{BD7}")
    } else if cp == 0xBCA {
        Some("\u{BC6}\u{BBE}")
    } else if cp == 0xBCB {
        Some("\u{BC7}\u{BBE}")
    } else if cp == 0xBCC {
        Some("\u{BC6}\u{BD7}")
    } else if cp == 0xC48 {
        Some("\u{C46}\u{C56}")
    } else if cp == 0xCC0 {
        Some("\u{CBF}\u{CD5}")
    } else if cp == 0xCC7 {
        Some("\u{CC6}\u{CD5}")
    } else if cp == 0xCC8 {
        Some("\u{CC6}\u{CD6}")
    } else if cp == 0xCCA {
        Some("\u{CC6}\u{CC2}")
    } else if cp == 0xCCB {
        Some("\u{CC6}\u{CC2}\u{CD5}")
    } else if cp == 0xD4A {
        Some("\u{D46}\u{D3E}")
    } else if cp == 0xD4B {
        Some("\u{D47}\u{D3E}")
    } else if cp == 0xD4C {
        Some("\u{D46}\u{D57}")
    } else if cp == 0xDDA {
        Some("\u{DD9}\u{DCA}")
    } else if cp == 0xDDC {
        Some("\u{DD9}\u{DCF}")
    } else {
        None
    }
}

/// One part of the table [`canonical_decomposition`], by code point.
pub open spec fn canonical_decomposition_6(cp: u32) -> Option<&'static str> {
    if cp == 0xDDD {
        Some("\u{DD9}\u{DCF}\u{DCA}")
    } else if cp == 0xDDE {
        Some("\u{DD9}\u{DDF}")
    } else if cp == 0xF43 {
        Some("\u{F42}\u{FB7}")
    } else if cp == 0xF4D {
        Some("\u{F4C}\u{FB7}")
    } else if cp == 0xF52 {
        Some("\u{F51}\u{FB7}")
    } else if cp == 0xF57 {
        Some("\u{F56}\u{FB7}")
    } else if cp == 0xF5C {
        Some("\u{F5B}\u{FB7}")
    } else if cp == 0xF69 {
        Some("\u{F40}\u{FB5}")
    } else if cp == 0xF73 {
        Some("\u{F71}\u{F72}")
    } else if cp == 0xF75 {
        Some("\u{F71}\u{F74}")
    } else if cp == 0xF76 {
        Some("\u{FB2}\u{F80}")
    } else if cp == 0xF78 {
        Some("\u{FB3}\u{F80}")
    } else if cp == 0xF81 {
        Some("\u{F71}\u{F80}")
    } else if cp == 0xF93 {
        Some("\u{F92}\u{FB7}")
    } else if cp == 0xF9D {
        Some("\u{F9C}\u{FB7}")
    } else if cp == 0xFA2 {
        Some("\u{FA1}\u{FB7}")
    } else if cp == 0xFA7 {
        Some("\u{FA6}\u{FB7}")
    } else if cp == 0xFAC {
        Some("\u{FAB}\u{FB7}")
    } else if cp == 0xFB9 {
        Some("\u{F90}\u{FB5}")
    } else if cp == 0x1026 {
        Some("\u{1025}\u{102E}")
    } else if cp == 0x1B06 {
        Some("\u{1B05}\u{1B35}")
    } else if cp == 0x1B08 {
        Some("\u{1B07}\u{1B35}")
    } else if cp == 0x1B0A {
        Some("\u{1B09}\u{1B35}")
    } else if cp == 0x1B0C {
        Some("\u{1B0B}\u{1B35}")
    } else if cp == 0x1B0E {
        Some("\u{1B0D}\u{1B35}")
    } else if cp == 0x1B12 {
        Some("\u{1B11}\u{1B35}")
    } else if cp == 0x1B3B {
        Some("\u{1B3A}\u{1B35}")
    } else if cp == 0x1B3D {
        Some("\u{1B3C}\u{1B35}")
    } else if cp == 0x1B40 {
        Some("\u{1B3E}\u{1B35}")
    } else if cp == 0x1B41 {
        Some("\u{1B3F}\u{1B35}")
    } else if cp == 0x1B43 {
        Some("\u{1B42}\u{1B35}")
    } else if cp == 0x1E00 {
        Some("A\u{325}")
    } else if cp == 0x1E01 {
        Some("a\u{325}")
    } else if cp == 0x1E02 {
        Some("B\u{307}")
    } else if cp == 0x1E03 {
        Some("b\u{307}")
    } else if cp == 0x1E04 {
        Some("B\u{323}")
    } else if cp == 0x1E05 {
        Some("b\u{323}")
    } else if cp == 0x1E06 {
        Some("B\u{331}")
    } else if cp == 0x1E07 {
        Some("b\u{331}")
    } else if cp == 0x1E08 {
        Some("C\u{327}\u{301}")
    } else if cp == 0x1E09 {
        Some("c\u{327}\u{301}")
    } else if cp == 0x1E0A {
        Some("D\u{307}")
    } else if cp == 0x1E0B {
        Some("d\u{307}")
    } else if cp == 0x1E0C {
        Some("D\u{323}")
    } else if cp == 0x1E0D {
        Some("d\u{323}")
    } else if cp == 0x1E0E {
        Some("D\u{331}")
    } else if cp == 0x1E0F {
        Some("d\u{331}")
    } else if cp == 0x1E10 {
        Some("D\u{327}")
    } else if cp == 0x1E11 {
        Some("d\u{327}")
    } else if cp == 0x1E12 {
        Some("D\u{32D}")
    } else if cp == 0x1E13 {
        Some("d\u{32D}")
    } else if cp == 0x1E14 {
        Some("E\u{304}\u{300}")
    } else if cp == 0x1E15 {
        Some("e\u{304}\u{300}")
    } else if cp == 0x1E16 {
        Some("E\u{304}\u{301}")
    } else if cp == 0x1E17 {
        Some("e\u{304}\u{301}")
    } else if cp == 0x1E18 {
        Some("E\u{32D}")
    } else if cp == 0x1E19 {
        Some("e\u{32D}")
    } else if cp == 0x1E1A {
        Some("E\u{330}")
    } else if cp == 0x1E1B {
        Some("e\u{330}")
    } else if cp == 0x1E1C {
        Some("E\u{327}\u{306}")
    } else if cp == 0x1E1D {
        Some("e\u{327}\u{306}")
    } else if cp == 0x1E1E {
        Some("F\u{307}")
    } else if cp == 0x1E1F {
        Some("f\u{307}")
    } else if cp == 0x1E20 {
        Some("G\u{304}")
    } else {
        None
    }
}

fn canonical_decomposition_of_6(cp: u32) -> (r: Option<&'static str>)
    ensures
        r == canonical_decomposition_6(cp),
{
    if cp == 0xDDD {
        Some("\u{DD9}\u{DCF}\u{DCA}")
    } else if cp == 0xDDE {
        Some("\u{DD9}\u{DDF}")
    } else if cp == 0xF43 {
        Some("\u{F42}\u{FB7}")
    } else if cp == 0xF4D {
        Some("\u{F4C}\u{FB7}")
    } else if cp == 0xF52 {
        Some("\u{F51}\u{FB7}")
    } else if cp == 0xF57 {
        Some("\u{F56}\u{FB7}")
    } else if cp == 0xF5C {
        Some("\u{F5B}\u{FB7}")
    } else if cp == 0xF69 {
        Some("\u{F40}\u{FB5}")
    } else if cp == 0xF73 {
        Some("\u{F71}\u{F72}")
    } else if cp == 0xF75 {
        Some("\u{F71}\u{F74}")
    } else if cp == 0xF76 {
        Some("\u{FB2}\u{F80}")
    } else if cp == 0xF78 {
        Some("\u{FB3}\u{F80}")
    } else if cp == 0xF81 {
        Some("\u{F71}\u{F80}")
    } else if cp == 0xF93 {
        Some("\u{F92}\u{FB7}")
    } else if cp == 0xF9D {
        Some("\u{F9C}\u{FB7}")
    } else if cp == 0xFA2 {
        Some("\u{FA1}\u{FB7}")
    } else if cp == 0xFA7 {
        Some("\u{FA6}\u{FB7}")
    } else if cp == 0xFAC {
        Some("\u{FAB}\u{FB7}")
    } else if cp == 0xFB9 {
        Some("\u{F90}\u{FB5}")
    } else if cp == 0x1026 {
        Some("\u{1025}\u{102E}")
    } else if cp == 0x1B06 {
        Some("\u{1B05}\u{1B35}")
    } else if cp == 0x1B08 {
        Some("\u{1B07}\u{1B35}")
    } else if cp == 0x1B0A {
        Some("\u{1B09}\u{1B35}")
    } else if cp == 0x1B0C {
        Some("\u{1B0B}\u{1B35}")
    } else if cp == 0x1B0E {
        Some("\u{1B0D}\u{1B35}")
    } else if cp == 0x1B12 {
        Some("\u{1B11}\u{1B35}")
    } else if cp == 0x1B3B {
        Some("\u{1B3A}\u{1B35}")
    } else if cp == 0x1B3D {
        Some("\u{1B3C}\u{1B35}")
    } else if cp == 0x1B40 {
        Some("\u{1B3E}\u{1B35}")
    } else if cp == 0x1B41 {
        Some("\u{1B3F}\u{1B35}")
    } else if cp == 0x1B43 {
        Some("\u{1B42}\u{1B35}")
    } else if cp == 0x1E00 {
        Some("A\u{325}")
    } else if cp == 0x1E01 {
        Some("a\u{325}")
    } else if cp == 0x1E02 {
        Some("B\u{307}")
    } else if cp == 0x1E03 {
        Some("b\u{307}")
    } else if cp == 0x1E04 {
        Some("B\u{323}")
    } else if cp == 0x1E05 {
        Some("b\u{323}")
    } else if cp == 0x1E06 {
        Some("B\u{331}")
    } else if cp == 0x1E07 {
        Some("b\u{331}")
    } else if cp == 0x1E08 {
        Some("C\u{327}\u{301}")
    } else if cp == 0x1E09 {
        Some("c\u{327}\u{301}")
    } else if cp == 0x1E0A {
        Some("D\u{307}")
    } else if cp == 0x1E0B {
        Some("d\u{307}")
    } else if cp == 0x1E0C {
        Some("D\u{323}")
    } else if cp == 0x1E0D {
        Some("d\u{323}")
    } else if cp == 0x1E0E {
        Some("D\u{331}")
    } else if cp == 0x1E0F {
        Some("d\u{331}")
    } else if cp == 0x1E10 {
        Some("D\u{327}")
    } else if cp == 0x1E11 {
        Some("d\u{327}")
    } else if cp == 0x1E12 {
        Some("D\u{32D}")
    } else if cp == 0x1E13 {
        Some("d\u{32D}")
    } else if cp == 0x1E14 {
        Some("E\u{304}\u{300}")
    } else if cp == 0x1E15 {
        Some("e\u{304}\u{300}")
    } else if cp == 0x1E16 {
        Some("E\u{304}\u{301}")
    } else if cp == 0x1E17 {
        Some("e\u{304}\u{301}")
    } else if cp == 0x1E18 {
        Some("E\u{32D}")
    } else if cp == 0x1E19 {
        Some("e\u{32D}")
    } else if cp == 0x1E1A {
        Some("E\u{330}")
    } else if cp == 0x1E1B {
        Some("e\u{330}")
    } else if cp == 0x1E1C {
        Some("E\u{327}\u{306}")
    } else if cp == 0x1E1D {
        Some("e\u{327}\u{306}")
    } else if cp == 0x1E1E {
        Some("F\u{307}")
    } else if cp == 0x1E1F {
        Some("f\u{307}")
    } else if cp == 0x1E20 {
        Some("G\u{304}")
    } else {
        None
    }
}

/// One part of the table [`canonical_decomposition`], by code point.
pub open spec fn canonical_decomposition_7(cp: u32) -> Option<&'static str> {
    if cp == 0x1E21 {
        Some("g\u{304}")
    } else if cp == 0x1E22 {
        Some("H\u{307}")
    } else if cp == 0x1E23 {
        Some("h\u{307}")
    } else if cp == 0x1E24 {
        Some("H\u{323}")
    } else if cp == 0x1E25 {
        Some("h\u{323}")
    } else if cp == 0x1E26 {
        Some("H\u{308}")
    } else if cp == 0x1E27 {
        Some("h\u{308}")
    } else if cp == 0x1E28 {
        Some("H\u{327}")
    } else if cp == 0x1E29 {
        Some("h\u{327}")
    } else if cp == 0x1E2A {
        Some("H\u{32E}")
    } else if cp == 0x1E2B {
        Some("h\u{32E}")
    } else if cp == 0x1E2C {
        Some("I\u{330}")
    } else if cp == 0x1E2D {
        Some("i\u{330}")
    } else if cp == 0x1E2E {
        Some("I\u{308}\u{301}")
    } else if cp == 0x1E2F {
        Some("i\u{308}\u{301}")
    } else if cp == 0x1E30 {
        Some("K\u{301}")
    } else if cp == 0x1E31 {
        Some("k\u{301}")
    } else if cp == 0x1E32 {
        Some("K\u{323}")
    } else if cp == 0x1E33 {
        Some("k\u{323}")
    } else if cp == 0x1E34 {
        Some("K\u{331}")
    } else if cp == 0x1E35 {
        Some("k\u{331}")
    } else if cp == 0x1E36 {
        Some("L\u{323}")
    } else if cp == 0x1E37 {
        Some("l\u{323}")
    } else if cp == 0x1E38 {
        Some("L\u{323}\u{304}")
    } else if cp == 0x1E39 {
        Some("l\u{323}\u{304}")
    } else if cp == 0x1E3A {
        Some("L\u{331}")
    } else if cp == 0x1E3B {
        Some("l\u{331}")
    } else if cp == 0x1E3C {
        Some("L\u{32D}")
    } else if cp == 0x1E3D {
        Some("l\u{32D}")
    } else if cp == 0x1E3E {
        Some("M\u{301}")
    } else if cp == 0x1E3F {
        Some("m\u{301}")
    } else if cp == 0x1E40 {
        Some("M\u{307}")
    } else if cp == 0x1E41 {
        Some("m\u{307}")
    } else if cp == 0x1E42 {
        Some("M\u{323}")
    } else if cp == 0x1E43 {
        Some("m\u{323}")
    } else if cp == 0x1E44 {
        Some("N\u{307}")
    } else if cp == 0x1E45 {
        Some("n\u{307}")
    } else if cp == 0x1E46 {
        Some("N\u{323}")
    } else if cp == 0x1E47 {
        Some("n\u{323}")
    } else if cp == 0x1E48 {
        Some("N\u{331}")
    } else if cp == 0x1E49 {
        Some("n\u{331}")
    } else if cp == 0x1E4A {
        Some("N\u{32D}")
    } else if cp == 0x1E4B {
        Some("n\u{32D}")
    } else if cp == 0x1E4C {
        Some("O\u{303}\u{301}")
    } else if cp == 0x1E4D {
        Some("o\u{303}\u{301}")
    } else if cp == 0x1E4E {
        Some("O\u{303}\u{308}")
    } else if cp == 0x1E4F {
        Some("o\u{303}\u{308}")
    } else if cp == 0x1E50 {
        Some("O\u{304}\u{300}")
    } else if cp == 0x1E51 {
        Some("o\u{304}\u{300}")
    } else if cp == 0x1E52 {
        Some("O\u{304}\u{301}")
    } else if cp == 0x1E53 {
        Some("o\u{304}\u{301}")
    } else if cp == 0x1E54 {
        Some("P\u{301}")
    } else if cp == 0x1E55 {
        Some("p\u{301}")
    } else if cp == 0x1E56 {
        Some("P\u{307}")
    } else if cp == 0x1E57 {
        Some("p\u{307}")
    } else if cp == 0x1E58 {
        Some("R\u{307}")
    } else if cp == 0x1E59 {
        Some("r\u{307}")
    } else if cp == 0x1E5A {
        Some("R\u{323}")
    } else if cp == 0x1E5B {
        Some("r\u{323}")
    } else if cp == 0x1E5C {
        Some("R\u{323}\u{304}")
    } else if cp == 0x1E5D {
        Some("r\u{323}\u{304}")
    } else if cp == 0x1E5E {
        Some("R\u{331}")
    } else if cp == 0x1E5F {
        Some("r\u{331}")
    } else if cp == 0x1E60 {
        Some("S\u{307}")
    } else {
        None
    }
}

fn canonical_decomposition_of_7(cp: u32) -> (r: Option<&'static str>)
    ensures
        r == canonical_decomposition_7(cp),
{
    if cp == 0x1E21 {
        Some("g\u{304}")
    } else if cp == 0x1E22 {
        Some("H\u{307}")
    } else if cp == 0x1E23 {
        Some("h\u{307}")
    } else if cp == 0x1E24 {
        Some("H\u{323}")
    } else if cp == 0x1E25 {
        Some("h\u{323}")
    } else if cp == 0x1E26 {
        Some("H\u{308}")
    } else if cp == 0x1E27 {
        Some("h\u{308}")
    } else if cp == 0x1E28 {
        Some("H\u{327}")
    } else if cp == 0x1E29 {
        Some("h\u{327}")
    } else if cp == 0x1E2A {
        Some("H\u{32E}")
    } else if cp == 0x1E2B {
        Some("h\u{32E}")
    } else if cp == 0x1E2C {
        Some("I\u{330}")
    } else if cp == 0x1E2D {
        Some("i\u{330}")
    } else if cp == 0x1E2E {
        Some("I\u{308}\u{301}")
    } else if cp == 0x1E2F {
        Some("i\u{308}\u{301}")
    } else if cp == 0x1E30 {
        Some("K\u{301}")
    } else if cp == 0x1E31 {
        Some("k\u{301}")
    } else if cp == 0x1E32 {
        Some("K\u{323}")
    } else if cp == 0x1E33 {
        Some("k\u{323}")
    } else if cp == 0x1E34 {
        Some("K\u{331}")
    } else if cp == 0x1E35 {
        Some("k\u{331}")
    } else if cp == 0x1E36 {
        Some("L\u{323}")
    } else if cp == 0x1E37 {
        Some("l\u{323}")
    } else if cp == 0x1E38 {
        Some("L\u{323}\u{304}")
    } else if cp == 0x1E39 {
        Some("l\u{323}\u{304}")
    } else if cp == 0x1E3A {
        Some("L\u{331}")
    } else if cp == 0x1E3B {
        Some("l\u{331}")
    } else if cp == 0x1E3C {
        Some("L\u{32D}")
    } else if cp == 0x1E3D {
        Some("l\u{32D}")
    } else if cp == 0x1E3E {
        Some("M\u{301}")
    } else if cp == 0x1E3F {
        Some("m\u{301}")
    } else if cp == 0x1E40 {
        Some("M\u{307}")
    } else if cp == 0x1E41 {
        Some("m\u{307}")
    } else if cp == 0x1E42 {
        Some("M\u{323}")
    } else if cp == 0x1E43 {
        Some("m\u{323}")
    } else if cp == 0x1E44 {
        Some("N\u{307}")
    } else if cp == 0x1E45 {
        Some("n\u{307}")
    } else if cp == 0x1E46 {
        Some("N\u{323}")
    } else if cp == 0x1E47 {
        Some("n\u{323}")
    } else if cp == 0x1E48 {
        Some("N\u{331}")
    } else if cp == 0x1E49 {
        Some("n\u{331}")
    } else if cp == 0x1E4A {
        Some("N\u{32D}")
    } else if cp == 0x1E4B {
        Some("n\u{32D}")
    } else if cp == 0x1E4C {
        Some("O\u{303}\u{301}")
    } else if cp == 0x1E4D {
        Some("o\u{303}\u{301}")
    } else if cp == 0x1E4E {
        Some("O\u{303}\u{308}")
    } else if cp == 0x1E4F {
        Some("o\u{303}\u{308}")
    } else if cp == 0x1E50 {
        Some("O\u{304}\u{300}")
    } else if cp == 0x1E51 {
        Some("o\u{304}\u{300}")
    } else if cp == 0x1E52 {
        Some("O\u{304}\u{301}")
    } else if cp == 0x1E53 {
        Some("o\u{304}\u{301}")
    } else if cp == 0x1E54 {
        Some("P\u{301}")
    } else if cp == 0x1E55 {
        Some("p\u{301}")
    } else if cp == 0x1E56 {
        Some("P\u{307}")
    } else if cp == 0x1E57 {
        Some("p\u{307}")
    } else if cp == 0x1E58 {
        Some("R\u{307}")
    } else if cp == 0x1E59 {
        Some("r\u{307}")
    } else if cp == 0x1E5A {
        Some("R\u{323}")
    } else if cp == 0x1E5B {
        Some("r\u{323}")
    } else if cp == 0x1E5C {
        Some("R\u{323}\u{304}")
    } else if cp == 0x1E5D {
        Some("r\u{323}\u{304}")
    } else if cp == 0x1E5E {
        Some("R\u{331}")
    } else if cp == 0x1E5F {
        Some("r\u{331}")
    } else if cp == 0x1E60 {
        Some("S\u{307}")
    } else {
        None
    }
}

/// One part of the table [`canonical_decomposition`], by code point.
pub open spec fn canonical_decomposition_8(cp: u32) -> Option<&'static str> {
    if cp == 0x1E61 {
        Some("s\u{307}")
    } else if cp == 0x1E62 {
        Some("S\u{323}")
    } else if cp == 0x1E63 {
        Some("s\u{323}")
    } else if cp == 0x1E64 {
        Some("S\u{301}\u{307}")
    } else if cp == 0x1E65 {
        Some("s\u{301}\u{307}")
    } else if cp == 0x1E66 {
        Some("S\u{30C}\u{307}")
    } else if cp == 0x1E67 {
        Some("s\u{30C}\u{307}")
    } else if cp == 0x1E68 {
        Some("S\u{323}\u{307}")
    } else if cp == 0x1E69 {
        Some("s\u{323}\u{307}")
    } else if cp == 0x1E6A {
        Some("T\u{307}")
    } else if cp == 0x1E6B {
        Some("t\u{307}")
    } else if cp == 0x1E6C {
        Some("T\u{323}")
    } else if cp == 0x1E6D {
        Some("t\u{323}")
    } else if cp == 0x1E6E {
        Some("T\u{331}")
    } else if cp == 0x1E6F {
        Some("t\u{331}")
    } else if cp == 0x1E70 {
        Some("T\u{32D}")
    } else if cp == 0x1E71 {
        Some("t\u{32D}")
    } else if cp == 0x1E72 {
        Some("U\u{324}")
    } else if cp == 0x1E73 {
        Some("u\u{324}")
    } else if cp == 0x1E74 {
        Some("U\u{330}")
    } else if cp == 0x1E75 {
        Some("u\u{330}")
    } else if cp == 0x1E76 {
        Some("U\u{32D}")
    } else if cp == 0x1E77 {
        Some("u\u{32D}")
    } else if cp == 0x1E78 {
        Some("U\u{303}\u{301}")
    } else if cp == 0x1E79 {
        Some("u\u{303}\u{301}")
    } else if cp == 0x1E7A {
        Some("U\u{304}\u{308}")
    } else if cp == 0x1E7B {
        Some("u\u{304}\u{308}")
    } else if cp == 0x1E7C {
        Some("V\u{303}")
    } else if cp == 0x1E7D {
        Some("v\u{303}")
    } else if cp == 0x1E7E {
        Some("V\u{323}")
    } else if cp == 0x1E7F {
        Some("v\u{323}")
    } else if cp == 0x1E80 {
        Some("W\u{300}")
    } else if cp == 0x1E81 {
        Some("w\u{300}")
    } else if cp == 0x1E82 {
        Some("W\u{301}")
    } else if cp == 0x1E83 {
        Some("w\u{301}")
    } else if cp == 0x1E84 {
        Some("W\u{308}")
    } else if cp == 0x1E85 {
        Some("w\u{308}")
    } else if cp == 0x1E86 {
        Some("W\u{307}")
    } else if cp == 0x1E87 {
        Some("w\u{307}")
    } else if cp == 0x1E88 {
        Some("W\u{323}")
    } else if cp == 0x1E89 {
        Some("w\u{323}")
    } else if cp == 0x1E8A {
        Some("X\u{307}")
    } else if cp == 0x1E8B {
        Some("x\u{307}")
    } else if cp == 0x1E8C {
        Some("X\u{308}")
    } else if cp == 0x1E8D {
        Some("x\u{308}")
    } else if cp == 0x1E8E {
        Some("Y\u{307}")
    } else if cp == 0x1E8F {
        Some("y\u{307}")
    } else if cp == 0x1E90 {
        Some("Z\u{302}")
    } else if cp == 0x1E91 {
        Some("z\u{302}")
    } else if cp == 0x1E92 {
        Some("Z\u{323}")
    } else if cp == 0x1E93 {
        Some("z\u{323}")
    } else if cp == 0x1E94 {
        Some("Z\u{331}")
    } else if cp == 0x1E95 {
        Some("z\u{331}")
    } else if cp == 0x1E96 {
        Some("h\u{331}")
    } else if cp == 0x1E97 {
        Some("t\u{308}")
    } else if cp == 0x1E98 {
        Some("w\u{30A}")
    } else if cp == 0x1E99 {
        Some("y\u{30A}")
    } else if cp == 0x1E9B {
        Some("\u{17F}\u{307}")
    } else if cp == 0x1EA0 {
        Some("A\u{323}")
    } else if cp == 0x1EA1 {
        Some("a\u{323}")
    } else if cp == 0x1EA2 {
        Some("A\u{309}")
    } else if cp == 0x1EA3 {
        Some("a\u{309}")
    } else if cp == 0x1EA4 {
        Some("A\u{302}\u{301}")
    } else if cp == 0x1EA5 {
        Some("a\u{302}\u{301}")
    } else {
        None
    }
}

fn canonical_decomposition_of_8(cp: u32) -> (r: Option<&'static str>)
    ensures
        r == canonical_decomposition_8(cp),
{
    if cp == 0x1E61 {
        Some("s\u{307}")
    } else if cp == 0x1E62 {
        Some("S\u{323}")
    } else if cp == 0x1E63 {
        Some("s\u{323}")
    } else if cp == 0x1E64 {
        Some("S\u{301}\u{307}")
    } else if cp == 0x1E65 {
        Some("s\u{301}\u{307}")
    } else if cp == 0x1E66 {
        Some("S\u{30C}\u{307}")
    } else if cp == 0x1E67 {
        Some("s\u{30C}\u{307}")
    } else if cp == 0x1E68 {
        Some("S\u{323}\u{307}")
    } else if cp == 0x1E69 {
        Some("s\u{323}\u{307}")
    } else if cp == 0x1E6A {
        Some("T\u{307}")
    } else if cp == 0x1E6B {
        Some("t\u{307}")
    } else if cp == 0x1E6C {
        Some("T\u{323}")
    } else if cp == 0x1E6D {
        Some("t\u{323}")
    } else if cp == 0x1E6E {
        Some("T\u{331}")
    } else if cp == 0x1E6F {
        Some("t\u{331}")
    } else if cp == 0x1E70 {
        Some("T\u{32D}")
    } else if cp == 0x1E71 {
        Some("t\u{32D}")
    } else if cp == 0x1E72 {
        Some("U\u{324}")
    } else if cp == 0x1E73 {
        Some("u\u{324}")
    } else if cp == 0x1E74 {
        Some("U\u{330}")
    } else if cp == 0x1E75 {
        Some("u\u{330}")
    } else if cp == 0x1E76 {
        Some("U\u{32D}")
    } else if cp == 0x1E77 {
        Some("u\u{32D}")
    } else if cp == 0x1E78 {
        Some("U\u{303}\u{301}")
    } else if cp == 0x1E79 {
        Some("u\u{303}\u{301}")
    } else if cp == 0x1E7A {
        Some("U\u{304}\u{308}")
    } else if cp == 0x1E7B {
        Some("u\u{304}\u{308}")
    } else if cp == 0x1E7C {
        Some("V\u{303}")
    } else if cp == 0x1E7D {
        Some("v\u{303}")
    } else if cp == 0x1E7E {
        Some("V\u{323}")
    } else if cp == 0x1E7F {
        Some("v\u{323}")
    } else if cp == 0x1E80 {
        Some("W\u{300}")
    } else if cp == 0x1E81 {
        Some("w\u{300}")
    } else if cp == 0x1E82 {
        Some("W\u{301}")
    } else if cp == 0x1E83 {
        Some("w\u{301}")
    } else if cp == 0x1E84 {
        Some("W\u{308}")
    } else if cp == 0x1E85 {
        Some("w\u{308}")
    } else if cp == 0x1E86 {
        Some("W\u{307}")
    } else if cp == 0x1E87 {
        Some("w\u{307}")
    } else if cp == 0x1E88 {
        Some("W\u{323}")
    } else if cp == 0x1E89 {
        Some("w\u{323}")
    } else if cp == 0x1E8A {
        Some("X\u{307}")
    } else if cp == 0x1E8B {
        Some("x\u{307}")
    } else if cp == 0x1E8C {
        Some("X\u{308}")
    } else if cp == 0x1E8D {
        Some("x\u{308}")
    } else if cp == 0x1E8E {
        Some("Y\u{307}")
    } else if cp == 0x1E8F {
        Some("y\u{307}")
    } else if cp == 0x1E90 {
        Some("Z\u{302}")
    } else if cp == 0x1E91 {
        Some("z\u{302}")
    } else if cp == 0x1E92 {
        Some("Z\u{323}")
    } else if cp == 0x1E93 {
        Some("z\u{323}")
    } else if cp == 0x1E94 {
        Some("Z\u{331}")
    } else if cp == 0x1E95 {
        Some("z\u{331}")
    } else if cp == 0x1E96 {
        Some("h\u{331}")
    } else if cp == 0x1E97 {
        Some("t\u{308}")
    } else if cp == 0x1E98 {
        Some("w\u{30A}")
    } else if cp == 0x1E99 {
        Some("y\u{30A}")
    } else if cp == 0x1E9B {
        Some("\u{17F}\u{307}")
    } else if cp == 0x1EA0 {
        Some("A\u{323}")
    } else if cp == 0x1EA1 {
        Some("a\u{323}")
    } else if cp == 0x1EA2 {
        Some("A\u{309}")
    } else if cp == 0x1EA3 {
        Some("a\u{309}")
    } else if cp == 0x1EA4 {
        Some("A\u{302}\u{301}")
    } else if cp == 0x1EA5 {
        Some("a\u{302}\u{301}")
    } else {
        None
    }
}

/// One part of the table [`canonical_decomposition`], by code point.
pub open spec fn canonical_decomposition_9(cp: u32) -> Option<&'static str> {
    if cp == 0x1EA6 {
        Some("A\u{302}\u{300}")
    } else if cp == 0x1EA7 {
        Some("a\u{302}\u{300}")
    } else if cp == 0x1EA8 {
        Some("A\u{302}\u{309}")
    } else if cp == 0x1EA9 {
        Some("a\u{302}\u{309}")
    } else if cp == 0x1EAA {
        Some("A\u{302}\u{303}")
    } else if cp == 0x1EAB {
        Some("a\u{302}\u{303}")
    } else if cp == 0x1EAC {
        Some("A\u{323}\u{302}")
    } else if cp == 0x1EAD {
        Some("a\u{323}\u{302}")
    } else if cp == 0x1EAE {
        Some("A\u{306}\u{301}")
    } else if cp == 0x1EAF {
        Some("a\u{306}\u{301}")
    } else if cp == 0x1EB0 {
        Some("A\u{306}\u{300}")
    } else if cp == 0x1EB1 {
        Some("a\u{306}\u{300}")
    } else if cp == 0x1EB2 {
        Some("A\u{306}\u{309}")
    } else if cp == 0x1EB3 {
        Some("a\u{306}\u{309}")
    } else if cp == 0x1EB4 {
        Some("A\u{306}\u{303}")
    } else if cp == 0x1EB5 {
        Some("a\u{306}\u{303}")
    } else if cp == 0x1EB6 {
        Some("A\u{323}\u{306}")
    } else if cp == 0x1EB7 {
        Some("a\u{323}\u{306}")
    } else if cp == 0x1EB8 {
        Some("E\u{323}")
    } else if cp == 0x1EB9 {
        Some("e\u{323}")
    } else if cp == 0x1EBA {
        Some("E\u{309}")
    } else if cp == 0x1EBB {
        Some("e\u{309}")
    } else if cp == 0x1EBC {
        Some("E\u{303}")
    } else if cp == 0x1EBD {
        Some("e\u{303}")
    } else if cp == 0x1EBE {
        Some("E\u{302}\u{301}")
    } else if cp == 0x1EBF {
        Some("e\u{302}\u{301}")
    } else if cp == 0x1EC0 {
        Some("E\u{302}\u{300}")
    } else if cp == 0x1EC1 {
        Some("e\u{302}\u{300}")
    } else if cp == 0x1EC2 {
        Some("E\u{302}\u{309}")
    } else if cp == 0x1EC3 {
        Some("e\u{302}\u{309}")
    } else if cp == 0x1EC4 {
        Some("E\u{302}\u{303}")
    } else if cp == 0x1EC5 {
        Some("e\u{302}\u{303}")
    } else if cp == 0x1EC6 {
        Some("E\u{323}\u{302}")
    } else if cp == 0x1EC7 {
        Some("e\u{323}\u{302}")
    } else if cp == 0x1EC8 {
        Some("I\u{309}")
    } else if cp == 0x1EC9 {
        Some("i\u{309}")
    } else if cp == 0x1ECA {
        Some("I\u{323}")
    } else if cp == 0x1ECB {
        Some("i\u{323}")
    } else if cp == 0x1ECC {
        Some("O\u{323}")
    } else if cp == 0x1ECD {
        Some("o\u{323}")
    } else if cp == 0x1ECE {
        Some("O\u{309}")
    } else if cp == 0x1ECF {
        Some("o\u{309}")
    } else if cp == 0x1ED0 {
        Some("O\u{302}\u{301}")
    } else if cp == 0x1ED1 {
        Some("o\u{302}\u{301}")
    } else if cp == 0x1ED2 {
        Some("O\u{302}\u{300}")
    } else if cp == 0x1ED3 {
        Some("o\u{302}\u{300}")
    } else if cp == 0x1ED4 {
        Some("O\u{302}\u{309}")
    } else if cp == 0x1ED5 {
        Some("o\u{302}\u{309}")
    } else if cp == 0x1ED6 {
        Some("O\u{302}\u{303}")
    } else if cp == 0x1ED7 {
        Some("o\u{302}\u{303}")
    } else if cp == 0x1ED8 {
        Some("O\u{323}\u{302}")
    } else if cp == 0x1ED9 {
        Some("o\u{323}\u{302}")
    } else if cp == 0x1EDA {
        Some("O\u{31B}\u{301}")
    } else if cp == 0x1EDB {
        Some("o\u{31B}\u{301}")
    } else if cp == 0x1EDC {
        Some("O\u{31B}\u{300}")
    } else if cp == 0x1EDD {
        Some("o\u{31B}\u{300}")
    } else if cp == 0x1EDE {
        Some("O\u{31B}\u{309}")
    } else if cp == 0x1EDF {
        Some("o\u{31B}\u{309}")
    } else if cp == 0x1EE0 {
        Some("O\u{31B}\u{303}")
    } else if cp == 0x1EE1 {
        Some("o\u{31B}\u{303}")
    } else if cp == 0x1EE2 {
        Some("O\u{31B}\u{323}")
    } else if cp == 0x1EE3 {
        Some("o\u{31B}\u{323}")
    } else if cp == 0x1EE4 {
        Some("U\u{323}")
    } else if cp == 0x1EE5 {
        Some("u\u{323}")
    } else {
        None
    }
}

fn canonical_decomposition_of_9(cp: u32) -> (r: Option<&'static str>)
    ensures
        r == canonical_decomposition_9(cp),
{
    if cp == 0x1EA6 {
        Some("A\u{302}\u{300}")
    } else if cp == 0x1EA7 {
        Some("a\u{302}\u{300}")
    } else if cp == 0x1EA8 {
        Some("A\u{302}\u{309}")
    } else if cp == 0x1EA9 {
        Some("a\u{302}\u{309}")
    } else if cp == 0x1EAA {
        Some("A\u{302}\u{303}")
    } else if cp == 0x1EAB {
        Some("a\u{302}\u{303}")
    } else if cp == 0x1EAC {
        Some("A\u{323}\u{302}")
    } else if cp == 0x1EAD {
        Some("a\u{323}\u{302}")
    } else if cp == 0x1EAE {
        Some("A\u{306}\u{301}")
    } else if cp == 0x1EAF {
        Some("a\u{306}\u{301}")
    } else if cp == 0x1EB0 {
        Some("A\u{306}\u{300}")
    } else if cp == 0x1EB1 {
        Some("a\u{306}\u{300}")
    } else if cp == 0x1EB2 {
        Some("A\u{306}\u{309}")
    } else if cp == 0x1EB3 {
        Some("a\u{306}\u{309}")
    } else if cp == 0x1EB4 {
        Some("A\u{306}\u{303}")
    } else if cp == 0x1EB5 {
        Some("a\u{306}\u{303}")
    } else if cp == 0x1EB6 {
        Some("A\u{323}\u{306}")
    } else if cp == 0x1EB7 {
        Some("a\u{323}\u{306}")
    } else if cp == 0x1EB8 {
        Some("E\u{323}")
    } else if cp == 0x1EB9 {
        Some("e\u{323}")
    } else if cp == 0x1EBA {
        Some("E\u{309}")
    } else if cp == 0x1EBB {
        Some("e\u{309}")
    } else if cp == 0x1EBC {
        Some("E\u{303}")
    } else if cp == 0x1EBD {
        Some("e\u{303}")
    } else if cp == 0x1EBE {
        Some("E\u{302}\u{301}")
    } else if cp == 0x1EBF {
        Some("e\u{302}\u{301}")
    } else if cp == 0x1EC0 {
        Some("E\u{302}\u{300}")
    } else if cp == 0x1EC1 {
        Some("e\u{302}\u{300}")
    } else if cp == 0x1EC2 {
        Some("E\u{302}\u{309}")
    } else if cp == 0x1EC3 {
        Some("e\u{302}\u{309}")
    } else if cp == 0x1EC4 {
        Some("E\u{302}\u{303}")
    } else if cp == 0x1EC5 {
        Some("e\u{302}\u{303}")
    } else if cp == 0x1EC6 {
        Some("E\u{323}\u{302}")
    } else if cp == 0x1EC7 {
        Some("e\u{323}\u{302}")
    } else if cp == 0x1EC8 {
        Some("I\u{309}")
    } else if cp == 0x1EC9 {
        Some("i\u{309}")
    } else if cp == 0x1ECA {
        Some("I\u{323}")
    } else if cp == 0x1ECB {
        Some("i\u{323}")
    } else if cp == 0x1ECC {
        Some("O\u{323}")
    } else if cp == 0x1ECD {
        Some("o\u{323}")
    } else if cp == 0x1ECE {
        Some("O\u{309}")
    } else if cp == 0x1ECF {
        Some("o\u{309}")
    } else if cp == 0x1ED0 {
        Some("O\u{302}\u{301}")
    } else if cp == 0x1ED1 {
        Some("o\u{302}\u{301}")
    } else if cp == 0x1ED2 {
        Some("O\u{302}\u{300}")
    } else if cp == 0x1ED3 {
        Some("o\u{302}\u{300}")
    } else if cp == 0x1ED4 {
        Some("O\u{302}\u{309}")
    } else if cp == 0x1ED5 {
        Some("o\u{302}\u{309}")
    } else if cp == 0x1ED6 {
        Some("O\u{302}\u{303}")
    } else if cp == 0x1ED7 {
        Some("o\u{302}\u{303}")
    } else if cp == 0x1ED8 {
        Some("O\u{323}\u{302}")
    } else if cp == 0x1ED9 {
        Some("o\u{323}\u{302}")
    } else if cp == 0x1EDA {
        Some("O\u{31B}\u{301}")
    } else if cp == 0x1EDB {
        Some("o\u{31B}\u{301}")
    } else if cp == 0x1EDC {
        Some("O\u{31B}\u{300}")
    } else if cp == 0x1EDD {
        Some("o\u{31B}\u{300}")
    } else if cp == 0x1EDE {
        Some("O\u{31B}\u{309}")
    } else if cp == 0x1EDF {
        Some("o\u{31B}\u{309}")
    } else if cp == 0x1EE0 {
        Some("O\u{31B}\u{303}")
    } else if cp == 0x1EE1 {
        Some("o\u{31B}\u{303}")
    } else if cp == 0x1EE2 {
        Some("O\u{31B}\u{323}")
    } else if cp == 0x1EE3 {
        Some("o\u{31B}\u{323}")
    } else if cp == 0x1EE4 {
        Some("U\u{323}")
    } else if cp == 0x1EE5 {
        Some("u\u{323}")
    } else {
        None
    }
}

/// One part of the table [`canonical_decomposition`], by code point.
pub open spec fn canonical_decomposition_10(cp: u32) -> Option<&'static str> {
    if cp == 0x1EE6 {
        Some("U\u{309}")
    } else if cp == 0x1EE7 {
        Some("u\u{309}")
    } else if cp == 0x1EE8 {
        Some("U\u{31B}\u{301}")
    } else if cp == 0x1EE9 {
        Some("u\u{31B}\u{301}")
    } else if cp == 0x1EEA {
        Some("U\u{31B}\u{300}")
    } else if cp == 0x1EEB {
        Some("u\u{31B}\u{300}")
    } else if cp == 0x1EEC {
        Some("U\u{31B}\u{309}")
    } else if cp == 0x1EED {
        Some("u\u{31B}\u{309}")
    } else if cp == 0x1EEE {
        Some("U\u{31B}\u{303}")
    } else if cp == 0x1EEF {
        Some("u\u{31B}\u{303}")
    } else if cp == 0x1EF0 {
        Some("U\u{31B}\u{323}")
    } else if cp == 0x1EF1 {
        Some("u\u{31B}\u{323}")
    } else if cp == 0x1EF2 {
        Some("Y\u{300}")
    } else if cp == 0x1EF3 {
        Some("y\u{300}")
    } else if cp == 0x1EF4 {
        Some("Y\u{323}")
    } else if cp == 0x1EF5 {
        Some("y\u{323}")
    } else if cp == 0x1EF6 {
        Some("Y\u{309}")
    } else if cp == 0x1EF7 {
        Some("y\u{309}")
    } else if cp == 0x1EF8 {
        Some("Y\u{303}")
    } else if cp == 0x1EF9 {
        Some("y\u{303}")
    } else if cp == 0x1F00 {
        Some("\u{3B1}\u{313}")
    } else if cp == 0x1F01 {
        Some("\u{3B1}\u{314}")
    } else if cp == 0x1F02 {
        Some("\u{3B1}\u{313}\u{300}")
    } else if cp == 0x1F03 {
        Some("\u{3B1}\u{314}\u{300}")
    } else if cp == 0x1F04 {
        Some("\u{3B1}\u{313}\u{301}")
    } else if cp == 0x1F05 {
        Some("\u{3B1}\u{314}\u{301}")
    } else if cp == 0x1F06 {
        Some("\u{3B1}\u{313}\u{342}")
    } else if cp == 0x1F07 {
        Some("\u{3B1}\u{314}\u{342}")
    } else if cp == 0x1F08 {
        Some("\u{391}\u{313}")
    } else if cp == 0x1F09 {
        Some("\u{391}\u{314}")
    } else if cp == 0x1F0A {
        Some("\u{391}\u{313}\u{300}")
    } else if cp == 0x1F0B {
        Some("\u{391}\u{314}\u{300}")
    } else if cp == 0x1F0C {
        Some("\u{391}\u{313}\u{301}")
    } else if cp == 0x1F0D {
        Some("\u{391}\u{314}\u{301}")
    } else if cp == 0x1F0E {
        Some("\u{391}\u{313}\u{342}")
    } else if cp == 0x1F0F {
        Some("\u{391}\u{314}\u{342}")
    } else if cp == 0x1F10 {
        Some("\u{3B5}\u{313}")
    } else if cp == 0x1F11 {
        Some("\u{3B5}\u{314}")
    } else if cp == 0x1F12 {
        Some("\u{3B5}\u{313}\u{300}")
    } else if cp == 0x1F13 {
        Some("\u{3B5}\u{314}\u{300}")
    } else if cp == 0x1F14 {
        Some("\u{3B5}\u{313}\u{301}")
    } else if cp == 0x1F15 {
        Some("\u{3B5}\u{314}\u{301}")
    } else if cp == 0x1F18 {
        Some("\u{395}\u{313}")
    } else if cp == 0x1F19 {
        Some("\u{395}\u{314}")
    } else if cp == 0x1F1A {
        Some("\u{395}\u{313}\u{300}")
    } else if cp == 0x1F1B {
        Some("\u{395}\u{314}\u{300}")
    } else if cp == 0x1F1C {
        Some("\u{395}\u{313}\u{301}")
    } else if cp == 0x1F1D {
        Some("\u{395}\u{314}\u{301}")
    } else if cp == 0x1F20 {
        Some("\u{3B7}\u{313}")
    } else if cp == 0x1F21 {
        Some("\u{3B7}\u{314}")
    } else if cp == 0x1F22 {
        Some("\u{3B7}\u{313}\u{300}")
    } else if cp == 0x1F23 {
        Some("\u{3B7}\u{314}\u{300}")
    } else if cp == 0x1F24 {
        Some("\u{3B7}\u{313}\u{301}")
    } else if cp == 0x1F25 {
        Some("\u{3B7}\u{314}\u{301}")
    } else if cp == 0x1F26 {
        Some("\u{3B7}\u{313}\u{342}")
    } else if cp == 0x1F27 {
        Some("\u{3B7}\u{314}\u{342}")
    } else if cp == 0x1F28 {
        Some("\u{397}\u{313}")
    } else if cp == 0x1F29 {
        Some("\u{397}\u{314}")
    } else if cp == 0x1F2A {
        Some("\u{397}\u{313}\u{300}")
    } else if cp == 0x1F2B {
        Some("\u{397}\u{314}\u{300}")
    } else if cp == 0x1F2C {
        Some("\u{397}\u{313}\u{301}")
    } else if cp == 0x1F2D {
        Some("\u{397}\u{314}\u{301}")
    } else if cp == 0x1F2E {
        Some("\u{397}\u{313}\u{342}")
    } else if cp == 0x1F2F {
        Some("\u{397}\u{314}\u{342}")
    } else {
        None
    }
}

fn canonical_decomposition_of_10(cp: u32) -> (r: Option<&'static str>)
    ensures
        r == canonical_decomposition_10(cp),
{
    if cp == 0x1EE6 {
        Some("U\u{309}")
    } else if cp == 0x1EE7 {
        Some("u\u{309}")
    } else if cp == 0x1EE8 {
        Some("U\u{31B}\u{301}")
    } else if cp == 0x1EE9 {
        Some("u\u{31B}\u{301}")
    } else if cp == 0x1EEA {
        Some("U\u{31B}\u{300}")
    } else if cp == 0x1EEB {
        Some("u\u{31B}\u{300}")
    } else if cp == 0x1EEC {
        Some("U\u{31B}\u{309}")
    } else if cp == 0x1EED {
        Some("u\u{31B}\u{309}")
    } else if cp == 0x1EEE {
        Some("U\u{31B}\u{303}")
    } else if cp == 0x1EEF {
        Some("u\u{31B}\u{303}")
    } else if cp == 0x1EF0 {
        Some("U\u{31B}\u{323}")
    } else if cp == 0x1EF1 {
        Some("u\u{31B}\u{323}")
    } else if cp == 0x1EF2 {
        Some("Y\u{300}")
    } else if cp == 0x1EF3 {
        Some("y\u{300}")
    } else if cp == 0x1EF4 {
        Some("Y\u{323}")
    } else if cp == 0x1EF5 {
        Some("y\u{323}")
    } else if cp == 0x1EF6 {
        Some("Y\u{309}")
    } else if cp == 0x1EF7 {
        Some("y\u{309}")
    } else if cp == 0x1EF8 {
        Some("Y\u{303}")
    } else if cp == 0x1EF9 {
        Some("y\u{303}")
    } else if cp == 0x1F00 {
        Some("\u{3B1}\u{313}")
    } else if cp == 0x1F01 {
        Some("\u{3B1}\u{314}")
    } else if cp == 0x1F02 {
        Some("\u{3B1}\u{313}\u{300}")
    } else if cp == 0x1F03 {
        Some("\u{3B1}\u{314}\u{300}")
    } else if cp == 0x1F04 {
        Some("\u{3B1}\u{313}\u{301}")
    } else if cp == 0x1F05 {
        Some("\u{3B1}\u{314}\u{301}")
    } else if cp == 0x1F06 {
        Some("\u{3B1}\u{313}\u{342}")
    } else if cp == 0x1F07 {
        Some("\u{3B1}\u{314}\u{342}")
    } else if cp == 0x1F08 {
        Some("\u{391}\u{313}")
    } else if cp == 0x1F09 {
        Some("\u{391}\u{314}")
    } else if cp == 0x1F0A {
        Some("\u{391}\u{313}\u{300}")
    } else if cp == 0x1F0B {
        Some("\u{391}\u{314}\u{300}")
    } else if cp == 0x1F0C {
        Some("\u{391}\u{313}\u{301}")
    } else if cp == 0x1F0D {
        Some("\u{391}\u{314}\u{301}")
    } else if cp == 0x1F0E {
        Some("\u{391}\u{313}\u{342}")
    } else if cp == 0x1F0F {
        Some("\u{391}\u{314}\u{342}")
    } else if cp == 0x1F10 {
        Some("\u{3B5}\u{313}")
    } else if cp == 0x1F11 {
        Some("\u{3B5}\u{314}")
    } else if cp == 0x1F12 {
        Some("\u{3B5}\u{313}\u{300}")
    } else if cp == 0x1F13 {
        Some("\u{3B5}\u{314}\u{300}")
    } else if cp == 0x1F14 {
        Some("\u{3B5}\u{313}\u{301}")
    } else if cp == 0x1F15 {
        Some("\u{3B5}\u{314}\u{301}")
    } else if cp == 0x1F18 {
        Some("\u{395}\u{313}")
    } else if cp == 0x1F19 {
        Some("\u{395}\u{314}")
    } else if cp == 0x1F1A {
        Some("\u{395}\u{313}\u{300}")
    } else if cp == 0x1F1B {
        Some("\u{395}\u{314}\u{300}")
    } else if cp == 0x1F1C {
        Some("\u{395}\u{313}\u{301}")
    } else if cp == 0x1F1D {
        Some("\u{395}\u{314}\u{301}")
    } else if cp == 0x1F20 {
        Some("\u{3B7}\u{313}")
    } else if cp == 0x1F21 {
        Some("\u{3B7}\u{314}")
    } else if cp == 0x1F22 {
        Some("\u{3B7}\u{313}\u{300}")
    } else if cp == 0x1F23 {
        Some("\u{3B7}\u{314}\u{300}")
    } else if cp == 0x1F24 {
        Some("\u{3B7}\u{313}\u{301}")
    } else if cp == 0x1F25 {
        Some("\u{3B7}\u{314}\u{301}")
    } else if cp == 0x1F26 {
        Some("\u{3B7}\u{313}\u{342}")
    } else if cp == 0x1F27 {
        Some("\u{3B7}\u{314}\u{342}")
    } else if cp == 0x1F28 {
        Some("\u{397}\u{313}")
    } else if cp == 0x1F29 {
        Some("\u{397}\u{314}")
    } else if cp == 0x1F2A {
        Some("\u{397}\u{313}\u{300}")
    } else if cp == 0x1F2B {
        Some("\u{397}\u{314}\u{300}")
    } else if cp == 0x1F2C {
        Some("\u{397}\u{313}\u{301}")
    } else if cp == 0x1F2D {
        Some("\u{397}\u{314}\u{301}")
    } else if cp == 0x1F2E {
        Some("\u{397}\u{313}\u{342}")
    } else if cp == 0x1F2F {
        Some("\u{397}\u{314}\u{342}")
    } else {
        None
    }
}

/// One part of the table [`canonical_decomposition`], by code point.
pub open spec fn canonical_decomposition_11(cp: u32) -> Option<&'static str> {
    if cp == 0x1F30 {
        Some("\u{3B9}\u{313}")
    } else if cp == 0x1F31 {
        Some("\u{3B9}\u{314}")
    } else if cp == 0x1F32 {
        Some("\u{3B9}\u{313}\u{300}")
    } else if cp == 0x1F33 {
        Some("\u{3B9}\u{314}\u{300}")
    } else if cp == 0x1F34 {
        Some("\u{3B9}\u{313}\u{301}")
    } else if cp == 0x1F35 {
        Some("\u{3B9}\u{314}\u{301}")
    } else if cp == 0x1F36 {
        Some("\u{3B9}\u{313}\u{342}")
    } else if cp == 0x1F37 {
        Some("\u{3B9}\u{314}\u{342}")
    } else if cp == 0x1F38 {
        Some("\u{399}\u{313}")
    } else if cp == 0x1F39 {
        Some("\u{399}\u{314}")
    } else if cp == 0x1F3A {
        Some("\u{399}\u{313}\u{300}")
    } else if cp == 0x1F3B {
        Some("\u{399}\u{314}\u{300}")
    } else if cp == 0x1F3C {
        Some("\u{399}\u{313}\u{301}")
    } else if cp == 0x1F3D {
        Some("\u{399}\u{314}\u{301}")
    } else if cp == 0x1F3E {
        Some("\u{399}\u{313}\u{342}")
    } else if cp == 0x1F3F {
        Some("\u{399}\u{314}\u{342}")
    } else if cp == 0x1F40 {
        Some("\u{3BF}\u{313}")
    } else if cp == 0x1F41 {
        Some("\u{3BF}\u{314}")
    } else if cp == 0x1F42 {
        Some("\u{3BF}\u{313}\u{300}")
    } else if cp == 0x1F43 {
        Some("\u{3BF}\u{314}\u{300}")
    } else if cp == 0x1F44 {
        Some("\u{3BF}\u{313}\u{301}")
    } else if cp == 0x1F45 {
        Some("\u{3BF}\u{314}\u{301}")
    } else if cp == 0x1F48 {
        Some("\u{39F}\u{313}")
    } else if cp == 0x1F49 {
        Some("\u{39F}\u{314}")
    } else if cp == 0x1F4A {
        Some("\u{39F}\u{313}\u{300}")
    } else if cp == 0x1F4B {
        Some("\u{39F}\u{314}\u{300}")
    } else if cp == 0x1F4C {
        Some("\u{39F}\u{313}\u{301}")
    } else if cp == 0x1F4D {
        Some("\u{39F}\u{314}\u{301}")
    } else if cp == 0x1F50 {
        Some("\u{3C5}\u{313}")
    } else if cp == 0x1F51 {
        Some("\u{3C5}\u{314}")
    } else if cp == 0x1F52 {
        Some("\u{3C5}\u{313}\u{300}")
    } else if cp == 0x1F53 {
        Some("\u{3C5}\u{314}\u{300}")
    } else if cp == 0x1F54 {
        Some("\u{3C5}\u{313}\u{301}")
    } else if cp == 0x1F55 {
        Some("\u{3C5}\u{314}\u{301}")
    } else if cp == 0x1F56 {
        Some("\u{3C5}\u{313}\u{342}")
    } else if cp == 0x1F57 {
        Some("\u{3C5}\u{314}\u{342}")
    } else if cp == 0x1F59 {
        Some("\u{3A5}\u{314}")
    } else if cp == 0x1F5B {
        Some("\u{3A5}\u{314}\u{300}")
    } else if cp == 0x1F5D {
        Some("\u{3A5}\u{314}\u{301}")
    } else if cp == 0x1F5F {
        Some("\u{3A5}\u{314}\u{342}")
    } else if cp == 0x1F60 {
        Some("\u{3C9}\u{313}")
    } else if cp == 0x1F61 {
        Some("\u{3C9}\u{314}")
    } else if cp == 0x1F62 {
        Some("\u{3C9}\u{313}\u{300}")
    } else if cp == 0x1F63 {
        Some("\u{3C9}\u{314}\u{300}")
    } else if cp == 0x1F64 {
        Some("\u{3C9}\u{313}\u{301}")
    } else if cp == 0x1F65 {
        Some("\u{3C9}\u{314}\u{301}")
    } else if cp == 0x1F66 {
        Some("\u{3C9}\u{313}\u{342}")
    } else if cp == 0x1F67 {
        Some("\u{3C9}\u{314}\u{342}")
    } else if cp == 0x1F68 {
        Some("\u{3A9}\u{313}")
    } else if cp == 0x1F69 {
        Some("\u{3A9}\u{314}")
    } else if cp == 0x1F6A {
        Some("\u{3A9}\u{313}\u{300}")
    } else if cp == 0x1F6B {
        Some("\u{3A9}\u{314}\u{300}")
    } else if cp == 0x1F6C {
        Some("\u{3A9}\u{313}\u{301}")
    } else if cp == 0x1F6D {
        Some("\u{3A9}\u{314}\u{301}")
    } else if cp == 0x1F6E {
        Some("\u{3A9}\u{313}\u{342}")
    } else if cp == 0x1F6F {
        Some("\u{3A9}\u{314}\u{342}")
    } else if cp == 0x1F70 {
        Some("\u{3B1}\u{300}")
    } else if cp == 0x1F71 {
        Some("\u{3B1}\u{301}")
    } else if cp == 0x1F72 {
        Some("\u{3B5}\u{300}")
    } else if cp == 0x1F73 {
        Some("\u{3B5}\u{301}")
    } else if cp == 0x1F74 {
        Some("\u{3B7}\u{300}")
    } else if cp == 0x1F75 {
        Some("\u{3B7}\u{301}")
    } else if cp == 0x1F76 {
        Some("\u{3B9}\u{300}")
    } else if cp == 0x1F77 {
        Some("\u{3B9}\u{301}")
    } else {
        None
    }
}

fn canonical_decomposition_of_11(cp: u32) -> (r: Option<&'static str>)
    ensures
        r == canonical_decomposition_11(cp),
{
    if cp == 0x1F30 {
        Some("\u{3B9}\u{313}")
    } else if cp == 0x1F31 {
        Some("\u{3B9}\u{314}")
    } else if cp == 0x1F32 {
        Some("\u{3B9}\u{313}\u{300}")
    } else if cp == 0x1F33 {
        Some("\u{3B9}\u{314}\u{300}")
    } else if cp == 0x1F34 {
        Some("\u{3B9}\u{313}\u{301}")
    } else if cp == 0x1F35 {
        Some("\u{3B9}\u{314}\u{301}")
    } else if cp == 0x1F36 {
        Some("\u{3B9}\u{313}\u{342}")
    } else if cp == 0x1F37 {
        Some("\u{3B9}\u{314}\u{342}")
    } else if cp == 0x1F38 {
        Some("\u{399}\u{313}")
    } else if cp == 0x1F39 {
        Some("\u{399}\u{314}")
    } else if cp == 0x1F3A {
        Some("\u{399}\u{313}\u{300}")
    } else if cp == 0x1F3B {
        Some("\u{399}\u{314}\u{300}")
    } else if cp == 0x1F3C {
        Some("\u{399}\u{313}\u{301}")
    } else if cp == 0x1F3D {
        Some("\u{399}\u{314}\u{301}")
    } else if cp == 0x1F3E {
        Some("\u{399}\u{313}\u{342}")
    } else if cp == 0x1F3F {
        Some("\u{399}\u{314}\u{342}")
    } else if cp == 0x1F40 {
        Some("\u{3BF}\u{313}")
    } else if cp == 0x1F41 {
        Some("\u{3BF}\u{314}")
    } else if cp == 0x1F42 {
        Some("\u{3BF}\u{313}\u{300}")
    } else if cp == 0x1F43 {
        Some("\u{3BF}\u{314}\u{300}")
    } else if cp == 0x1F44 {
        Some("\u{3BF}\u{313}\u{301}")
    } else if cp == 0x1F45 {
        Some("\u{3BF}\u{314}\u{301}")
    } else if cp == 0x1F48 {
        Some("\u{39F}\u{313}")
    } else if cp == 0x1F49 {
        Some("\u{39F}\u{314}")
    } else if cp == 0x1F4A {
        Some("\u{39F}\u{313}\u{300}")
    } else if cp == 0x1F4B {
        Some("\u{39F}\u{314}\u{300}")
    } else if cp == 0x1F4C {
        Some("\u{39F}\u{313}\u{301}")
    } else if cp == 0x1F4D {
        Some("\u{39F}\u{314}\u{301}")
    } else if cp == 0x1F50 {
        Some("\u{3C5}\u{313}")
    } else if cp == 0x1F51 {
        Some("\u{3C5}\u{314}")
    } else if cp == 0x1F52 {
        Some("\u{3C5}\u{313}\u{300}")
    } else if cp == 0x1F53 {
        Some("\u{3C5}\u{314}\u{300}")
    } else if cp == 0x1F54 {
        Some("\u{3C5}\u{313}\u{301}")
    } else if cp == 0x1F55 {
        Some("\u{3C5}\u{314}\u{301}")
    } else if cp == 0x1F56 {
        Some("\u{3C5}\u{313}\u{342}")
    } else if cp == 0x1F57 {
        Some("\u{3C5}\u{314}\u{342}")
    } else if cp == 0x1F59 {
        Some("\u{3A5}\u{314}")
    } else if cp == 0x1F5B {
        Some("\u{3A5}\u{314}\u{300}")
    } else if cp == 0x1F5D {
        Some("\u{3A5}\u{314}\u{301}")
    } else if cp == 0x1F5F {
        Some("\u{3A5}\u{314}\u{342}")
    } else if cp == 0x1F60 {
        Some("\u{3C9}\u{313}")
    } else if cp == 0x1F61 {
        Some("\u{3C9}\u{314}")
    } else if cp == 0x1F62 {
        Some("\u{3C9}\u{313}\u{300}")
    } else if cp == 0x1F63 {
        Some("\u{3C9}\u{314}\u{300}")
    } else if cp == 0x1F64 {
        Some("\u{3C9}\u{313}\u{301}")
    } else if cp == 0x1F65 {
        Some("\u{3C9}\u{314}\u{301}")
    } else if cp == 0x1F66 {
        Some("\u{3C9}\u{313}\u{342}")
    } else if cp == 0x1F67 {
        Some("\u{3C9}\u{314}\u{342}")
    } else if cp == 0x1F68 {
        Some("\u{3A9}\u{313}")
    } else if cp == 0x1F69 {
        Some("\u{3A9}\u{314}")
    } else if cp == 0x1F6A {
        Some("\u{3A9}\u{313}\u{300}")
    } else if cp == 0x1F6B {
        Some("\u{3A9}\u{314}\u{300}")
    } else if cp == 0x1F6C {
        Some("\u{3A9}\u{313}\u{301}")
    } else if cp == 0x1F6D {
        Some("\u{3A9}\u{314}\u{301}")
    } else if cp == 0x1F6E {
        Some("\u{3A9}\u{313}\u{342}")
    } else if cp == 0x1F6F {
        Some("\u{3A9}\u{314}\u{342}")
    } else if cp == 0x1F70 {
        Some("\u{3B1}\u{300}")
    } else if cp == 0x1F71 {
        Some("\u{3B1}\u{301}")
    } else if cp == 0x1F72 {
        Some("\u{3B5}\u{300}")
    } else if cp == 0x1F73 {
        Some("\u{3B5}\u{301}")
    } else if cp == 0x1F74 {
        Some("\u{3B7}\u{300}")
    } else if cp == 0x1F75 {
        Some("\u{3B7}\u{301}")
    } else if cp == 0x1F76 {
        Some("\u{3B9}\u{300}")
    } else if cp == 0x1F77 {
        Some("\u{3B9}\u{301}")
    } else {
        None
    }
}

/// One part of the table [`canonical_decomposition`], by code point.
pub open spec fn canonical_decomposition_12(cp: u32) -> Option<&'static str> {
    if cp == 0x1F78 {
        Some("\u{3BF}\u{300}")
    } else if cp == 0x1F79 {
        Some("\u{3BF}\u{301}")
    } else if cp == 0x1F7A {
        Some("\u{3C5}\u{300}")
    } else if cp == 0x1F7B {
        Some("\u{3C5}\u{301}")
    } else if cp == 0x1F7C {
        Some("\u{3C9}\u{300}")
    } else if cp == 0x1F7D {
        Some("\u{3C9}\u{301}")
    } else if cp == 0x1F80 {
        Some("\u{3B1}\u{313}\u{345}")
    } else if cp == 0x1F81 {
        Some("\u{3B1}\u{314}\u{345}")
    } else if cp == 0x1F82 {
        Some("\u{3B1}\u{313}\u{300}\u{345}")
    } else if cp == 0x1F83 {
        Some("\u{3B1}\u{314}\u{300}\u{345}")
    } else if cp == 0x1F84 {
        Some("\u{3B1}\u{313}\u{301}\u{345}")
    } else if cp == 0x1F85 {
        Some("\u{3B1}\u{314}\u{301}\u{345}")
    } else if cp == 0x1F86 {
        Some("\u{3B1}\u{313}\u{342}\u{345}")
    } else if cp == 0x1F87 {
        Some("\u{3B1}\u{314}\u{342}\u{345}")
    } else if cp == 0x1F88 {
        Some("\u{391}\u{313}\u{345}")
    } else if cp == 0x1F89 {
        Some("\u{391}\u{314}\u{345}")
    } else if cp == 0x1F8A {
        Some("\u{391}\u{313}\u{300}\u{345}")
    } else if cp == 0x1F8B {
        Some("\u{391}\u{314}\u{300}\u{345}")
    } else if cp == 0x1F8C {
        Some("\u{391}\u{313}\u{301}\u{345}")
    } else if cp == 0x1F8D {
        Some("\u{391}\u{314}\u{301}\u{345}")
    } else if cp == 0x1F8E {
        Some("\u{391}\u{313}\u{342}\u{345}")
    } else if cp == 0x1F8F {
        Some("\u{391}\u{314}\u{342}\u{345}")
    } else if cp == 0x1F90 {
        Some("\u{3B7}\u{313}\u{345}")
    } else if cp == 0x1F91 {
        Some("\u{3B7}\u{314}\u{345}")
    } else if cp == 0x1F92 {
        Some("\u{3B7}\u{313}\u{300}\u{345}")
    } else if cp == 0x1F93 {
        Some("\u{3B7}\u{314}\u{300}\u{345}")
    } else if cp == 0x1F94 {
        Some("\u{3B7}\u{313}\u{301}\u{345}")
    } else if cp == 0x1F95 {
        Some("\u{3B7}\u{314}\u{301}\u{345}")
    } else if cp == 0x1F96 {
        Some("\u{3B7}\u{313}\u{342}\u{345}")
    } else if cp == 0x1F97 {
        Some("\u{3B7}\u{314}\u{342}\u{345}")
    } else if cp == 0x1F98 {
        Some("\u{397}\u{313}\u{345}")
    } else if cp == 0x1F99 {
        Some("\u{397}\u{314}\u{345}")
    } else if cp == 0x1F9A {
        Some("\u{397}\u{313}\u{300}\u{345}")
    } else if cp == 0x1F9B {
        Some("\u{397}\u{314}\u{300}\u{345}")
    } else if cp == 0x1F9C {
        Some("\u{397}\u{313}\u{301}\u{345}")
    } else if cp == 0x1F9D {
        Some("\u{397}\u{314}\u{301}\u{345}")
    } else if cp == 0x1F9E {
        Some("\u{397}\u{313}\u{342}\u{345}")
    } else if cp == 0x1F9F {
        Some("\u{397}\u{314}\u{342}\u{345}")
    } else if cp == 0x1FA0 {
        Some("\u{3C9}\u{313}\u{345}")
    } else if cp == 0x1FA1 {
        Some("\u{3C9}\u{314}\u{345}")
    } else if cp == 0x1FA2 {
        Some("\u{3C9}\u{313}\u{300}\u{345}")
    } else if cp == 0x1FA3 {
        Some("\u{3C9}\u{314}\u{300}\u{345}")
    } else if cp == 0x1FA4 {
        Some("\u{3C9}\u{313}\u{301}\u{345}")
    } else if cp == 0x1FA5 {
        Some("\u{3C9}\u{314}\u{301}\u{345}")
    } else if cp == 0x1FA6 {
        Some("\u{3C9}\u{313}\u{342}\u{345}")
    } else if cp == 0x1FA7 {
        Some("\u{3C9}\u{314}\u{342}\u{345}")
    } else if cp == 0x1FA8 {
        Some("\u{3A9}\u{313}\u{345}")
    } else if cp == 0x1FA9 {
        Some("\u{3A9}\u{314}\u{345}")
    } else if cp == 0x1FAA {
        Some("\u{3A9}\u{313}\u{300}\u{345}")
    } else if cp == 0x1FAB {
        Some("\u{3A9}\u{314}\u{300}\u{345}")
    } else if cp == 0x1FAC {
        Some("\u{3A9}\u{313}\u{301}\u{345}")
    } else if cp == 0x1FAD {
        Some("\u{3A9}\u{314}\u{301}\u{345}")
    } else if cp == 0x1FAE {
        Some("\u{3A9}\u{313}\u{342}\u{345}")
    } else if cp == 0x1FAF {
        Some("\u{3A9}\u{314}\u{342}\u{345}")
    } else if cp == 0x1FB0 {
        Some("\u{3B1}\u{306}")
    } else if cp == 0x1FB1 {
        Some("\u{3B1}\u{304}")
    } else if cp == 0x1FB2 {
        Some("\u{3B1}\u{300}\u{345}")
    } else if cp == 0x1FB3 {
        Some("\u{3B1}\u{345}")
    } else if cp == 0x1FB4 {
        Some("\u{3B1}\u{301}\u{345}")
    } else if cp == 0x1FB6 {
        Some("\u{3B1}\u{342}")
    } else if cp == 0x1FB7 {
        Some("\u{3B1}\u{342}\u{345}")
    } else if cp == 0x1FB8 {
        Some("\u{391}\u{306}")
    } else if cp == 0x1FB9 {
        Some("\u{391}\u{304}")
    } else if cp == 0x1FBA {
        Some("\u{391}\u{300}")
    } else {
        None
    }
}

fn canonical_decomposition_of_12(cp: u32) -> (r: Option<&'static str>)
    ensures
        r == canonical_decomposition_12(cp),
{
    if cp == 0x1F78 {
        Some("\u{3BF}\u{300}")
    } else if cp == 0x1F79 {
        Some("\u{3BF}\u{301}")
    } else if cp == 0x1F7A {
        Some("\u{3C5}\u{300}")
    } else if cp == 0x1F7B {
        Some("\u{3C5}\u{301}")
    } else if cp == 0x1F7C {
        Some("\u{3C9}\u{300}")
    } else if cp == 0x1F7D {
        Some("\u{3C9}\u{301}")
    } else if cp == 0x1F80 {
        Some("\u{3B1}\u{313}\u{345}")
    } else if cp == 0x1F81 {
        Some("\u{3B1}\u{314}\u{345}")
    } else if cp == 0x1F82 {
        Some("\u{3B1}\u{313}\u{300}\u{345}")
    } else if cp == 0x1F83 {
        Some("\u{3B1}\u{314}\u{300}\u{345}")
    } else if cp == 0x1F84 {
        Some("\u{3B1}\u{313}\u{301}\u{345}")
    } else if cp == 0x1F85 {
        Some("\u{3B1}\u{314}\u{301}\u{345}")
    } else if cp == 0x1F86 {
        Some("\u{3B1}\u{313}\u{342}\u{345}")
    } else if cp == 0x1F87 {
        Some("\u{3B1}\u{314}\u{342}\u{345}")
    } else if cp == 0x1F88 {
        Some("\u{391}\u{313}\u{345}")
    } else if cp == 0x1F89 {
        Some("\u{391}\u{314}\u{345}")
    } else if cp == 0x1F8A {
        Some("\u{391}\u{313}\u{300}\u{345}")
    } else if cp == 0x1F8B {
        Some("\u{391}\u{314}\u{300}\u{345}")
    } else if cp == 0x1F8C {
        Some("\u{391}\u{313}\u{301}\u{345}")
    } else if cp == 0x1F8D {
        Some("\u{391}\u{314}\u{301}\u{345}")
    } else if cp == 0x1F8E {
        Some("\u{391}\u{313}\u{342}\u{345}")
    } else if cp == 0x1F8F {
        Some("\u{391}\u{314}\u{342}\u{345}")
    } else if cp == 0x1F90 {
        Some("\u{3B7}\u{313}\u{345}")
    } else if cp == 0x1F91 {
        Some("\u{3B7}\u{314}\u{345}")
    } else if cp == 0x1F92 {
        Some("\u{3B7}\u{313}\u{300}\u{345}")
    } else if cp == 0x1F93 {
        Some("\u{3B7}\u{314}\u{300}\u{345}")
    } else if cp == 0x1F94 {
        Some("\u{3B7}\u{313}\u{301}\u{345}")
    } else if cp == 0x1F95 {
        Some("\u{3B7}\u{314}\u{301}\u{345}")
    } else if cp == 0x1F96 {
        Some("\u{3B7}\u{313}\u{342}\u{345}")
    } else if cp == 0x1F97 {
        Some("\u{3B7}\u{314}\u{342}\u{345}")
    } else if cp == 0x1F98 {
        Some("\u{397}\u{313}\u{345}")
    } else if cp == 0x1F99 {
        Some("\u{397}\u{314}\u{345}")
    } else if cp == 0x1F9A {
        Some("\u{397}\u{313}\u{300}\u{345}")
    } else if cp == 0x1F9B {
        Some("\u{397}\u{314}\u{300}\u{345}")
    } else if cp == 0x1F9C {
        Some("\u{397}\u{313}\u{301}\u{345}")
    } else if cp == 0x1F9D {
        Some("\u{397}\u{314}\u{301}\u{345}")
    } else if cp == 0x1F9E {
        Some("\u{397}\u{313}\u{342}\u{345}")
    } else if cp == 0x1F9F {
        Some("\u{397}\u{314}\u{342}\u{345}")
    } else if cp == 0x1FA0 {
        Some("\u{3C9}\u{313}\u{345}")
    } else if cp == 0x1FA1 {
        Some("\u{3C9}\u{314}\u{345}")
    } else if cp == 0x1FA2 {
        Some("\u{3C9}\u{313}\u{300}\u{345}")
    } else if cp == 0x1FA3 {
        Some("\u{3C9}\u{314}\u{300}\u{345}")
    } else if cp == 0x1FA4 {
        Some("\u{3C9}\u{313}\u{301}\u{345}")
    } else if cp == 0x1FA5 {
        Some("\u{3C9}\u{314}\u{301}\u{345}")
    } else if cp == 0x1FA6 {
        Some("\u{3C9}\u{313}\u{342}\u{345}")
    } else if cp == 0x1FA7 {
        Some("\u{3C9}\u{314}\u{342}\u{345}")
    } else if cp == 0x1FA8 {
        Some("\u{3A9}\u{313}\u{345}")
    } else if cp == 0x1FA9 {
        Some("\u{3A9}\u{314}\u{345}")
    } else if cp == 0x1FAA {
        Some("\u{3A9}\u{313}\u{300}\u{345}")
    } else if cp == 0x1FAB {
        Some("\u{3A9}\u{314}\u{300}\u{345}")
    } else if cp == 0x1FAC {
        Some("\u{3A9}\u{313}\u{301}\u{345}")
    } else if cp == 0x1FAD {
        Some("\u{3A9}\u{314}\u{301}\u{345}")
    } else if cp == 0x1FAE {
        Some("\u{3A9}\u{313}\u{342}\u{345}")
    } else if cp == 0x1FAF {
        Some("\u{3A9}\u{314}\u{342}\u{345}")
    } else if cp == 0x1FB0 {
        Some("\u{3B1}\u{306}")
    } else if cp == 0x1FB1 {
        Some("\u{3B1}\u{304}")
    } else if cp == 0x1FB2 {
        Some("\u{3B1}\u{300}\u{345}")
    } else if cp == 0x1FB3 {
        Some("\u{3B1}\u{345}")
    } else if cp == 0x1FB4 {
        Some("\u{3B1}\u{301}\u{345}")
    } else if cp == 0x1FB6 {
        Some("\u{3B1}\u{342}")
    } else if cp == 0x1FB7 {
        Some("\u{3B1}\u{342}\u{345}")
    } else if cp == 0x1FB8 {
        Some("\u{391}\u{306}")
    } else if cp == 0x1FB9 {
        Some("\u{391}\u{304}")
    } else if cp == 0x1FBA {
        Some("\u{391}\u{300}")
    } else {
        None
    }
}

/// One part of the table [`canonical_decomposition`], by code point.
pub open spec fn canonical_decomposition_13(cp: u32) -> Option<&'static str> {
    if cp == 0x1FBB {
        Some("\u{391}\u{301}")
    } else if cp == 0x1FBC {
        Some("\u{391}\u{345}")
    } else if cp == 0x1FBE {
        Some("\u{3B9}")
    } else if cp == 0x1FC1 {
        Some("\u{A8}\u{342}")
    } else if cp == 0x1FC2 {
        Some("\u{3B7}\u{300}\u{345}")
    } else if cp == 0x1FC3 {
        Some("\u{3B7}\u{345}")
    } else if cp == 0x1FC4 {
        Some("\u{3B7}\u{301}\u{345}")
    } else if cp == 0x1FC6 {
        Some("\u{3B7}\u{342}")
    } else if cp == 0x1FC7 {
        Some("\u{3B7}\u{342}\u{345}")
    } else if cp == 0x1FC8 {
        Some("\u{395}\u{300}")
    } else if cp == 0x1FC9 {
        Some("\u{395}\u{301}")
    } else if cp == 0x1FCA {
        Some("\u{397}\u{300}")
    } else if cp == 0x1FCB {
        Some("\u{397}\u{301}")
    } else if cp == 0x1FCC {
        Some("\u{397}\u{345}")
    } else if cp == 0x1FCD {
        Some("\u{1FBF}\u{300}")
    } else if cp == 0x1FCE {
        Some("\u{1FBF}\u{301}")
    } else if cp == 0x1FCF {
        Some("\u{1FBF}\u{342}")
    } else if cp == 0x1FD0 {
        Some("\u{3B9}\u{306}")
    } else if cp == 0x1FD1 {
        Some("\u{3B9}\u{304}")
    } else if cp == 0x1FD2 {
        Some("\u{3B9}\u{308}\u{300}")
    } else if cp == 0x1FD3 {
        Some("\u{3B9}\u{308}\u{301}")
    } else if cp == 0x1FD6 {
        Some("\u{3B9}\u{342}")
    } else if cp == 0x1FD7 {
        Some("\u{3B9}\u{308}\u{342}")
    } else if cp == 0x1FD8 {
        Some("\u{399}\u{306}")
    } else if cp == 0x1FD9 {
        Some("\u{399}\u{304}")
    } else if cp == 0x1FDA {
        Some("\u{399}\u{300}")
    } else if cp == 0x1FDB {
        Some("\u{399}\u{301}")
    } else if cp == 0x1FDD {
        Some("\u{1FFE}\u{300}")
    } else if cp == 0x1FDE {
        Some("\u{1FFE}\u{301}")
    } else if cp == 0x1FDF {
        Some("\u{1FFE}\u{342}")
    } else if cp == 0x1FE0 {
        Some("\u{3C5}\u{306}")
    } else if cp == 0x1FE1 {
        Some("\u{3C5}\u{304}")
    } else if cp == 0x1FE2 {
        Some("\u{3C5}\u{308}\u{300}")
    } else if cp == 0x1FE3 {
        Some("\u{3C5}\u{308}\u{301}")
    } else if cp == 0x1FE4 {
        Some("\u{3C1}\u{313}")
    } else if cp == 0x1FE5 {
        Some("\u{3C1}\u{314}")
    } else if cp == 0x1FE6 {
        Some("\u{3C5}\u{342}")
    } else if cp == 0x1FE7 {
        Some("\u{3C5}\u{308}\u{342}")
    } else if cp == 0x1FE8 {
        Some("\u{3A5}\u{306}")
    } else if cp == 0x1FE9 {
        Some("\u{3A5}\u{304}")
    } else if cp == 0x1FEA {
        Some("\u{3A5}\u{300}")
    } else if cp == 0x1FEB {
        Some("\u{3A5}\u{301}")
    } else if cp == 0x1FEC {
        Some("\u{3A1}\u{314}")
    } else if cp == 0x1FED {
        Some("\u{A8}\u{300}")
    } else if cp == 0x1FEE {
        Some("\u{A8}\u{301}")
    } else if cp == 0x1FEF {
        Some("`")
    } else if cp == 0x1FF2 {
        Some("\u{3C9}\u{300}\u{345}")
    } else if cp == 0x1FF3 {
        Some("\u{3C9}\u{345}")
    } else if cp == 0x1FF4 {
        Some("\u{3C9}\u{301}\u{345}")
    } else if cp == 0x1FF6 {
        Some("\u{3C9}\u{342}")
    } else if cp == 0x1FF7 {
        Some("\u{3C9}\u{342}\u{345}")
    } else if cp == 0x1FF8 {
        Some("\u{39F}\u{300}")
    } else if cp == 0x1FF9 {
        Some("\u{39F}\u{301}")
    } else if cp == 0x1FFA {
        Some("\u{3A9}\u{300}")
    } else if cp == 0x1FFB {
        Some("\u{3A9}\u{301}")
    } else if cp == 0x1FFC {
        Some("\u{3A9}\u{345}")
    } else if cp == 0x1FFD {
        Some("\u{B4}")
    } else if cp == 0x2000 {
        Some("\u{2002}")
    } else if cp == 0x2001 {
        Some("\u{2003}")
    } else if cp == 0x2126 {
        Some("\u{3A9}")
    } else if cp == 0x212A {
        Some("K")
    } else if cp == 0x212B {
        Some("A\u{30A}")
    } else if cp == 0x219A {
        Some("\u{2190}\u{338}")
    } else if cp == 0x219B {
        Some("\u{2192}\u{338}")
    } else {
        None
    }
}

fn canonical_decomposition_of_13(cp: u32) -> (r: Option<&'static str>)
    ensures
        r == canonical_decomposition_13(cp),
{
    if cp == 0x1FBB {
        Some("\u{391}\u{301}")
    } else if cp == 0x1FBC {
        Some("\u{391}\u{345}")
    } else if cp == 0x1FBE {
        Some("\u{3B9}")
    } else if cp == 0x1FC1 {
        Some("\u{A8}\u{342}")
    } else if cp == 0x1FC2 {
        Some("\u{3B7}\u{300}\u{345}")
    } else if cp == 0x1FC3 {
        Some("\u{3B7}\u{345}")
    } else if cp == 0x1FC4 {
        Some("\u{3B7}\u{301}\u{345}")
    } else if cp == 0x1FC6 {
        Some("\u{3B7}\u{342}")
    } else if cp == 0x1FC7 {
        Some("\u{3B7}\u{342}\u{345}")
    } else if cp == 0x1FC8 {
        Some("\u{395}\u{300}")
    } else if cp == 0x1FC9 {
        Some("\u{395}\u{301}")
    } else if cp == 0x1FCA {
        Some("\u{397}\u{300}")
    } else if cp == 0x1FCB {
        Some("\u{397}\u{301}")
    } else if cp == 0x1FCC {
        Some("\u{397}\u{345}")
    } else if cp == 0x1FCD {
        Some("\u{1FBF}\u{300}")
    } else if cp == 0x1FCE {
        Some("\u{1FBF}\u{301}")
    } else if cp == 0x1FCF {
        Some("\u{1FBF}\u{342}")
    } else if cp == 0x1FD0 {
        Some("\u{3B9}\u{306}")
    } else if cp == 0x1FD1 {
        Some("\u{3B9}\u{304}")
    } else if cp == 0x1FD2 {
        Some("\u{3B9}\u{308}\u{300}")
    } else if cp == 0x1FD3 {
        Some("\u{3B9}\u{308}\u{301}")
    } else if cp == 0x1FD6 {
        Some("\u{3B9}\u{342}")
    } else if cp == 0x1FD7 {
        Some("\u{3B9}\u{308}\u{342}")
    } else if cp == 0x1FD8 {
        Some("\u{399}\u{306}")
    } else if cp == 0x1FD9 {
        Some("\u{399}\u{304}")
    } else if cp == 0x1FDA {
        Some("\u{399}\u{300}")
    } else if cp == 0x1FDB {
        Some("\u{399}\u{301}")
    } else if cp == 0x1FDD {
        Some("\u{1FFE}\u{300}")
    } else if cp == 0x1FDE {
        Some("\u{1FFE}\u{301}")
    } else if cp == 0x1FDF {
        Some("\u{1FFE}\u{342}")
    } else if cp == 0x1FE0 {
        Some("\u{3C5}\u{306}")
    } else if cp == 0x1FE1 {
        Some("\u{3C5}\u{304}")
    } else if cp == 0x1FE2 {
        Some("\u{3C5}\u{308}\u{300}")
    } else if cp == 0x1FE3 {
        Some("\u{3C5}\u{308}\u{301}")
    } else if cp == 0x1FE4 {
        Some("\u{3C1}\u{313}")
    } else if cp == 0x1FE5 {
        Some("\u{3C1}\u{314}")
    } else if cp == 0x1FE6 {
        Some("\u{3C5}\u{342}")
    } else if cp == 0x1FE7 {
        Some("\u{3C5}\u{308}\u{342}")
    } else if cp == 0x1FE8 {
        Some("\u{3A5}\u{306}")
    } else if cp == 0x1FE9 {
        Some("\u{3A5}\u{304}")
    } else if cp == 0x1FEA {
        Some("\u{3A5}\u{300}")
    } else if cp == 0x1FEB {
        Some("\u{3A5}\u{301}")
    } else if cp == 0x1FEC {
        Some("\u{3A1}\u{314}")
    } else if cp == 0x1FED {
        Some("\u{A8}\u{300}")
    } else if cp == 0x1FEE {
        Some("\u{A8}\u{301}")
    } else if cp == 0x1FEF {
        Some("`")
    } else if cp == 0x1FF2 {
        Some("\u{3C9}\u{300}\u{345}")
    } else if cp == 0x1FF3 {
        Some("\u{3C9}\u{345}")
    } else if cp == 0x1FF4 {
        Some("\u{3C9}\u{301}\u{345}")
    } else if cp == 0x1FF6 {
        Some("\u{3C9}\u{342}")
    } else if cp == 0x1FF7 {
        Some("\u{3C9}\u{342}\u{345}")
    } else if cp == 0x1FF8 {
        Some("\u{39F}\u{300}")
    } else if cp == 0x1FF9 {
        Some("\u{39F}\u{301}")
    } else if cp == 0x1FFA {
        Some("\u{3A9}\u{300}")
    } else if cp == 0x1FFB {
        Some("\u{3A9}\u{301}")
    } else if cp == 0x1FFC {
        Some("\u{3A9}\u{345}")
    } else if cp == 0x1FFD {
        Some("\u{B4}")
    } else if cp == 0x2000 {
        Some("\u{2002}")
    } else if cp == 0x2001 {
        Some("\u{2003}")
    } else if cp == 0x2126 {
        Some("\u{3A9}")
    } else if cp == 0x212A {
        Some("K")
    } else if cp == 0x212B {
        Some("A\u{30A}")
    } else if cp == 0x219A {
        Some("\u{2190}\u{338}")
    } else if cp == 0x219B {
        Some("\u{2192}\u{338}")
    } else {
        None
    }
}

/// One part of the table [`canonical_decomposition`], by code point.
pub open spec fn canonical_decomposition_14(cp: u32) -> Option<&'static str> {
    if cp == 0x21AE {
        Some("\u{2194}\u{338}")
    } else if cp == 0x21CD {
        Some("\u{21D0}\u{338}")
    } else if cp == 0x21CE {
        Some("\u{21D4}\u{338}")
    } else if cp == 0x21CF {
        Some("\u{21D2}\u{338}")
    } else if cp == 0x2204 {
        Some("\u{2203}\u{338}")
    } else if cp == 0x2209 {
        Some("\u{2208}\u{338}")
    } else if cp == 0x220C {
        Some("\u{220B}\u{338}")
    } else if cp == 0x2224 {
        Some("\u{2223}\u{338}")
    } else if cp == 0x2226 {
        Some("\u{2225}\u{338}")
    } else if cp == 0x2241 {
        Some("\u{223C}\u{338}")
    } else if cp == 0x2244 {
        Some("\u{2243}\u{338}")
    } else if cp == 0x2247 {
        Some("\u{2245}\u{338}")
    } else if cp == 0x2249 {
        Some("\u{2248}\u{338}")
    } else if cp == 0x2260 {
        Some("=\u{338}")
    } else if cp == 0x2262 {
        Some("\u{2261}\u{338}")
    } else if cp == 0x226D {
        Some("\u{224D}\u{338}")
    } else if cp == 0x226E {
        Some("<\u{338}")
    } else if cp == 0x226F {
        Some(">\u{338}")
    } else if cp == 0x2270 {
        Some("\u{2264}\u{338}")
    } else if cp == 0x2271 {
        Some("\u{2265}\u{338}")
    } else if cp == 0x2274 {
        Some("\u{2272}\u{338}")
    } else if cp == 0x2275 {
        Some("\u{2273}\u{338}")
    } else if cp == 0x2278 {
        Some("\u{2276}\u{338}")
    } else if cp == 0x2279 {
        Some("\u{2277}\u{338}")
    } else if cp == 0x2280 {
        Some("\u{227A}\u{338}")
    } else if cp == 0x2281 {
        Some("\u{227B}\u{338}")
    } else if cp == 0x2284 {
        Some("\u{2282}\u{338}")
    } else if cp == 0x2285 {
        Some("\u{2283}\u{338}")
    } else if cp == 0x2288 {
        Some("\u{2286}\u{338}")
    } else if cp == 0x2289 {
        Some("\u{2287}\u{338}")
    } else if cp == 0x22AC {
        Some("\u{22A2}\u{338}")
    } else if cp == 0x22AD {
        Some("\u{22A8}\u{338}")
    } else if cp == 0x22AE {
        Some("\u{22A9}\u{338}")
    } else if cp == 0x22AF {
        Some("\u{22AB}\u{338}")
    } else if cp == 0x22E0 {
        Some("\u{227C}\u{338}")
    } else if cp == 0x22E1 {
        Some("\u{227D}\u{338}")
    } else if cp == 0x22E2 {
        Some("\u{2291}\u{338}")
    } else if cp == 0x22E3 {
        Some("\u{2292}\u{338}")
    } else if cp == 0x22EA {
        Some("\u{22B2}\u{338}")
    } else if cp == 0x22EB {
        Some("\u{22B3}\u{338}")
    } else if cp == 0x22EC {
        Some("\u{22B4}\u{338}")
    } else if cp == 0x22ED {
        Some("\u{22B5}\u{338}")
    } else if cp == 0x2329 {
        Some("\u{3008}")
    } else if cp == 0x232A {
        Some("\u{3009}")
    } else if cp == 0x2ADC {
        Some("\u{2ADD}\u{338}")
    } else if cp == 0x304C {
        Some("\u{304B}\u{3099}")
    } else if cp == 0x304E {
        Some("\u{304D}\u{3099}")
    } else if cp == 0x3050 {
        Some("\u{304F}\u{3099}")
    } else if cp == 0x3052 {
        Some("\u{3051}\u{3099}")
    } else if cp == 0x3054 {
        Some("\u{3053}\u{3099}")
    } else if cp == 0x3056 {
        Some("\u{3055}\u{3099}")
    } else if cp == 0x3058 {
        Some("\u{3057}\u{3099}")
    } else if cp == 0x305A {
        Some("\u{3059}\u{3099}")
    } else if cp == 0x305C {
        Some("\u{305B}\u{3099}")
    } else if cp == 0x305E {
        Some("\u{305D}\u{3099}")
    } else if cp == 0x3060 {
        Some("\u{305F}\u{3099}")
    } else if cp == 0x3062 {
        Some("\u{3061}\u{3099}")
    } else if cp == 0x3065 {
        Some("\u{3064}\u{3099}")
    } else if cp == 0x3067 {
        Some("\u{3066}\u{3099}")
    } else if cp == 0x3069 {
        Some("\u{3068}\u{3099}")
    } else if cp == 0x3070 {
        Some("\u{306F}\u{3099}")
    } else if cp == 0x3071 {
        Some("\u{306F}\u{309A}")
    } else if cp == 0x3073 {
        Some("\u{3072}\u{3099}")
    } else if cp == 0x3074 {
        Some("\u{3072}\u{309A}")
    } else {
        None
    }
}

fn canonical_decomposition_of_14(cp: u32) -> (r: Option<&'static str>)
    ensures
        r == canonical_decomposition_14(cp),
{
    if cp == 0x21AE {
        Some("\u{2194}\u{338}")
    } else if cp == 0x21CD {
        Some("\u{21D0}\u{338}")
    } else if cp == 0x21CE {
        Some("\u{21D4}\u{338}")
    } else if cp == 0x21CF {
        Some("\u{21D2}\u{338}")
    } else if cp == 0x2204 {
        Some("\u{2203}\u{338}")
    } else if cp == 0x2209 {
        Some("\u{2208}\u{338}")
    } else if cp == 0x220C {
        Some("\u{220B}\u{338}")
    } else if cp == 0x2224 {
        Some("\u{2223}\u{338}")
    } else if cp == 0x2226 {
        Some("\u{2225}\u{338}")
    } else if cp == 0x2241 {
        Some("\u{223C}\u{338}")
    } else if cp == 0x2244 {
        Some("\u{2243}\u{338}")
    } else if cp == 0x2247 {
        Some("\u{2245}\u{338}")
    } else if cp == 0x2249 {
        Some("\u{2248}\u{338}")
    } else if cp == 0x2260 {
        Some("=\u{338}")
    } else if cp == 0x2262 {
        Some("\u{2261}\u{338}")
    } else if cp == 0x226D {
        Some("\u{224D}\u{338}")
    } else if cp == 0x226E {
        Some("<\u{338}")
    } else if cp == 0x226F {
        Some(">\u{338}")
    } else if cp == 0x2270 {
        Some("\u{2264}\u{338}")
    } else if cp == 0x2271 {
        Some("\u{2265}\u{338}")
    } else if cp == 0x2274 {
        Some("\u{2272}\u{338}")
    } else if cp == 0x2275 {
        Some("\u{2273}\u{338}")
    } else if cp == 0x2278 {
        Some("\u{2276}\u{338}")
    } else if cp == 0x2279 {
        Some("\u{2277}\u{338}")
    } else if cp == 0x2280 {
        Some("\u{227A}\u{338}")
    } else if cp == 0x2281 {
        Some("\u{227B}\u{338}")
    } else if cp == 0x2284 {
        Some("\u{2282}\u{338}")
    } else if cp == 0x2285 {
        Some("\u{2283}\u{338}")
    } else if cp == 0x2288 {
        Some("\u{2286}\u{338}")
    } else if cp == 0x2289 {
        Some("\u{2287}\u{338}")
    } else if cp == 0x22AC {
        Some("\u{22A2}\u{338}")
    } else if cp == 0x22AD {
        Some("\u{22A8}\u{338}")
    } else if cp == 0x22AE {
        Some("\u{22A9}\u{338}")
    } else if cp == 0x22AF {
        Some("\u{22AB}\u{338}")
    } else if cp == 0x22E0 {
        Some("\u{227C}\u{338}")
    } else if cp == 0x22E1 {
        Some("\u{227D}\u{338}")
    } else if cp == 0x22E2 {
        Some("\u{2291}\u{338}")
    } else if cp == 0x22E3 {
        Some("\u{2292}\u{338}")
    } else if cp == 0x22EA {
        Some("\u{22B2}\u{338}")
    } else if cp == 0x22EB {
        Some("\u{22B3}\u{338}")
    } else if cp == 0x22EC {
        Some("\u{22B4}\u{338}")
    } else if cp == 0x22ED {
        Some("\u{22B5}\u{338}")
    } else if cp == 0x2329 {
        Some("\u{3008}")
    } else if cp == 0x232A {
        Some("\u{3009}")
    } else if cp == 0x2ADC {
        Some("\u{2ADD}\u{338}")
    } else if cp == 0x304C {
        Some("\u{304B}\u{3099}")
    } else if cp == 0x304E {
        Some("\u{304D}\u{3099}")
    } else if cp == 0x3050 {
        Some("\u{304F}\u{3099}")
    } else if cp == 0x3052 {
        Some("\u{3051}\u{3099}")
    } else if cp == 0x3054 {
        Some("\u{3053}\u{3099}")
    } else if cp == 0x3056 {
        Some("\u{3055}\u{3099}")
    } else if cp == 0x3058 {
        Some("\u{3057}\u{3099}")
    } else if cp == 0x305A {
        Some("\u{3059}\u{3099}")
    } else if cp == 0x305C {
        Some("\u{305B}\u{3099}")
    } else if cp == 0x305E {
        Some("\u{305D}\u{3099}")
    } else if cp == 0x3060 {
        Some("\u{305F}\u{3099}")
    } else if cp == 0x3062 {
        Some("\u{3061}\u{3099}")
    } else if cp == 0x3065 {
        Some("\u{3064}\u{3099}")
    } else if cp == 0x3067 {
        Some("\u{3066}\u{3099}")
    } else if cp == 0x3069 {
        Some("\u{3068}\u{3099}")
    } else if cp == 0x3070 {
        Some("\u{306F}\u{3099}")
    } else if cp == 0x3071 {
        Some("\u{306F}\u{309A}")
    } else if cp == 0x3073 {
        Some("\u{3072}\u{3099}")
    } else if cp == 0x3074 {
        Some("\u{3072}\u{309A}")
    } else {
        None
    }
}

/// One part of the table [`canonical_decomposition`], by code point.
pub open spec fn canonical_decomposition_15(cp: u32) -> Option<&'static str> {
    if cp == 0x3076 {
        Some("\u{3075}\u{3099}")
    } else if cp == 0x3077 {
        Some("\u{3075}\u{309A}")
    } else if cp == 0x3079 {
        Some("\u{3078}\u{3099}")
    } else if cp == 0x307A {
        Some("\u{3078}\u{309A}")
    } else if cp == 0x307C {
        Some("\u{307B}\u{3099}")
    } else if cp == 0x307D {
        Some("\u{307B}\u{309A}")
    } else if cp == 0x3094 {
        Some("\u{3046}\u{3099}")
    } else if cp == 0x309E {
        Some("\u{309D}\u{3099}")
    } else if cp == 0x30AC {
        Some("\u{30AB}\u{3099}")
    } else if cp == 0x30AE {
        Some("\u{30AD}\u{3099}")
    } else if cp == 0x30B0 {
        Some("\u{30AF}\u{3099}")
    } else if cp == 0x30B2 {
        Some("\u{30B1}\u{3099}")
    } else if cp == 0x30B4 {
        Some("\u{30B3}\u{3099}")
    } else if cp == 0x30B6 {
        Some("\u{30B5}\u{3099}")
    } else if cp == 0x30B8 {
        Some("\u{30B7}\u{3099}")
    } else if cp == 0x30BA {
        Some("\u{30B9}\u{3099}")
    } else if cp == 0x30BC {
        Some("\u{30BB}\u{3099}")
    } else if cp == 0x30BE {
        Some("\u{30BD}\u{3099}")
    } else if cp == 0x30C0 {
        Some("\u{30BF}\u{3099}")
    } else if cp == 0x30C2 {
        Some("\u{30C1}\u{3099}")
    } else if cp == 0x30C5 {
        Some("\u{30C4}\u{3099}")
    } else if cp == 0x30C7 {
        Some("\u{30C6}\u{3099}")
    } else if cp == 0x30C9 {
        Some("\u{30C8}\u{3099}")
    } else if cp == 0x30D0 {
        Some("\u{30CF}\u{3099}")
    } else if cp == 0x30D1 {
        Some("\u{30CF}\u{309A}")
    } else if cp == 0x30D3 {
        Some("\u{30D2}\u{3099}")
    } else if cp == 0x30D4 {
        Some("\u{30D2}\u{309A}")
    } else if cp == 0x30D6 {
        Some("\u{30D5}\u{3099}")
    } else if cp == 0x30D7 {
        Some("\u{30D5}\u{309A}")
    } else if cp == 0x30D9 {
        Some("\u{30D8}\u{3099}")
    } else if cp == 0x30DA {
        Some("\u{30D8}\u{309A}")
    } else if cp == 0x30DC {
        Some("\u{30DB}\u{3099}")
    } else if cp == 0x30DD {
        Some("\u{30DB}\u{309A}")
    } else if cp == 0x30F4 {
        Some("\u{30A6}\u{3099}")
    } else if cp == 0x30F7 {
        Some("\u{30EF}\u{3099}")
    } else if cp == 0x30F8 {
        Some("\u{30F0}\u{3099}")
    } else if cp == 0x30F9 {
        Some("\u{30F1}\u{3099}")
    } else if cp == 0x30FA {
        Some("\u{30F2}\u{3099}")
    } else if cp == 0x30FE {
        Some("\u{30FD}\u{3099}")
    } else if cp == 0xF900 {
        Some("\u{8C48}")
    } else if cp == 0xF901 {
        Some("\u{66F4}")
    } else if cp == 0xF902 {
        Some("\u{8ECA}")
    } else if cp == 0xF903 {
        Some("\u{8CC8}")
    } else if cp == 0xF904 {
        Some("\u{6ED1}")
    } else if cp == 0xF905 {
        Some("\u{4E32}")
    } else if cp == 0xF906 {
        Some("\u{53E5}")
    } else if cp == 0xF907 {
        Some("\u{9F9C}")
    } else if cp == 0xF908 {
        Some("\u{9F9C}")
    } else if cp == 0xF909 {
        Some("\u{5951}")
    } else if cp == 0xF90A {
        Some("\u{91D1}")
    } else if cp == 0xF90B {
        Some("\u{5587}")
    } else if cp == 0xF90C {
        Some("\u{5948}")
    } else if cp == 0xF90D {
        Some("\u{61F6}")
    } else if cp == 0xF90E {
        Some("\u{7669}")
    } else if cp == 0xF90F {
        Some("\u{7F85}")
    } else if cp == 0xF910 {
        Some("\u{863F}")
    } else if cp == 0xF911 {
        Some("\u{87BA}")
    } else if cp == 0xF912 {
        Some("\u{88F8}")
    } else if cp == 0xF913 {
        Some("\u{908F}")
    } else if cp == 0xF914 {
        Some("\u{6A02}")
    } else if cp == 0xF915 {
        Some("\u{6D1B}")
    } else if cp == 0xF916 {
        Some("\u{70D9}")
    } else if cp == 0xF917 {
        Some("\u{73DE}")
    } else if cp == 0xF918 {
        Some("\u{843D}")
    } else {
        None
    }
}

fn canonical_decomposition_of_15(cp: u32) -> (r: Option<&'static str>)
    ensures
        r == canonical_decomposition_15(cp),
{
    if cp == 0x3076 {
        Some("\u{3075}\u{3099}")
    } else if cp == 0x3077 {
        Some("\u{3075}\u{309A}")
    } else if cp == 0x3079 {
        Some("\u{3078}\u{3099}")
    } else if cp == 0x307A {
        Some("\u{3078}\u{309A}")
    } else if cp == 0x307C {
        Some("\u{307B}\u{3099}")
    } else if cp == 0x307D {
        Some("\u{307B}\u{309A}")
    } else if cp == 0x3094 {
        Some("\u{3046}\u{3099}")
    } else if cp == 0x309E {
        Some("\u{309D}\u{3099}")
    } else if cp == 0x30AC {
        Some("\u{30AB}\u{3099}")
    } else if cp == 0x30AE {
        Some("\u{30AD}\u{3099}")
    } else if cp == 0x30B0 {
        Some("\u{30AF}\u{3099}")
    } else if cp == 0x30B2 {
        Some("\u{30B1}\u{3099}")
    } else if cp == 0x30B4 {
        Some("\u{30B3}\u{3099}")
    } else if cp == 0x30B6 {
        Some("\u{30B5}\u{3099}")
    } else if cp == 0x30B8 {
        Some("\u{30B7}\u{3099}")
    } else if cp == 0x30BA {
        Some("\u{30B9}\u{3099}")
    } else if cp == 0x30BC {
        Some("\u{30BB}\u{3099}")
    } else if cp == 0x30BE {
        Some("\u{30BD}\u{3099}")
    } else if cp == 0x30C0 {
        Some("\u{30BF}\u{3099}")
    } else if cp == 0x30C2 {
        Some("\u{30C1}\u{3099}")
    } else if cp == 0x30C5 {
        Some("\u{30C4}\u{3099}")
    } else if cp == 0x30C7 {
        Some("\u{30C6}\u{3099}")
    } else if cp == 0x30C9 {
        Some("\u{30C8}\u{3099}")
    } else if cp == 0x30D0 {
        Some("\u{30CF}\u{3099}")
    } else if cp == 0x30D1 {
        Some("\u{30CF}\u{309A}")
    } else if cp == 0x30D3 {
        Some("\u{30D2}\u{3099}")
    } else if cp == 0x30D4 {
        Some("\u{30D2}\u{309A}")
    } else if cp == 0x30D6 {
        Some("\u{30D5}\u{3099}")
    } else if cp == 0x30D7 {
        Some("\u{30D5}\u{309A}")
    } else if cp == 0x30D9 {
        Some("\u{30D8}\u{3099}")
    } else if cp == 0x30DA {
        Some("\u{30D8}\u{309A}")
    } else if cp == 0x30DC {
        Some("\u{30DB}\u{3099}")
    } else if cp == 0x30DD {
        Some("\u{30DB}\u{309A}")
    } else if cp == 0x30F4 {
        Some("\u{30A6}\u{3099}")
    } else if cp == 0x30F7 {
        Some("\u{30EF}\u{3099}")
    } else if cp == 0x30F8 {
        Some("\u{30F0}\u{3099}")
    } else if cp == 0x30F9 {
        Some("\u{30F1}\u{3099}")
    } else if cp == 0x30FA {
        Some("\u{30F2}\u{3099}")
    } else if cp == 0x30FE {
        Some("\u{30FD}\u{3099}")
    } else if cp == 0xF900 {
        Some("\u{8C48}")
    } else if cp == 0xF901 {
        Some("\u{66F4}")
    } else if cp == 0xF902 {
        Some("\u{8ECA}")
    } else if cp == 0xF903 {
        Some("\u{8CC8}")
    } else if cp == 0xF904 {
        Some("\u{6ED1}")
    } else if cp == 0xF905 {
        Some("\u{4E32}")
    } else if cp == 0xF906 {
        Some("\u{53E5}")
    } else if cp == 0xF907 {
        Some("\u{9F9C}")
    } else if cp == 0xF908 {
        Some("\u{9F9C}")
    } else if cp == 0xF909 {
        Some("\u{5951}")
    } else if cp == 0xF90A {
        Some("\u{91D1}")
    } else if cp == 0xF90B {
        Some("\u{5587}")
    } else if cp == 0xF90C {
        Some("\u{5948}")
    } else if cp == 0xF90D {
        Some("\u{61F6}")
    } else if cp == 0xF90E {
        Some("\u{7669}")
    } else if cp == 0xF90F {
        Some("\u{7F85}")
    } else if cp == 0xF910 {
        Some("\u{863F}")
    } else if cp == 0xF911 {
        Some("\u{87BA}")
    } else if cp == 0xF912 {
        Some("\u{88F8}")
    } else if cp == 0xF913 {
        Some("\u{908F}")
    } else if cp == 0xF914 {
        Some("\u{6A02}")
    } else if cp == 0xF915 {
        Some("\u{6D1B}")
    } else if cp == 0xF916 {
        Some("\u{70D9}")
    } else if cp == 0xF917 {
        Some("\u{73DE}")
    } else if cp == 0xF918 {
        Some("\u{843D}")
    } else {
        None
    }
}

/// One part of the table [`canonical_decomposition`], by code point.
pub open spec fn canonical_decomposition_16(cp: u32) -> Option<&'static str> {
    if cp == 0xF919 {
        Some("\u{916A}")
    } else if cp == 0xF91A {
        Some("\u{99F1}")
    } else if cp == 0xF91B {
        Some("\u{4E82}")
    } else if cp == 0xF91C {
        Some("\u{5375}")
    } else if cp == 0xF91D {
        Some("\u{6B04}")
    } else if cp == 0xF91E {
        Some("\u{721B}")
    } else if cp == 0xF91F {
        Some("\u{862D}")
    } else if cp == 0xF920 {
        Some("\u{9E1E}")
    } else if cp == 0xF921 {
        Some("\u{5D50}")
    } else if cp == 0xF922 {
        Some("\u{6FEB}")
    } else if cp == 0xF923 {
        Some("\u{85CD}")
    } else if cp == 0xF924 {
        Some("\u{8964}")
    } else if cp == 0xF925 {
        Some("\u{62C9}")
    } else if cp == 0xF926 {
        Some("\u{81D8}")
    } else if cp == 0xF927 {
        Some("\u{881F}")
    } else if cp == 0xF928 {
        Some("\u{5ECA}")
    } else if cp == 0xF929 {
        Some("\u{6717}")
    } else if cp == 0xF92A {
        Some("\u{6D6A}")
    } else if cp == 0xF92B {
        Some("\u{72FC}")
    } else if cp == 0xF92C {
        Some("\u{90CE}")
    } else if cp == 0xF92D {
        Some("\u{4F86}")
    } else if cp == 0xF92E {
        Some("\u{51B7}")
    } else if cp == 0xF92F {
        Some("\u{52DE}")
    } else if cp == 0xF930 {
        Some("\u{64C4}")
    } else if cp == 0xF931 {
        Some("\u{6AD3}")
    } else if cp == 0xF932 {
        Some("\u{7210}")
    } else if cp == 0xF933 {
        Some("\u{76E7}")
    } else if cp == 0xF934 {
        Some("\u{8001}")
    } else if cp == 0xF935 {
        Some("\u{8606}")
    } else if cp == 0xF936 {
        Some("\u{865C}")
    } else if cp == 0xF937 {
        Some("\u{8DEF}")
    } else if cp == 0xF938 {
        Some("\u{9732}")
    } else if cp == 0xF939 {
        Some("\u{9B6F}")
    } else if cp == 0xF93A {
        Some("\u{9DFA}")
    } else if cp == 0xF93B {
        Some("\u{788C}")
    } else if cp == 0xF93C {
        Some("\u{797F}")
    } else if cp == 0xF93D {
        Some("\u{7DA0}")
    } else if cp == 0xF93E {
        Some("\u{83C9}")
    } else if cp == 0xF93F {
        Some("\u{9304}")
    } else if cp == 0xF940 {
        Some("\u{9E7F}")
    } else if cp == 0xF941 {
        Some("\u{8AD6}")
    } else if cp == 0xF942 {
        Some("\u{58DF}")
    } else if cp == 0xF943 {
        Some("\u{5F04}")
    } else if cp == 0xF944 {
        Some("\u{7C60}")
    } else if cp == 0xF945 {
        Some("\u{807E}")
    } else if cp == 0xF946 {
        Some("\u{7262}")
    } else if cp == 0xF947 {
        Some("\u{78CA}")
    } else if cp == 0xF948 {
        Some("\u{8CC2}")
    } else if cp == 0xF949 {
        Some("\u{96F7}")
    } else if cp == 0xF94A {
        Some("\u{58D8}")
    } else if cp == 0xF94B {
        Some("\u{5C62}")
    } else if cp == 0xF94C {
        Some("\u{6A13}")
    } else if cp == 0xF94D {
        Some("\u{6DDA}")
    } else if cp == 0xF94E {
        Some("\u{6F0F}")
    } else if cp == 0xF94F {
        Some("\u{7D2F}")
    } else if cp == 0xF950 {
        Some("\u{7E37}")
    } else if cp == 0xF951 {
        Some("\u{964B}")
    } else if cp == 0xF952 {
        Some("\u{52D2}")
    } else if cp == 0xF953 {
        Some("\u{808B}")
    } else if cp == 0xF954 {
        Some("\u{51DC}")
    } else if cp == 0xF955 {
        Some("\u{51CC}")
    } else if cp == 0xF956 {
        Some("\u{7A1C}")
    } else if cp == 0xF957 {
        Some("\u{7DBE}")
    } else if cp == 0xF958 {
        Some("\u{83F1}")
    } else {
        None
    }
}

fn canonical_decomposition_of_16(cp: u32) -> (r: Option<&'static str>)
    ensures
        r == canonical_decomposition_16(cp),
{
    if cp == 0xF919 {
        Some("\u{916A}")
    } else if cp == 0xF91A {
        Some("\u{99F1}")
    } else if cp == 0xF91B {
        Some("\u{4E82}")
    } else if cp == 0xF91C {
        Some("\u{5375}")
    } else if cp == 0xF91D {
        Some("\u{6B04}")
    } else if cp == 0xF91E {
        Some("\u{721B}")
    } else if cp == 0xF91F {
        Some("\u{862D}")
    } else if cp == 0xF920 {
        Some("\u{9E1E}")
    } else if cp == 0xF921 {
        Some("\u{5D50}")
    } else if cp == 0xF922 {
        Some("\u{6FEB}")
    } else if cp == 0xF923 {
        Some("\u{85CD}")
    } else if cp == 0xF924 {
        Some("\u{8964}")
    } else if cp == 0xF925 {
        Some("\u{62C9}")
    } else if cp == 0xF926 {
        Some("\u{81D8}")
    } else if cp == 0xF927 {
        Some("\u{881F}")
    } else if cp == 0xF928 {
        Some("\u{5ECA}")
    } else if cp == 0xF929 {
        Some("\u{6717}")
    } else if cp == 0xF92A {
        Some("\u{6D6A}")
    } else if cp == 0xF92B {
        Some("\u{72FC}")
    } else if cp == 0xF92C {
        Some("\u{90CE}")
    } else if cp == 0xF92D {
        Some("\u{4F86}")
    } else if cp == 0xF92E {
        Some("\u{51B7}")
    } else if cp == 0xF92F {
        Some("\u{52DE}")
    } else if cp == 0xF930 {
        Some("\u{64C4}")
    } else if cp == 0xF931 {
        Some("\u{6AD3}")
    } else if cp == 0xF932 {
        Some("\u{7210}")
    } else if cp == 0xF933 {
        Some("\u{76E7}")
    } else if cp == 0xF934 {
        Some("\u{8001}")
    } else if cp == 0xF935 {
        Some("\u{8606}")
    } else if cp == 0xF936 {
        Some("\u{865C}")
    } else if cp == 0xF937 {
        Some("\u{8DEF}")
    } else if cp == 0xF938 {
        Some("\u{9732}")
    } else if cp == 0xF939 {
        Some("\u{9B6F}")
    } else if cp == 0xF93A {
        Some("\u{9DFA}")
    } else if cp == 0xF93B {
        Some("\u{788C}")
    } else if cp == 0xF93C {
        Some("\u{797F}")
    } else if cp == 0xF93D {
        Some("\u{7DA0}")
    } else if cp == 0xF93E {
        Some("\u{83C9}")
    } else if cp == 0xF93F {
        Some("\u{9304}")
    } else if cp == 0xF940 {
        Some("\u{9E7F}")
    } else if cp == 0xF941 {
        Some("\u{8AD6}")
    } else if cp == 0xF942 {
        Some("\u{58DF}")
    } else if cp == 0xF943 {
        Some("\u{5F04}")
    } else if cp == 0xF944 {
        Some("\u{7C60}")
    } else if cp == 0xF945 {
        Some("\u{807E}")
    } else if cp == 0xF946 {
        Some("\u{7262}")
    } else if cp == 0xF947 {
        Some("\u{78CA}")
    } else if cp == 0xF948 {
        Some("\u{8CC2}")
    } else if cp == 0xF949 {
        Some("\u{96F7}")
    } else if cp == 0xF94A {
        Some("\u{58D8}")
    } else if cp == 0xF94B {
        Some("\u{5C62}")
    } else if cp == 0xF94C {
        Some("\u{6A13}")
    } else if cp == 0xF94D {
        Some("\u{6DDA}")
    } else if cp == 0xF94E {
        Some("\u{6F0F}")
    } else if cp == 0xF94F {
        Some("\u{7D2F}")
    } else if cp == 0xF950 {
        Some("\u{7E37}")
    } else if cp == 0xF951 {
        Some("\u{964B}")
    } else if cp == 0xF952 {
        Some("\u{52D2}")
    } else if cp == 0xF953 {
        Some("\u{808B}")
    } else if cp == 0xF954 {
        Some("\u{51DC}")
    } else if cp == 0xF955 {
        Some("\u{51CC}")
    } else if cp == 0xF956 {
        Some("\u{7A1C}")
    } else if cp == 0xF957 {
        Some("\u{7DBE}")
    } else if cp == 0xF958 {
        Some("\u{83F1}")
    } else {
        None
    }
}

/// One part of the table [`canonical_decomposition`], by code point.
pub open spec fn canonical_decomposition_17(cp: u32) -> Option<&'static str> {
    if cp == 0xF959 {
        Some("\u{9675}")
    } else if cp == 0xF95A {
        Some("\u{8B80}")
    } else if cp == 0xF95B {
        Some("\u{62CF}")
    } else if cp == 0xF95C {
        Some("\u{6A02}")
    } else if cp == 0xF95D {
        Some("\u{8AFE}")
    } else if cp == 0xF95E {
        Some("\u{4E39}")
    } else if cp == 0xF95F {
        Some("\u{5BE7}")
    } else if cp == 0xF960 {
        Some("\u{6012}")
    } else if cp == 0xF961 {
        Some("\u{7387}")
    } else if cp == 0xF962 {
        Some("\u{7570}")
    } else if cp == 0xF963 {
        Some("\u{5317}")
    } else if cp == 0xF964 {
        Some("\u{78FB}")
    } else if cp == 0xF965 {
        Some("\u{4FBF}")
    } else if cp == 0xF966 {
        Some("\u{5FA9}")
    } else if cp == 0xF967 {
        Some("\u{4E0D}")
    } else if cp == 0xF968 {
        Some("\u{6CCC}")
    } else if cp == 0xF969 {
        Some("\u{6578}")
    } else if cp == 0xF96A {
        Some("\u{7D22}")
    } else if cp == 0xF96B {
        Some("\u{53C3}")
    } else if cp == 0xF96C {
        Some("\u{585E}")
    } else if cp == 0xF96D {
        Some("\u{7701}")
    } else if cp == 0xF96E {
        Some("\u{8449}")
    } else if cp == 0xF96F {
        Some("\u{8AAA}")
    } else if cp == 0xF970 {
        Some("\u{6BBA}")
    } else if cp == 0xF971 {
        Some("\u{8FB0}")
    } else if cp == 0xF972 {
        Some("\u{6C88}")
    } else if cp == 0xF973 {
        Some("\u{62FE}")
    } else if cp == 0xF974 {
        Some("\u{82E5}")
    } else if cp == 0xF975 {
        Some("\u{63A0}")
    } else if cp == 0xF976 {
        Some("\u{7565}")
    } else if cp == 0xF977 {
        Some("\u{4EAE}")
    } else if cp == 0xF978 {
        Some("\u{5169}")
    } else if cp == 0xF979 {
        Some("\u{51C9}")
    } else if cp == 0xF97A {
        Some("\u{6881}")
    } else if cp == 0xF97B {
        Some("\u{7CE7}")
    } else if cp == 0xF97C {
        Some("\u{826F}")
    } else if cp == 0xF97D {
        Some("\u{8AD2}")
    } else if cp == 0xF97E {
        Some("\u{91CF}")
    } else if cp == 0xF97F {
        Some("\u{52F5}")
    } else if cp == 0xF980 {
        Some("\u{5442}")
    } else if cp == 0xF981 {
        Some("\u{5973}")
    } else if cp == 0xF982 {
        Some("\u{5EEC}")
    } else if cp == 0xF983 {
        Some("\u{65C5}")
    } else if cp == 0xF984 {
        Some("\u{6FFE}")
    } else if cp == 0xF985 {
        Some("\u{792A}")
    } else if cp == 0xF986 {
        Some("\u{95AD}")
    } else if cp == 0xF987 {
        Some("\u{9A6A}")
    } else if cp == 0xF988 {
        Some("\u{9E97}")
    } else if cp == 0xF989 {
        Some("\u{9ECE}")
    } else if cp == 0xF98A {
        Some("\u{529B}")
    } else if cp == 0xF98B {
        Some("\u{66C6}")
    } else if cp == 0xF98C {
        Some("\u{6B77}")
    } else if cp == 0xF98D {
        Some("\u{8F62}")
    } else if cp == 0xF98E {
        Some("\u{5E74}")
    } else if cp == 0xF98F {
        Some("\u{6190}")
    } else if cp == 0xF990 {
        Some("\u{6200}")
    } else if cp == 0xF991 {
        Some("\u{649A}")
    } else if cp == 0xF992 {
        Some("\u{6F23}")
    } else if cp == 0xF993 {
        Some("\u{7149}")
    } else if cp == 0xF994 {
        Some("\u{7489}")
    } else if cp == 0xF995 {
        Some("\u{79CA}")
    } else if cp == 0xF996 {
        Some("\u{7DF4}")
    } else if cp == 0xF997 {
        Some("\u{806F}")
    } else if cp == 0xF998 {
        Some("\u{8F26}")
    } else {
        None
    }
}

fn canonical_decomposition_of_17(cp: u32) -> (r: Option<&'static str>)
    ensures
        r == canonical_decomposition_17(cp),
{
    if cp == 0xF959 {
        Some("\u{9675}")
    } else if cp == 0xF95A {
        Some("\u{8B80}")
    } else if cp == 0xF95B {
        Some("\u{62CF}")
    } else if cp == 0xF95C {
        Some("\u{6A02}")
    } else if cp == 0xF95D {
        Some("\u{8AFE}")
    } else if cp == 0xF95E {
        Some("\u{4E39}")
    } else if cp == 0xF95F {
        Some("\u{5BE7}")
    } else if cp == 0xF960 {
        Some("\u{6012}")
    } else if cp == 0xF961 {
        Some("\u{7387}")
    } else if cp == 0xF962 {
        Some("\u{7570}")
    } else if cp == 0xF963 {
        Some("\u{5317}")
    } else if cp == 0xF964 {
        Some("\u{78FB}")
    } else if cp == 0xF965 {
        Some("\u{4FBF}")
    } else if cp == 0xF966 {
        Some("\u{5FA9}")
    } else if cp == 0xF967 {
        Some("\u{4E0D}")
    } else if cp == 0xF968 {
        Some("\u{6CCC}")
    } else if cp == 0xF969 {
        Some("\u{6578}")
    } else if cp == 0xF96A {
        Some("\u{7D22}")
    } else if cp == 0xF96B {
        Some("\u{53C3}")
    } else if cp == 0xF96C {
        Some("\u{585E}")
    } else if cp == 0xF96D {
        Some("\u{7701}")
    } else if cp == 0xF96E {
        Some("\u{8449}")
    } else if cp == 0xF96F {
        Some("\u{8AAA}")
    } else if cp == 0xF970 {
        Some("\u{6BBA}")
    } else if cp == 0xF971 {
        Some("\u{8FB0}")
    } else if cp == 0xF972 {
        Some("\u{6C88}")
    } else if cp == 0xF973 {
        Some("\u{62FE}")
    } else if cp == 0xF974 {
        Some("\u{82E5}")
    } else if cp == 0xF975 {
        Some("\u{63A0}")
    } else if cp == 0xF976 {
        Some("\u{7565}")
    } else if cp == 0xF977 {
        Some("\u{4EAE}")
    } else if cp == 0xF978 {
        Some("\u{5169}")
    } else if cp == 0xF979 {
        Some("\u{51C9}")
    } else if cp == 0xF97A {
        Some("\u{6881}")
    } else if cp == 0xF97B {
        Some("\u{7CE7}")
    } else if cp == 0xF97C {
        Some("\u{826F}")
    } else if cp == 0xF97D {
        Some("\u{8AD2}")
    } else if cp == 0xF97E {
        Some("\u{91CF}")
    } else if cp == 0xF97F {
        Some("\u{52F5}")
    } else if cp == 0xF980 {
        Some("\u{5442}")
    } else if cp == 0xF981 {
        Some("\u{5973}")
    } else if cp == 0xF982 {
        Some("\u{5EEC}")
    } else if cp == 0xF983 {
        Some("\u{65C5}")
    } else if cp == 0xF984 {
        Some("\u{6FFE}")
    } else if cp == 0xF985 {
        Some("\u{792A}")
    } else if cp == 0xF986 {
        Some("\u{95AD}")
    } else if cp == 0xF987 {
        Some("\u{9A6A}")
    } else if cp == 0xF988 {
        Some("\u{9E97}")
    } else if cp == 0xF989 {
        Some("\u{9ECE}")
    } else if cp == 0xF98A {
        Some("\u{529B}")
    } else if cp == 0xF98B {
        Some("\u{66C6}")
    } else if cp == 0xF98C {
        Some("\u{6B77}")
    } else if cp == 0xF98D {
        Some("\u{8F62}")
    } else if cp == 0xF98E {
        Some("\u{5E74}")
    } else if cp == 0xF98F {
        Some("\u{6190}")
    } else if cp == 0xF990 {
        Some("\u{6200}")
    } else if cp == 0xF991 {
        Some("\u{649A}")
    } else if cp == 0xF992 {
        Some("\u{6F23}")
    } else if cp == 0xF993 {
        Some("\u{7149}")
    } else if cp == 0xF994 {
        Some("\u{7489}")
    } else if cp == 0xF995 {
        Some("\u{79CA}")
    } else if cp == 0xF996 {
        Some("\u{7DF4}")
    } else if cp == 0xF997 {
        Some("\u{806F}")
    } else if cp == 0xF998 {
        Some("\u{8F26}")
    } else {
        None
    }
}

/// One part of the table [`canonical_decomposition`], by code point.
pub open spec fn canonical_decomposition_18(cp: u32) -> Option<&'static str> {
    if cp == 0xF999 {
        Some("\u{84EE}")
    } else if cp == 0xF99A {
        Some("\u{9023}")
    } else if cp == 0xF99B {
        Some("\u{934A}")
    } else if cp == 0xF99C {
        Some("\u{5217}")
    } else if cp == 0xF99D {
        Some("\u{52A3}")
    } else if cp == 0xF99E {
        Some("\u{54BD}")
    } else if cp == 0xF99F {
        Some("\u{70C8}")
    } else if cp == 0xF9A0 {
        Some("\u{88C2}")
    } else if cp == 0xF9A1 {
        Some("\u{8AAA}")
    } else if cp == 0xF9A2 {
        Some("\u{5EC9}")
    } else if cp == 0xF9A3 {
        Some("\u{5FF5}")
    } else if cp == 0xF9A4 {
        Some("\u{637B}")
    } else if cp == 0xF9A5 {
        Some("\u{6BAE}")
    } else if cp == 0xF9A6 {
        Some("\u{7C3E}")
    } else if cp == 0xF9A7 {
        Some("\u{7375}")
    } else if cp == 0xF9A8 {
        Some("\u{4EE4}")
    } else if cp == 0xF9A9 {
        Some("\u{56F9}")
    } else if cp == 0xF9AA {
        Some("\u{5BE7}")
    } else if cp == 0xF9AB {
        Some("\u{5DBA}")
    } else if cp == 0xF9AC {
        Some("\u{601C}")
    } else if cp == 0xF9AD {
        Some("\u{73B2}")
    } else if cp == 0xF9AE {
        Some("\u{7469}")
    } else if cp == 0xF9AF {
        Some("\u{7F9A}")
    } else if cp == 0xF9B0 {
        Some("\u{8046}")
    } else if cp == 0xF9B1 {
        Some("\u{9234}")
    } else if cp == 0xF9B2 {
        Some("\u{96F6}")
    } else if cp == 0xF9B3 {
        Some("\u{9748}")
    } else if cp == 0xF9B4 {
        Some("\u{9818}")
    } else if cp == 0xF9B5 {
        Some("\u{4F8B}")
    } else if cp == 0xF9B6 {
        Some("\u{79AE}")
    } else if cp == 0xF9B7 {
        Some("\u{91B4}")
    } else if cp == 0xF9B8 {
        Some("\u{96B8}")
    } else if cp == 0xF9B9 {
        Some("\u{60E1}")
    } else if cp == 0xF9BA {
        Some("\u{4E86}")
    } else if cp == 0xF9BB {
        Some("\u{50DA}")
    } else if cp == 0xF9BC {
        Some("\u{5BEE}")
    } else if cp == 0xF9BD {
        Some("\u{5C3F}")
    } else if cp == 0xF9BE {
        Some("\u{6599}")
    } else if cp == 0xF9BF {
        Some("\u{6A02}")
    } else if cp == 0xF9C0 {
        Some("\u{71CE}")
    } else if cp == 0xF9C1 {
        Some("\u{7642}")
    } else if cp == 0xF9C2 {
        Some("\u{84FC}")
    } else if cp == 0xF9C3 {
        Some("\u{907C}")
    } else if cp == 0xF9C4 {
        Some("\u{9F8D}")
    } else if cp == 0xF9C5 {
        Some("\u{6688}")
    } else if cp == 0xF9C6 {
        Some("\u{962E}")
    } else if cp == 0xF9C7 {
        Some("\u{5289}")
    } else if cp == 0xF9C8 {
        Some("\u{677B}")
    } else if cp == 0xF9C9 {
        Some("\u{67F3}")
    } else if cp == 0xF9CA {
        Some("\u{6D41}")
    } else if cp == 0xF9CB {
        Some("\u{6E9C}")
    } else if cp == 0xF9CC {
        Some("\u{7409}")
    } else if cp == 0xF9CD {
        Some("\u{7559}")
    } else if cp == 0xF9CE {
        Some("\u{786B}")
    } else if cp == 0xF9CF {
        Some("\u{7D10}")
    } else if cp == 0xF9D0 {
        Some("\u{985E}")
    } else if cp == 0xF9D1 {
        Some("\u{516D}")
    } else if cp == 0xF9D2 {
        Some("\u{622E}")
    } else if cp == 0xF9D3 {
        Some("\u{9678}")
    } else if cp == 0xF9D4 {
        Some("\u{502B}")
    } else if cp == 0xF9D5 {
        Some("\u{5D19}")
    } else if cp == 0xF9D6 {
        Some("\u{6DEA}")
    } else if cp == 0xF9D7 {
        Some("\u{8F2A}")
    } else if cp == 0xF9D8 {
        Some("\u{5F8B}")
    } else {
        None
    }
}

fn canonical_decomposition_of_18(cp: u32) -> (r: Option<&'static str>)
    ensures
        r == canonical_decomposition_18(cp),
{
    if cp == 0xF999 {
        Some("\u{84EE}")
    } else if cp == 0xF99A {
        Some("\u{9023}")
    } else if cp == 0xF99B {
        Some("\u{934A}")
    } else if cp == 0xF99C {
        Some("\u{5217}")
    } else if cp == 0xF99D {
        Some("\u{52A3}")
    } else if cp == 0xF99E {
        Some("\u{54BD}")
    } else if cp == 0xF99F {
        Some("\u{70C8}")
    } else if cp == 0xF9A0 {
        Some("\u{88C2}")
    } else if cp == 0xF9A1 {
        Some("\u{8AAA}")
    } else if cp == 0xF9A2 {
        Some("\u{5EC9}")
    } else if cp == 0xF9A3 {
        Some("\u{5FF5}")
    } else if cp == 0xF9A4 {
        Some("\u{637B}")
    } else if cp == 0xF9A5 {
        Some("\u{6BAE}")
    } else if cp == 0xF9A6 {
        Some("\u{7C3E}")
    } else if cp == 0xF9A7 {
        Some("\u{7375}")
    } else if cp == 0xF9A8 {
        Some("\u{4EE4}")
    } else if cp == 0xF9A9 {
        Some("\u{56F9}")
    } else if cp == 0xF9AA {
        Some("\u{5BE7}")
    } else if cp == 0xF9AB {
        Some("\u{5DBA}")
    } else if cp == 0xF9AC {
        Some("\u{601C}")
    } else if cp == 0xF9AD {
        Some("\u{73B2}")
    } else if cp == 0xF9AE {
        Some("\u{7469}")
    } else if cp == 0xF9AF {
        Some("\u{7F9A}")
    } else if cp == 0xF9B0 {
        Some("\u{8046}")
    } else if cp == 0xF9B1 {
        Some("\u{9234}")
    } else if cp == 0xF9B2 {
        Some("\u{96F6}")
    } else if cp == 0xF9B3 {
        Some("\u{9748}")
    } else if cp == 0xF9B4 {
        Some("\u{9818}")
    } else if cp == 0xF9B5 {
        Some("\u{4F8B}")
    } else if cp == 0xF9B6 {
        Some("\u{79AE}")
    } else if cp == 0xF9B7 {
        Some("\u{91B4}")
    } else if cp == 0xF9B8 {
        Some("\u{96B8}")
    } else if cp == 0xF9B9 {
        Some("\u{60E1}")
    } else if cp == 0xF9BA {
        Some("\u{4E86}")
    } else if cp == 0xF9BB {
        Some("\u{50DA}")
    } else if cp == 0xF9BC {
        Some("\u{5BEE}")
    } else if cp == 0xF9BD {
        Some("\u{5C3F}")
    } else if cp == 0xF9BE {
        Some("\u{6599}")
    } else if cp == 0xF9BF {
        Some("\u{6A02}")
    } else if cp == 0xF9C0 {
        Some("\u{71CE}")
    } else if cp == 0xF9C1 {
        Some("\u{7642}")
    } else if cp == 0xF9C2 {
        Some("\u{84FC}")
    } else if cp == 0xF9C3 {
        Some("\u{907C}")
    } else if cp == 0xF9C4 {
        Some("\u{9F8D}")
    } else if cp == 0xF9C5 {
        Some("\u{6688}")
    } else if cp == 0xF9C6 {
        Some("\u{962E}")
    } else if cp == 0xF9C7 {
        Some("\u{5289}")
    } else if cp == 0xF9C8 {
        Some("\u{677B}")
    } else if cp == 0xF9C9 {
        Some("\u{67F3}")
    } else if cp == 0xF9CA {
        Some("\u{6D41}")
    } else if cp == 0xF9CB {
        Some("\u{6E9C}")
    } else if cp == 0xF9CC {
        Some("\u{7409}")
    } else if cp == 0xF9CD {
        Some("\u{7559}")
    } else if cp == 0xF9CE {
        Some("\u{786B}")
    } else if cp == 0xF9CF {
        Some("\u{7D10}")
    } else if cp == 0xF9D0 {
        Some("\u{985E}")
    } else if cp == 0xF9D1 {
        Some("\u{516D}")
    } else if cp == 0xF9D2 {
        Some("\u{622E}")
    } else if cp == 0xF9D3 {
        Some("\u{9678}")
    } else if cp == 0xF9D4 {
        Some("\u{502B}")
    } else if cp == 0xF9D5 {
        Some("\u{5D19}")
    } else if cp == 0xF9D6 {
        Some("\u{6DEA}")
    } else if cp == 0xF9D7 {
        Some("\u{8F2A}")
    } else if cp == 0xF9D8 {
        Some("\u{5F8B}")
    } else {
        None
    }
}

/// One part of the table [`canonical_decomposition`], by code point.
pub open spec fn canonical_decomposition_19(cp: u32) -> Option<&'static str> {
    if cp == 0xF9D9 {
        Some("\u{6144}")
    } else if cp == 0xF9DA {
        Some("\u{6817}")
    } else if cp == 0xF9DB {
        Some("\u{7387}")
    } else if cp == 0xF9DC {
        Some("\u{9686}")
    } else if cp == 0xF9DD {
        Some("\u{5229}")
    } else if cp == 0xF9DE {
        Some("\u{540F}")
    } else if cp == 0xF9DF {
        Some("\u{5C65}")
    } else if cp == 0xF9E0 {
        Some("\u{6613}")
    } else if cp == 0xF9E1 {
        Some("\u{674E}")
    } else if cp == 0xF9E2 {
        Some("\u{68A8}")
    } else if cp == 0xF9E3 {
        Some("\u{6CE5}")
    } else if cp == 0xF9E4 {
        Some("\u{7406}")
    } else if cp == 0xF9E5 {
        Some("\u{75E2}")
    } else if cp == 0xF9E6 {
        Some("\u{7F79}")
    } else if cp == 0xF9E7 {
        Some("\u{88CF}")
    } else if cp == 0xF9E8 {
        Some("\u{88E1}")
    } else if cp == 0xF9E9 {
        Some("\u{91CC}")
    } else if cp == 0xF9EA {
        Some("\u{96E2}")
    } else if cp == 0xF9EB {
        Some("\u{533F}")
    } else if cp == 0xF9EC {
        Some("\u{6EBA}")
    } else if cp == 0xF9ED {
        Some("\u{541D}")
    } else if cp == 0xF9EE {
        Some("\u{71D0}")
    } else if cp == 0xF9EF {
        Some("\u{7498}")
    } else if cp == 0xF9F0 {
        Some("\u{85FA}")
    } else if cp == 0xF9F1 {
        Some("\u{96A3}")
    } else if cp == 0xF9F2 {
        Some("\u{9C57}")
    } else if cp == 0xF9F3 {
        Some("\u{9E9F}")
    } else if cp == 0xF9F4 {
        Some("\u{6797}")
    } else if cp == 0xF9F5 {
        Some("\u{6DCB}")
    } else if cp == 0xF9F6 {
        Some("\u{81E8}")
    } else if cp == 0xF9F7 {
        Some("\u{7ACB}")
    } else if cp == 0xF9F8 {
        Some("\u{7B20}")
    } else if cp == 0xF9F9 {
        Some("\u{7C92}")
    } else if cp == 0xF9FA {
        Some("\u{72C0}")
    } else if cp == 0xF9FB {
        Some("\u{7099}")
    } else if cp == 0xF9FC {
        Some("\u{8B58}")
    } else if cp == 0xF9FD {
        Some("\u{4EC0}")
    } else if cp == 0xF9FE {
        Some("\u{8336}")
    } else if cp == 0xF9FF {
        Some("\u{523A}")
    } else if cp == 0xFA00 {
        Some("\u{5207}")
    } else if cp == 0xFA01 {
        Some("\u{5EA6}")
    } else if cp == 0xFA02 {
        Some("\u{62D3}")
    } else if cp == 0xFA03 {
        Some("\u{7CD6}")
    } else if cp == 0xFA04 {
        Some("\u{5B85}")
    } else if cp == 0xFA05 {
        Some("\u{6D1E}")
    } else if cp == 0xFA06 {
        Some("\u{66B4}")
    } else if cp == 0xFA07 {
        Some("\u{8F3B}")
    } else if cp == 0xFA08 {
        Some("\u{884C}")
    } else if cp == 0xFA09 {
        Some("\u{964D}")
    } else if cp == 0xFA0A {
        Some("\u{898B}")
    } else if cp == 0xFA0B {
        Some("\u{5ED3}")
    } else if cp == 0xFA0C {
        Some("\u{5140}")
    } else if cp == 0xFA0D {
        Some("\u{55C0}")
    } else if cp == 0xFA10 {
        Some("\u{585A}")
    } else if cp == 0xFA12 {
        Some("\u{6674}")
    } else if cp == 0xFA15 {
        Some("\u{51DE}")
    } else if cp == 0xFA16 {
        Some("\u{732A}")
    } else if cp == 0xFA17 {
        Some("\u{76CA}")
    } else if cp == 0xFA18 {
        Some("\u{793C}")
    } else if cp == 0xFA19 {
        Some("\u{795E}")
    } else if cp == 0xFA1A {
        Some("\u{7965}")
    } else if cp == 0xFA1B {
        Some("\u{798F}")
    } else if cp == 0xFA1C {
        Some("\u{9756}")
    } else if cp == 0xFA1D {
        Some("\u{7CBE}")
    } else {
        None
    }
}

fn canonical_decomposition_of_19(cp: u32) -> (r: Option<&'static str>)
    ensures
        r == canonical_decomposition_19(cp),
{
    if cp == 0xF9D9 {
        Some("\u{6144}")
    } else if cp == 0xF9DA {
        Some("\u{6817}")
    } else if cp == 0xF9DB {
        Some("\u{7387}")
    } else if cp == 0xF9DC {
        Some("\u{9686}")
    } else if cp == 0xF9DD {
        Some("\u{5229}")
    } else if cp == 0xF9DE {
        Some("\u{540F}")
    } else if cp == 0xF9DF {
        Some("\u{5C65}")
    } else if cp == 0xF9E0 {
        Some("\u{6613}")
    } else if cp == 0xF9E1 {
        Some("\u{674E}")
    } else if cp == 0xF9E2 {
        Some("\u{68A8}")
    } else if cp == 0xF9E3 {
        Some("\u{6CE5}")
    } else if cp == 0xF9E4 {
        Some("\u{7406}")
    } else if cp == 0xF9E5 {
        Some("\u{75E2}")
    } else if cp == 0xF9E6 {
        Some("\u{7F79}")
    } else if cp == 0xF9E7 {
        Some("\u{88CF}")
    } else if cp == 0xF9E8 {
        Some("\u{88E1}")
    } else if cp == 0xF9E9 {
        Some("\u{91CC}")
    } else if cp == 0xF9EA {
        Some("\u{96E2}")
    } else if cp == 0xF9EB {
        Some("\u{533F}")
    } else if cp == 0xF9EC {
        Some("\u{6EBA}")
    } else if cp == 0xF9ED {
        Some("\u{541D}")
    } else if cp == 0xF9EE {
        Some("\u{71D0}")
    } else if cp == 0xF9EF {
        Some("\u{7498}")
    } else if cp == 0xF9F0 {
        Some("\u{85FA}")
    } else if cp == 0xF9F1 {
        Some("\u{96A3}")
    } else if cp == 0xF9F2 {
        Some("\u{9C57}")
    } else if cp == 0xF9F3 {
        Some("\u{9E9F}")
    } else if cp == 0xF9F4 {
        Some("\u{6797}")
    } else if cp == 0xF9F5 {
        Some("\u{6DCB}")
    } else if cp == 0xF9F6 {
        Some("\u{81E8}")
    } else if cp == 0xF9F7 {
        Some("\u{7ACB}")
    } else if cp == 0xF9F8 {
        Some("\u{7B20}")
    } else if cp == 0xF9F9 {
        Some("\u{7C92}")
    } else if cp == 0xF9FA {
        Some("\u{72C0}")
    } else if cp == 0xF9FB {
        Some("\u{7099}")
    } else if cp == 0xF9FC {
        Some("\u{8B58}")
    } else if cp == 0xF9FD {
        Some("\u{4EC0}")
    } else if cp == 0xF9FE {
        Some("\u{8336}")
    } else if cp == 0xF9FF {
        Some("\u{523A}")
    } else if cp == 0xFA00 {
        Some("\u{5207}")
    } else if cp == 0xFA01 {
        Some("\u{5EA6}")
    } else if cp == 0xFA02 {
        Some("\u{62D3}")
    } else if cp == 0xFA03 {
        Some("\u{7CD6}")
    } else if cp == 0xFA04 {
        Some("\u{5B85}")
    } else if cp == 0xFA05 {
        Some("\u{6D1E}")
    } else if cp == 0xFA06 {
        Some("\u{66B4}")
    } else if cp == 0xFA07 {
        Some("\u{8F3B}")
    } else if cp == 0xFA08 {
        Some("\u{884C}")
    } else if cp == 0xFA09 {
        Some("\u{964D}")
    } else if cp == 0xFA0A {
        Some("\u{898B}")
    } else if cp == 0xFA0B {
        Some("\u{5ED3}")
    } else if cp == 0xFA0C {
        Some("\u{5140}")
    } else if cp == 0xFA0D {
        Some("\u{55C0}")
    } else if cp == 0xFA10 {
        Some("\u{585A}")
    } else if cp == 0xFA12 {
        Some("\u{6674}")
    } else if cp == 0xFA15 {
        Some("\u{51DE}")
    } else if cp == 0xFA16 {
        Some("\u{732A}")
    } else if cp == 0xFA17 {
        Some("\u{76CA}")
    } else if cp == 0xFA18 {
        Some("\u{793C}")
    } else if cp == 0xFA19 {
        Some("\u{795E}")
    } else if cp == 0xFA1A {
        Some("\u{7965}")
    } else if cp == 0xFA1B {
        Some("\u{798F}")
    } else if cp == 0xFA1C {
        Some("\u{9756}")
    } else if cp == 0xFA1D {
        Some("\u{7CBE}")
    } else {
        None
    }
}

/// One part of the table [`canonical_decomposition`], by code point.
pub open spec fn canonical_decomposition_20(cp: u32) -> Option<&'static str> {
    if cp == 0xFA1E {
        Some("\u{7FBD}")
    } else if cp == 0xFA20 {
        Some("\u{8612}")
    } else if cp == 0xFA22 {
        Some("\u{8AF8}")
    } else if cp == 0xFA25 {
        Some("\u{9038}")
    } else if cp == 0xFA26 {
        Some("\u{90FD}")
    } else if cp == 0xFA2A {
        Some("\u{98EF}")
    } else if cp == 0xFA2B {
        Some("\u{98FC}")
    } else if cp == 0xFA2C {
        Some("\u{9928}")
    } else if cp == 0xFA2D {
        Some("\u{9DB4}")
    } else if cp == 0xFA2E {
        Some("\u{90DE}")
    } else if cp == 0xFA2F {
        Some("\u{96B7}")
    } else if cp == 0xFA30 {
        Some("\u{4FAE}")
    } else if cp == 0xFA31 {
        Some("\u{50E7}")
    } else if cp == 0xFA32 {
        Some("\u{514D}")
    } else if cp == 0xFA33 {
        Some("\u{52C9}")
    } else if cp == 0xFA34 {
        Some("\u{52E4}")
    } else if cp == 0xFA35 {
        Some("\u{5351}")
    } else if cp == 0xFA36 {
        Some("\u{559D}")
    } else if cp == 0xFA37 {
        Some("\u{5606}")
    } else if cp == 0xFA38 {
        Some("\u{5668}")
    } else if cp == 0xFA39 {
        Some("\u{5840}")
    } else if cp == 0xFA3A {
        Some("\u{58A8}")
    } else if cp == 0xFA3B {
        Some("\u{5C64}")
    } else if cp == 0xFA3C {
        Some("\u{5C6E}")
    } else if cp == 0xFA3D {
        Some("\u{6094}")
    } else if cp == 0xFA3E {
        Some("\u{6168}")
    } else if cp == 0xFA3F {
        Some("\u{618E}")
    } else if cp == 0xFA40 {
        Some("\u{61F2}")
    } else if cp == 0xFA41 {
        Some("\u{654F}")
    } else if cp == 0xFA42 {
        Some("\u{65E2}")
    } else if cp == 0xFA43 {
        Some("\u{6691}")
    } else if cp == 0xFA44 {
        Some("\u{6885}")
    } else if cp == 0xFA45 {
        Some("\u{6D77}")
    } else if cp == 0xFA46 {
        Some("\u{6E1A}")
    } else if cp == 0xFA47 {
        Some("\u{6F22}")
    } else if cp == 0xFA48 {
        Some("\u{716E}")
    } else if cp == 0xFA49 {
        Some("\u{722B}")
    } else if cp == 0xFA4A {
        Some("\u{7422}")
    } else if cp == 0xFA4B {
        Some("\u{7891}")
    } else if cp == 0xFA4C {
        Some("\u{793E}")
    } else if cp == 0xFA4D {
        Some("\u{7949}")
    } else if cp == 0xFA4E {
        Some("\u{7948}")
    } else if cp == 0xFA4F {
        Some("\u{7950}")
    } else if cp == 0xFA50 {
        Some("\u{7956}")
    } else if cp == 0xFA51 {
        Some("\u{795D}")
    } else if cp == 0xFA52 {
        Some("\u{798D}")
    } else if cp == 0xFA53 {
        Some("\u{798E}")
    } else if cp == 0xFA54 {
        Some("\u{7A40}")
    } else if cp == 0xFA55 {
        Some("\u{7A81}")
    } else if cp == 0xFA56 {
        Some("\u{7BC0}")
    } else if cp == 0xFA57 {
        Some("\u{7DF4}")
    } else if cp == 0xFA58 {
        Some("\u{7E09}")
    } else if cp == 0xFA59 {
        Some("\u{7E41}")
    } else if cp == 0xFA5A {
        Some("\u{7F72}")
    } else if cp == 0xFA5B {
        Some("\u{8005}")
    } else if cp == 0xFA5C {
        Some("\u{81ED}")
    } else if cp == 0xFA5D {
        Some("\u{8279}")
    } else if cp == 0xFA5E {
        Some("\u{8279}")
    } else if cp == 0xFA5F {
        Some("\u{8457}")
    } else if cp == 0xFA60 {
        Some("\u{8910}")
    } else if cp == 0xFA61 {
        Some("\u{8996}")
    } else if cp == 0xFA62 {
        Some("\u{8B01}")
    } else if cp == 0xFA63 {
        Some("\u{8B39}")
    } else if cp == 0xFA64 {
        Some("\u{8CD3}")
    } else {
        None
    }
}

fn canonical_decomposition_of_20(cp: u32) -> (r: Option<&'static str>)
    ensures
        r == canonical_decomposition_20(cp),
{
    if cp == 0xFA1E {
        Some("\u{7FBD}")
    } else if cp == 0xFA20 {
        Some("\u{8612}")
    } else if cp == 0xFA22 {
        Some("\u{8AF8}")
    } else if cp == 0xFA25 {
        Some("\u{9038}")
    } else if cp == 0xFA26 {
        Some("\u{90FD}")
    } else if cp == 0xFA2A {
        Some("\u{98EF}")
    } else if cp == 0xFA2B {
        Some("\u{98FC}")
    } else if cp == 0xFA2C {
        Some("\u{9928}")
    } else if cp == 0xFA2D {
        Some("\u{9DB4}")
    } else if cp == 0xFA2E {
        Some("\u{90DE}")
    } else if cp == 0xFA2F {
        Some("\u{96B7}")
    } else if cp == 0xFA30 {
        Some("\u{4FAE}")
    } else if cp == 0xFA31 {
        Some("\u{50E7}")
    } else if cp == 0xFA32 {
        Some("\u{514D}")
    } else if cp == 0xFA33 {
        Some("\u{52C9}")
    } else if cp == 0xFA34 {
        Some("\u{52E4}")
    } else if cp == 0xFA35 {
        Some("\u{5351}")
    } else if cp == 0xFA36 {
        Some("\u{559D}")
    } else if cp == 0xFA37 {
        Some("\u{5606}")
    } else if cp == 0xFA38 {
        Some("\u{5668}")
    } else if cp == 0xFA39 {
        Some("\u{5840}")
    } else if cp == 0xFA3A {
        Some("\u{58A8}")
    } else if cp == 0xFA3B {
        Some("\u{5C64}")
    } else if cp == 0xFA3C {
        Some("\u{5C6E}")
    } else if cp == 0xFA3D {
        Some("\u{6094}")
    } else if cp == 0xFA3E {
        Some("\u{6168}")
    } else if cp == 0xFA3F {
        Some("\u{618E}")
    } else if cp == 0xFA40 {
        Some("\u{61F2}")
    } else if cp == 0xFA41 {
        Some("\u{654F}")
    } else if cp == 0xFA42 {
        Some("\u{65E2}")
    } else if cp == 0xFA43 {
        Some("\u{6691}")
    } else if cp == 0xFA44 {
        Some("\u{6885}")
    } else if cp == 0xFA45 {
        Some("\u{6D77}")
    } else if cp == 0xFA46 {
        Some("\u{6E1A}")
    } else if cp == 0xFA47 {
        Some("\u{6F22}")
    } else if cp == 0xFA48 {
        Some("\u{716E}")
    } else if cp == 0xFA49 {
        Some("\u{722B}")
    } else if cp == 0xFA4A {
        Some("\u{7422}")
    } else if cp == 0xFA4B {
        Some("\u{7891}")
    } else if cp == 0xFA4C {
        Some("\u{793E}")
    } else if cp == 0xFA4D {
        Some("\u{7949}")
    } else if cp == 0xFA4E {
        Some("\u{7948}")
    } else if cp == 0xFA4F {
        Some("\u{7950}")
    } else if cp == 0xFA50 {
        Some("\u{7956}")
    } else if cp == 0xFA51 {
        Some("\u{795D}")
    } else if cp == 0xFA52 {
        Some("\u{798D}")
    } else if cp == 0xFA53 {
        Some("\u{798E}")
    } else if cp == 0xFA54 {
        Some("\u{7A40}")
    } else if cp == 0xFA55 {
        Some("\u{7A81}")
    } else if cp == 0xFA56 {
        Some("\u{7BC0}")
    } else if cp == 0xFA57 {
        Some("\u{7DF4}")
    } else if cp == 0xFA58 {
        Some("\u{7E09}")
    } else if cp == 0xFA59 {
        Some("\u{7E41}")
    } else if cp == 0xFA5A {
        Some("\u{7F72}")
    } else if cp == 0xFA5B {
        Some("\u{8005}")
    } else if cp == 0xFA5C {
        Some("\u{81ED}")
    } else if cp == 0xFA5D {
        Some("\u{8279}")
    } else if cp == 0xFA5E {
        Some("\u{8279}")
    } else if cp == 0xFA5F {
        Some("\u{8457}")
    } else if cp == 0xFA60 {
        Some("\u{8910}")
    } else if cp == 0xFA61 {
        Some("\u{8996}")
    } else if cp == 0xFA62 {
        Some("\u{8B01}")
    } else if cp == 0xFA63 {
        Some("\u{8B39}")
    } else if cp == 0xFA64 {
        Some("\u{8CD3}")
    } else {
        None
    }
}

/// One part of the table [`canonical_decomposition`], by code point.
pub open spec fn canonical_decomposition_21(cp: u32) -> Option<&'static str> {
    if cp == 0xFA65 {
        Some("\u{8D08}")
    } else if cp == 0xFA66 {
        Some("\u{8FB6}")
    } else if cp == 0xFA67 {
        Some("\u{9038}")
    } else if cp == 0xFA68 {
        Some("\u{96E3}")
    } else if cp == 0xFA69 {
        Some("\u{97FF}")
    } else if cp == 0xFA6A {
        Some("\u{983B}")
    } else if cp == 0xFA6B {
        Some("\u{6075}")
    } else if cp == 0xFA6C {
        Some("\u{242EE}")
    } else if cp == 0xFA6D {
        Some("\u{8218}")
    } else if cp == 0xFA70 {
        Some("\u{4E26}")
    } else if cp == 0xFA71 {
        Some("\u{51B5}")
    } else if cp == 0xFA72 {
        Some("\u{5168}")
    } else if cp == 0xFA73 {
        Some("\u{4F80}")
    } else if cp == 0xFA74 {
        Some("\u{5145}")
    } else if cp == 0xFA75 {
        Some("\u{5180}")
    } else if cp == 0xFA76 {
        Some("\u{52C7}")
    } else if cp == 0xFA77 {
        Some("\u{52FA}")
    } else if cp == 0xFA78 {
        Some("\u{559D}")
    } else if cp == 0xFA79 {
        Some("\u{5555}")
    } else if cp == 0xFA7A {
        Some("\u{5599}")
    } else if cp == 0xFA7B {
        Some("\u{55E2}")
    } else if cp == 0xFA7C {
        Some("\u{585A}")
    } else if cp == 0xFA7D {
        Some("\u{58B3}")
    } else if cp == 0xFA7E {
        Some("\u{5944}")
    } else if cp == 0xFA7F {
        Some("\u{5954}")
    } else if cp == 0xFA80 {
        Some("\u{5A62}")
    } else if cp == 0xFA81 {
        Some("\u{5B28}")
    } else if cp == 0xFA82 {
        Some("\u{5ED2}")
    } else if cp == 0xFA83 {
        Some("\u{5ED9}")
    } else if cp == 0xFA84 {
        Some("\u{5F69}")
    } else if cp == 0xFA85 {
        Some("\u{5FAD}")
    } else if cp == 0xFA86 {
        Some("\u{60D8}")
    } else if cp == 0xFA87 {
        Some("\u{614E}")
    } else if cp == 0xFA88 {
        Some("\u{6108}")
    } else if cp == 0xFA89 {
        Some("\u{618E}")
    } else if cp == 0xFA8A {
        Some("\u{6160}")
    } else if cp == 0xFA8B {
        Some("\u{61F2}")
    } else if cp == 0xFA8C {
        Some("\u{6234}")
    } else if cp == 0xFA8D {
        Some("\u{63C4}")
    } else if cp == 0xFA8E {
        Some("\u{641C}")
    } else if cp == 0xFA8F {
        Some("\u{6452}")
    } else if cp == 0xFA90 {
        Some("\u{6556}")
    } else if cp == 0xFA91 {
        Some("\u{6674}")
    } else if cp == 0xFA92 {
        Some("\u{6717}")
    } else if cp == 0xFA93 {
        Some("\u{671B}")
    } else if cp == 0xFA94 {
        Some("\u{6756}")
    } else if cp == 0xFA95 {
        Some("\u{6B79}")
    } else if cp == 0xFA96 {
        Some("\u{6BBA}")
    } else if cp == 0xFA97 {
        Some("\u{6D41}")
    } else if cp == 0xFA98 {
        Some("\u{6EDB}")
    } else if cp == 0xFA99 {
        Some("\u{6ECB}")
    } else if cp == 0xFA9A {
        Some("\u{6F22}")
    } else if cp == 0xFA9B {
        Some("\u{701E}")
    } else if cp == 0xFA9C {
        Some("\u{716E}")
    } else if cp == 0xFA9D {
        Some("\u{77A7}")
    } else if cp == 0xFA9E {
        Some("\u{7235}")
    } else if cp == 0xFA9F {
        Some("\u{72AF}")
    } else if cp == 0xFAA0 {
        Some("\u{732A}")
    } else if cp == 0xFAA1 {
        Some("\u{7471}")
    } else if cp == 0xFAA2 {
        Some("\u{7506}")
    } else if cp == 0xFAA3 {
        Some("\u{753B}")
    } else if cp == 0xFAA4 {
        Some("\u{761D}")
    } else if cp == 0xFAA5 {
        Some("\u{761F}")
    } else if cp == 0xFAA6 {
        Some("\u{76CA}")
    } else {
        None
    }
}

fn canonical_decomposition_of_21(cp: u32) -> (r: Option<&'static str>)
    ensures
        r == canonical_decomposition_21(cp),
{
    if cp == 0xFA65 {
        Some("\u{8D08}")
    } else if cp == 0xFA66 {
        Some("\u{8FB6}")
    } else if cp == 0xFA67 {
        Some("\u{9038}")
    } else if cp == 0xFA68 {
        Some("\u{96E3}")
    } else if cp == 0xFA69 {
        Some("\u{97FF}")
    } else if cp == 0xFA6A {
        Some("\u{983B}")
    } else if cp == 0xFA6B {
        Some("\u{6075}")
    } else if cp == 0xFA6C {
        Some("\u{242EE}")
    } else if cp == 0xFA6D {
        Some("\u{8218}")
    } else if cp == 0xFA70 {
        Some("\u{4E26}")
    } else if cp == 0xFA71 {
        Some("\u{51B5}")
    } else if cp == 0xFA72 {
        Some("\u{5168}")
    } else if cp == 0xFA73 {
        Some("\u{4F80}")
    } else if cp == 0xFA74 {
        Some("\u{5145}")
    } else if cp == 0xFA75 {
        Some("\u{5180}")
    } else if cp == 0xFA76 {
        Some("\u{52C7}")
    } else if cp == 0xFA77 {
        Some("\u{52FA}")
    } else if cp == 0xFA78 {
        Some("\u{559D}")
    } else if cp == 0xFA79 {
        Some("\u{5555}")
    } else if cp == 0xFA7A {
        Some("\u{5599}")
    } else if cp == 0xFA7B {
        Some("\u{55E2}")
    } else if cp == 0xFA7C {
        Some("\u{585A}")
    } else if cp == 0xFA7D {
        Some("\u{58B3}")
    } else if cp == 0xFA7E {
        Some("\u{5944}")
    } else if cp == 0xFA7F {
        Some("\u{5954}")
    } else if cp == 0xFA80 {
        Some("\u{5A62}")
    } else if cp == 0xFA81 {
        Some("\u{5B28}")
    } else if cp == 0xFA82 {
        Some("\u{5ED2}")
    } else if cp == 0xFA83 {
        Some("\u{5ED9}")
    } else if cp == 0xFA84 {
        Some("\u{5F69}")
    } else if cp == 0xFA85 {
        Some("\u{5FAD}")
    } else if cp == 0xFA86 {
        Some("\u{60D8}")
    } else if cp == 0xFA87 {
        Some("\u{614E}")
    } else if cp == 0xFA88 {
        Some("\u{6108}")
    } else if cp == 0xFA89 {
        Some("\u{618E}")
    } else if cp == 0xFA8A {
        Some("\u{6160}")
    } else if cp == 0xFA8B {
        Some("\u{61F2}")
    } else if cp == 0xFA8C {
        Some("\u{6234}")
    } else if cp == 0xFA8D {
        Some("\u{63C4}")
    } else if cp == 0xFA8E {
        Some("\u{641C}")
    } else if cp == 0xFA8F {
        Some("\u{6452}")
    } else if cp == 0xFA90 {
        Some("\u{6556}")
    } else if cp == 0xFA91 {
        Some("\u{6674}")
    } else if cp == 0xFA92 {
        Some("\u{6717}")
    } else if cp == 0xFA93 {
        Some("\u{671B}")
    } else if cp == 0xFA94 {
        Some("\u{6756}")
    } else if cp == 0xFA95 {
        Some("\u{6B79}")
    } else if cp == 0xFA96 {
        Some("\u{6BBA}")
    } else if cp == 0xFA97 {
        Some("\u{6D41}")
    } else if cp == 0xFA98 {
        Some("\u{6EDB}")
    } else if cp == 0xFA99 {
        Some("\u{6ECB}")
    } else if cp == 0xFA9A {
        Some("\u{6F22}")
    } else if cp == 0xFA9B {
        Some("\u{701E}")
    } else if cp == 0xFA9C {
        Some("\u{716E}")
    } else if cp == 0xFA9D {
        Some("\u{77A7}")
    } else if cp == 0xFA9E {
        Some("\u{7235}")
    } else if cp == 0xFA9F {
        Some("\u{72AF}")
    } else if cp == 0xFAA0 {
        Some("\u{732A}")
    } else if cp == 0xFAA1 {
        Some("\u{7471}")
    } else if cp == 0xFAA2 {
        Some("\u{7506}")
    } else if cp == 0xFAA3 {
        Some("\u{753B}")
    } else if cp == 0xFAA4 {
        Some("\u{761D}")
    } else if cp == 0xFAA5 {
        Some("\u{761F}")
    } else if cp == 0xFAA6 {
        Some("\u{76CA}")
    } else {
        None
    }
}

/// One part of the table [`canonical_decomposition`], by code point.
pub open spec fn canonical_decomposition_22(cp: u32) -> Option<&'static str> {
    if cp == 0xFAA7 {
        Some("\u{76DB}")
    } else if cp == 0xFAA8 {
        Some("\u{76F4}")
    } else if cp == 0xFAA9 {
        Some("\u{774A}")
    } else if cp == 0xFAAA {
        Some("\u{7740}")
    } else if cp == 0xFAAB {
        Some("\u{78CC}")
    } else if cp == 0xFAAC {
        Some("\u{7AB1}")
    } else if cp == 0xFAAD {
        Some("\u{7BC0}")
    } else if cp == 0xFAAE {
        Some("\u{7C7B}")
    } else if cp == 0xFAAF {
        Some("\u{7D5B}")
    } else if cp == 0xFAB0 {
        Some("\u{7DF4}")
    } else if cp == 0xFAB1 {
        Some("\u{7F3E}")
    } else if cp == 0xFAB2 {
        Some("\u{8005}")
    } else if cp == 0xFAB3 {
        Some("\u{8352}")
    } else if cp == 0xFAB4 {
        Some("\u{83EF}")
    } else if cp == 0xFAB5 {
        Some("\u{8779}")
    } else if cp == 0xFAB6 {
        Some("\u{8941}")
    } else if cp == 0xFAB7 {
        Some("\u{8986}")
    } else if cp == 0xFAB8 {
        Some("\u{8996}")
    } else if cp == 0xFAB9 {
        Some("\u{8ABF}")
    } else if cp == 0xFABA {
        Some("\u{8AF8}")
    } else if cp == 0xFABB {
        Some("\u{8ACB}")
    } else if cp == 0xFABC {
        Some("\u{8B01}")
    } else if cp == 0xFABD {
        Some("\u{8AFE}")
    } else if cp == 0xFABE {
        Some("\u{8AED}")
    } else if cp == 0xFABF {
        Some("\u{8B39}")
    } else if cp == 0xFAC0 {
        Some("\u{8B8A}")
    } else if cp == 0xFAC1 {
        Some("\u{8D08}")
    } else if cp == 0xFAC2 {
        Some("\u{8F38}")
    } else if cp == 0xFAC3 {
        Some("\u{9072}")
    } else if cp == 0xFAC4 {
        Some("\u{9199}")
    } else if cp == 0xFAC5 {
        Some("\u{9276}")
    } else if cp == 0xFAC6 {
        Some("\u{967C}")
    } else if cp == 0xFAC7 {
        Some("\u{96E3}")
    } else if cp == 0xFAC8 {
        Some("\u{9756}")
    } else if cp == 0xFAC9 {
        Some("\u{97DB}")
    } else if cp == 0xFACA {
        Some("\u{97FF}")
    } else if cp == 0xFACB {
        Some("\u{980B}")
    } else if cp == 0xFACC {
        Some("\u{983B}")
    } else if cp == 0xFACD {
        Some("\u{9B12}")
    } else if cp == 0xFACE {
        Some("\u{9F9C}")
    } else if cp == 0xFACF {
        Some("\u{2284A}")
    } else if cp == 0xFAD0 {
        Some("\u{22844}")
    } else if cp == 0xFAD1 {
        Some("\u{233D5}")
    } else if cp == 0xFAD2 {
        Some("\u{3B9D}")
    } else if cp == 0xFAD3 {
        Some("\u{4018}")
    } else if cp == 0xFAD4 {
        Some("\u{4039}")
    } else if cp == 0xFAD5 {
        Some("\u{25249}")
    } else if cp == 0xFAD6 {
        Some("\u{25CD0}")
    } else if cp == 0xFAD7 {
        Some("\u{27ED3}")
    } else if cp == 0xFAD8 {
        Some("\u{9F43}")
    } else if cp == 0xFAD9 {
        Some("\u{9F8E}")
    } else if cp == 0xFB1D {
        Some("\u{5D9}\u{5B4}")
    } else if cp == 0xFB1F {
        Some("\u{5F2}\u{5B7}")
    } else if cp == 0xFB2A {
        Some("\u{5E9}\u{5C1}")
    } else if cp == 0xFB2B {
        Some("\u{5E9}\u{5C2}")
    } else if cp == 0xFB2C {
        Some("\u{5E9}\u{5BC}\u{5C1}")
    } else if cp == 0xFB2D {
        Some("\u{5E9}\u{5BC}\u{5C2}")
    } else if cp == 0xFB2E {
        Some("\u{5D0}\u{5B7}")
    } else if cp == 0xFB2F {
        Some("\u{5D0}\u{5B8}")
    } else if cp == 0xFB30 {
        Some("\u{5D0}\u{5BC}")
    } else if cp == 0xFB31 {
        Some("\u{5D1}\u{5BC}")
    } else if cp == 0xFB32 {
        Some("\u{5D2}\u{5BC}")
    } else if cp == 0xFB33 {
        Some("\u{5D3}\u{5BC}")
    } else if cp == 0xFB34 {
        Some("\u{5D4}\u{5BC}")
    } else {
        None
    }
}

fn canonical_decomposition_of_22(cp: u32) -> (r: Option<&'static str>)
    ensures
        r == canonical_decomposition_22(cp),
{
    if cp == 0xFAA7 {
        Some("\u{76DB}")
    } else if cp == 0xFAA8 {
        Some("\u{76F4}")
    } else if cp == 0xFAA9 {
        Some("\u{774A}")
    } else if cp == 0xFAAA {
        Some("\u{7740}")
    } else if cp == 0xFAAB {
        Some("\u{78CC}")
    } else if cp == 0xFAAC {
        Some("\u{7AB1}")
    } else if cp == 0xFAAD {
        Some("\u{7BC0}")
    } else if cp == 0xFAAE {
        Some("\u{7C7B}")
    } else if cp == 0xFAAF {
        Some("\u{7D5B}")
    } else if cp == 0xFAB0 {
        Some("\u{7DF4}")
    } else if cp == 0xFAB1 {
        Some("\u{7F3E}")
    } else if cp == 0xFAB2 {
        Some("\u{8005}")
    } else if cp == 0xFAB3 {
        Some("\u{8352}")
    } else if cp == 0xFAB4 {
        Some("\u{83EF}")
    } else if cp == 0xFAB5 {
        Some("\u{8779}")
    } else if cp == 0xFAB6 {
        Some("\u{8941}")
    } else if cp == 0xFAB7 {
        Some("\u{8986}")
    } else if cp == 0xFAB8 {
        Some("\u{8996}")
    } else if cp == 0xFAB9 {
        Some("\u{8ABF}")
    } else if cp == 0xFABA {
        Some("\u{8AF8}")
    } else if cp == 0xFABB {
        Some("\u{8ACB}")
    } else if cp == 0xFABC {
        Some("\u{8B01}")
    } else if cp == 0xFABD {
        Some("\u{8AFE}")
    } else if cp == 0xFABE {
        Some("\u{8AED}")
    } else if cp == 0xFABF {
        Some("\u{8B39}")
    } else if cp == 0xFAC0 {
        Some("\u{8B8A}")
    } else if cp == 0xFAC1 {
        Some("\u{8D08}")
    } else if cp == 0xFAC2 {
        Some("\u{8F38}")
    } else if cp == 0xFAC3 {
        Some("\u{9072}")
    } else if cp == 0xFAC4 {
        Some("\u{9199}")
    } else if cp == 0xFAC5 {
        Some("\u{9276}")
    } else if cp == 0xFAC6 {
        Some("\u{967C}")
    } else if cp == 0xFAC7 {
        Some("\u{96E3}")
    } else if cp == 0xFAC8 {
        Some("\u{9756}")
    } else if cp == 0xFAC9 {
        Some("\u{97DB}")
    } else if cp == 0xFACA {
        Some("\u{97FF}")
    } else if cp == 0xFACB {
        Some("\u{980B}")
    } else if cp == 0xFACC {
        Some("\u{983B}")
    } else if cp == 0xFACD {
        Some("\u{9B12}")
    } else if cp == 0xFACE {
        Some("\u{9F9C}")
    } else if cp == 0xFACF {
        Some("\u{2284A}")
    } else if cp == 0xFAD0 {
        Some("\u{22844}")
    } else if cp == 0xFAD1 {
        Some("\u{233D5}")
    } else if cp == 0xFAD2 {
        Some("\u{3B9D}")
    } else if cp == 0xFAD3 {
        Some("\u{4018}")
    } else if cp == 0xFAD4 {
        Some("\u{4039}")
    } else if cp == 0xFAD5 {
        Some("\u{25249}")
    } else if cp == 0xFAD6 {
        Some("\u{25CD0}")
    } else if cp == 0xFAD7 {
        Some("\u{27ED3}")
    } else if cp == 0xFAD8 {
        Some("\u{9F43}")
    } else if cp == 0xFAD9 {
        Some("\u{9F8E}")
    } else if cp == 0xFB1D {
        Some("\u{5D9}\u{5B4}")
    } else if cp == 0xFB1F {
        Some("\u{5F2}\u{5B7}")
    } else if cp == 0xFB2A {
        Some("\u{5E9}\u{5C1}")
    } else if cp == 0xFB2B {
        Some("\u{5E9}\u{5C2}")
    } else if cp == 0xFB2C {
        Some("\u{5E9}\u{5BC}\u{5C1}")
    } else if cp == 0xFB2D {
        Some("\u{5E9}\u{5BC}\u{5C2}")
    } else if cp == 0xFB2E {
        Some("\u{5D0}\u{5B7}")
    } else if cp == 0xFB2F {
        Some("\u{5D0}\u{5B8}")
    } else if cp == 0xFB30 {
        Some("\u{5D0}\u{5BC}")
    } else if cp == 0xFB31 {
        Some("\u{5D1}\u{5BC}")
    } else if cp == 0xFB32 {
        Some("\u{5D2}\u{5BC}")
    } else if cp == 0xFB33 {
        Some("\u{5D3}\u{5BC}")
    } else if cp == 0xFB34 {
        Some("\u{5D4}\u{5BC}")
    } else {
        None
    }
}

/// One part of the table [`canonical_decomposition`], by code point.
pub open spec fn canonical_decomposition_23(cp: u32) -> Option<&'static str> {
    if cp == 0xFB35 {
        Some("\u{5D5}\u{5BC}")
    } else if cp == 0xFB36 {
        Some("\u{5D6}\u{5BC}")
    } else if cp == 0xFB38 {
        Some("\u{5D8}\u{5BC}")
    } else if cp == 0xFB39 {
        Some("\u{5D9}\u{5BC}")
    } else if cp == 0xFB3A {
        Some("\u{5DA}\u{5BC}")
    } else if cp == 0xFB3B {
        Some("\u{5DB}\u{5BC}")
    } else if cp == 0xFB3C {
        Some("\u{5DC}\u{5BC}")
    } else if cp == 0xFB3E {
        Some("\u{5DE}\u{5BC}")
    } else if cp == 0xFB40 {
        Some("\u{5E0}\u{5BC}")
    } else if cp == 0xFB41 {
        Some("\u{5E1}\u{5BC}")
    } else if cp == 0xFB43 {
        Some("\u{5E3}\u{5BC}")
    } else if cp == 0xFB44 {
        Some("\u{5E4}\u{5BC}")
    } else if cp == 0xFB46 {
        Some("\u{5E6}\u{5BC}")
    } else if cp == 0xFB47 {
        Some("\u{5E7}\u{5BC}")
    } else if cp == 0xFB48 {
        Some("\u{5E8}\u{5BC}")
    } else if cp == 0xFB49 {
        Some("\u{5E9}\u{5BC}")
    } else if cp == 0xFB4A {
        Some("\u{5EA}\u{5BC}")
    } else if cp == 0xFB4B {
        Some("\u{5D5}\u{5B9}")
    } else if cp == 0xFB4C {
        Some("\u{5D1}\u{5BF}")
    } else if cp == 0xFB4D {
        Some("\u{5DB}\u{5BF}")
    } else if cp == 0xFB4E {
        Some("\u{5E4}\u{5BF}")
    } else if cp == 0x1109A {
        Some("\u{11099}\u{110BA}")
    } else if cp == 0x1109C {
        Some("\u{1109B}\u{110BA}")
    } else if cp == 0x110AB {
        Some("\u{110A5}\u{110BA}")
    } else if cp == 0x1112E {
        Some("\u{11131}\u{11127}")
    } else if cp == 0x1112F {
        Some("\u{11132}\u{11127}")
    } else if cp == 0x1134B {
        Some("\u{11347}\u{1133E}")
    } else if cp == 0x1134C {
        Some("\u{11347}\u{11357}")
    } else if cp == 0x114BB {
        Some("\u{114B9}\u{114BA}")
    } else if cp == 0x114BC {
        Some("\u{114B9}\u{114B0}")
    } else if cp == 0x114BE {
        Some("\u{114B9}\u{114BD}")
    } else if cp == 0x115BA {
        Some("\u{115B8}\u{115AF}")
    } else if cp == 0x115BB {
        Some("\u{115B9}\u{115AF}")
    } else if cp == 0x11938 {
        Some("\u{11935}\u{11930}")
    } else if cp == 0x1D15E {
        Some("\u{1D157}\u{1D165}")
    } else if cp == 0x1D15F {
        Some("\u{1D158}\u{1D165}")
    } else if cp == 0x1D160 {
        Some("\u{1D158}\u{1D165}\u{1D16E}")
    } else if cp == 0x1D161 {
        Some("\u{1D158}\u{1D165}\u{1D16F}")
    } else if cp == 0x1D162 {
        Some("\u{1D158}\u{1D165}\u{1D170}")
    } else if cp == 0x1D163 {
        Some("\u{1D158}\u{1D165}\u{1D171}")
    } else if cp == 0x1D164 {
        Some("\u{1D158}\u{1D165}\u{1D172}")
    } else if cp == 0x1D1BB {
        Some("\u{1D1B9}\u{1D165}")
    } else if cp == 0x1D1BC {
        Some("\u{1D1BA}\u{1D165}")
    } else if cp == 0x1D1BD {
        Some("\u{1D1B9}\u{1D165}\u{1D16E}")
    } else if cp == 0x1D1BE {
        Some("\u{1D1BA}\u{1D165}\u{1D16E}")
    } else if cp == 0x1D1BF {
        Some("\u{1D1B9}\u{1D165}\u{1D16F}")
    } else if cp == 0x1D1C0 {
        Some("\u{1D1BA}\u{1D165}\u{1D16F}")
    } else if cp == 0x2F800 {
        Some("\u{4E3D}")
    } else if cp == 0x2F801 {
        Some("\u{4E38}")
    } else if cp == 0x2F802 {
        Some("\u{4E41}")
    } else if cp == 0x2F803 {
        Some("\u{20122}")
    } else if cp == 0x2F804 {
        Some("\u{4F60}")
    } else if cp == 0x2F805 {
        Some("\u{4FAE}")
    } else if cp == 0x2F806 {
        Some("\u{4FBB}")
    } else if cp == 0x2F807 {
        Some("\u{5002}")
    } else if cp == 0x2F808 {
        Some("\u{507A}")
    } else if cp == 0x2F809 {
        Some("\u{5099}")
    } else if cp == 0x2F80A {
        Some("\u{50E7}")
    } else if cp == 0x2F80B {
        Some("\u{50CF}")
    } else if cp == 0x2F80C {
        Some("\u{349E}")
    } else if cp == 0x2F80D {
        Some("\u{2063A}")
    } else if cp == 0x2F80E {
        Some("\u{514D}")
    } else if cp == 0x2F80F {
        Some("\u{5154}")
    } else if cp == 0x2F810 {
        Some("\u{5164}")
    } else {
        None
    }
}

fn canonical_decomposition_of_23(cp: u32) -> (r: Option<&'static str>)
    ensures
        r == canonical_decomposition_23(cp),
{
    if cp == 0xFB35 {
        Some("\u{5D5}\u{5BC}")
    } else if cp == 0xFB36 {
        Some("\u{5D6}\u{5BC}")
    } else if cp == 0xFB38 {
        Some("\u{5D8}\u{5BC}")
    } else if cp == 0xFB39 {
        Some("\u{5D9}\u{5BC}")
    } else if cp == 0xFB3A {
        Some("\u{5DA}\u{5BC}")
    } else if cp == 0xFB3B {
        Some("\u{5DB}\u{5BC}")
    } else if cp == 0xFB3C {
        Some("\u{5DC}\u{5BC}")
    } else if cp == 0xFB3E {
        Some("\u{5DE}\u{5BC}")
    } else if cp == 0xFB40 {
        Some("\u{5E0}\u{5BC}")
    } else if cp == 0xFB41 {
        Some("\u{5E1}\u{5BC}")
    } else if cp == 0xFB43 {
        Some("\u{5E3}\u{5BC}")
    } else if cp == 0xFB44 {
        Some("\u{5E4}\u{5BC}")
    } else if cp == 0xFB46 {
        Some("\u{5E6}\u{5BC}")
    } else if cp == 0xFB47 {
        Some("\u{5E7}\u{5BC}")
    } else if cp == 0xFB48 {
        Some("\u{5E8}\u{5BC}")
    } else if cp == 0xFB49 {
        Some("\u{5E9}\u{5BC}")
    } else if cp == 0xFB4A {
        Some("\u{5EA}\u{5BC}")
    } else if cp == 0xFB4B {
        Some("\u{5D5}\u{5B9}")
    } else if cp == 0xFB4C {
        Some("\u{5D1}\u{5BF}")
    } else if cp == 0xFB4D {
        Some("\u{5DB}\u{5BF}")
    } else if cp == 0xFB4E {
        Some("\u{5E4}\u{5BF}")
    } else if cp == 0x1109A {
        Some("\u{11099}\u{110BA}")
    } else if cp == 0x1109C {
        Some("\u{1109B}\u{110BA}")
    } else if cp == 0x110AB {
        Some("\u{110A5}\u{110BA}")
    } else if cp == 0x1112E {
        Some("\u{11131}\u{11127}")
    } else if cp == 0x1112F {
        Some("\u{11132}\u{11127}")
    } else if cp == 0x1134B {
        Some("\u{11347}\u{1133E}")
    } else if cp == 0x1134C {
        Some("\u{11347}\u{11357}")
    } else if cp == 0x114BB {
        Some("\u{114B9}\u{114BA}")
    } else if cp == 0x114BC {
        Some("\u{114B9}\u{114B0}")
    } else if cp == 0x114BE {
        Some("\u{114B9}\u{114BD}")
    } else if cp == 0x115BA {
        Some("\u{115B8}\u{115AF}")
    } else if cp == 0x115BB {
        Some("\u{115B9}\u{115AF}")
    } else if cp == 0x11938 {
        Some("\u{11935}\u{11930}")
    } else if cp == 0x1D15E {
        Some("\u{1D157}\u{1D165}")
    } else if cp == 0x1D15F {
        Some("\u{1D158}\u{1D165}")
    } else if cp == 0x1D160 {
        Some("\u{1D158}\u{1D165}\u{1D16E}")
    } else if cp == 0x1D161 {
        Some("\u{1D158}\u{1D165}\u{1D16F}")
    } else if cp == 0x1D162 {
        Some("\u{1D158}\u{1D165}\u{1D170}")
    } else if cp == 0x1D163 {
        Some("\u{1D158}\u{1D165}\u{1D171}")
    } else if cp == 0x1D164 {
        Some("\u{1D158}\u{1D165}\u{1D172}")
    } else if cp == 0x1D1BB {
        Some("\u{1D1B9}\u{1D165}")
    } else if cp == 0x1D1BC {
        Some("\u{1D1BA}\u{1D165}")
    } else if cp == 0x1D1BD {
        Some("\u{1D1B9}\u{1D165}\u{1D16E}")
    } else if cp == 0x1D1BE {
        Some("\u{1D1BA}\u{1D165}\u{1D16E}")
    } else if cp == 0x1D1BF {
        Some("\u{1D1B9}\u{1D165}\u{1D16F}")
    } else if cp == 0x1D1C0 {
        Some("\u{1D1BA}\u{1D165}\u{1D16F}")
    } else if cp == 0x2F800 {
        Some("\u{4E3D}")
    } else if cp == 0x2F801 {
        Some("\u{4E38}")
    } else if cp == 0x2F802 {
        Some("\u{4E41}")
    } else if cp == 0x2F803 {
        Some("\u{20122}")
    } else if cp == 0x2F804 {
        Some("\u{4F60}")
    } else if cp == 0x2F805 {
        Some("\u{4FAE}")
    } else if cp == 0x2F806 {
        Some("\u{4FBB}")
    } else if cp == 0x2F807 {
        Some("\u{5002}")
    } else if cp == 0x2F808 {
        Some("\u{507A}")
    } else if cp == 0x2F809 {
        Some("\u{5099}")
    } else if cp == 0x2F80A {
        Some("\u{50E7}")
    } else if cp == 0x2F80B {
        Some("\u{50CF}")
    } else if cp == 0x2F80C {
        Some("\u{349E}")
    } else if cp == 0x2F80D {
        Some("\u{2063A}")
    } else if cp == 0x2F80E {
        Some("\u{514D}")
    } else if cp == 0x2F80F {
        Some("\u{5154}")
    } else if cp == 0x2F810 {
        Some("\u{5164}")
    } else {
        None
    }
}

/// One part of the table [`canonical_decomposition`], by code point.
pub open spec fn canonical_decomposition_24(cp: u32) -> Option<&'static str> {
    if cp == 0x2F811 {
        Some("\u{5177}")
    } else if cp == 0x2F812 {
        Some("\u{2051C}")
    } else if cp == 0x2F813 {
        Some("\u{34B9}")
    } else if cp == 0x2F814 {
        Some("\u{5167}")
    } else if cp == 0x2F815 {
        Some("\u{518D}")
    } else if cp == 0x2F816 {
        Some("\u{2054B}")
    } else if cp == 0x2F817 {
        Some("\u{5197}")
    } else if cp == 0x2F818 {
        Some("\u{51A4}")
    } else if cp == 0x2F819 {
        Some("\u{4ECC}")
    } else if cp == 0x2F81A {
        Some("\u{51AC}")
    } else if cp == 0x2F81B {
        Some("\u{51B5}")
    } else if cp == 0x2F81C {
        Some("\u{291DF}")
    } else if cp == 0x2F81D {
        Some("\u{51F5}")
    } else if cp == 0x2F81E {
        Some("\u{5203}")
    } else if cp == 0x2F81F {
        Some("\u{34DF}")
    } else if cp == 0x2F820 {
        Some("\u{523B}")
    } else if cp == 0x2F821 {
        Some("\u{5246}")
    } else if cp == 0x2F822 {
        Some("\u{5272}")
    } else if cp == 0x2F823 {
        Some("\u{5277}")
    } else if cp == 0x2F824 {
        Some("\u{3515}")
    } else if cp == 0x2F825 {
        Some("\u{52C7}")
    } else if cp == 0x2F826 {
        Some("\u{52C9}")
    } else if cp == 0x2F827 {
        Some("\u{52E4}")
    } else if cp == 0x2F828 {
        Some("\u{52FA}")
    } else if cp == 0x2F829 {
        Some("\u{5305}")
    } else if cp == 0x2F82A {
        Some("\u{5306}")
    } else if cp == 0x2F82B {
        Some("\u{5317}")
    } else if cp == 0x2F82C {
        Some("\u{5349}")
    } else if cp == 0x2F82D {
        Some("\u{5351}")
    } else if cp == 0x2F82E {
        Some("\u{535A}")
    } else if cp == 0x2F82F {
        Some("\u{5373}")
    } else if cp == 0x2F830 {
        Some("\u{537D}")
    } else if cp == 0x2F831 {
        Some("\u{537F}")
    } else if cp == 0x2F832 {
        Some("\u{537F}")
    } else if cp == 0x2F833 {
        Some("\u{537F}")
    } else if cp == 0x2F834 {
        Some("\u{20A2C}")
    } else if cp == 0x2F835 {
        Some("\u{7070}")
    } else if cp == 0x2F836 {
        Some("\u{53CA}")
    } else if cp == 0x2F837 {
        Some("\u{53DF}")
    } else if cp == 0x2F838 {
        Some("\u{20B63}")
    } else if cp == 0x2F839 {
        Some("\u{53EB}")
    } else if cp == 0x2F83A {
        Some("\u{53F1}")
    } else if cp == 0x2F83B {
        Some("\u{5406}")
    } else if cp == 0x2F83C {
        Some("\u{549E}")
    } else if cp == 0x2F83D {
        Some("\u{5438}")
    } else if cp == 0x2F83E {
        Some("\u{5448}")
    } else if cp == 0x2F83F {
        Some("\u{5468}")
    } else if cp == 0x2F840 {
        Some("\u{54A2}")
    } else if cp == 0x2F841 {
        Some("\u{54F6}")
    } else if cp == 0x2F842 {
        Some("\u{5510}")
    } else if cp == 0x2F843 {
        Some("\u{5553}")
    } else if cp == 0x2F844 {
        Some("\u{5563}")
    } else if cp == 0x2F845 {
        Some("\u{5584}")
    } else if cp == 0x2F846 {
        Some("\u{5584}")
    } else if cp == 0x2F847 {
        Some("\u{5599}")
    } else if cp == 0x2F848 {
        Some("\u{55AB}")
    } else if cp == 0x2F849 {
        Some("\u{55B3}")
    } else if cp == 0x2F84A {
        Some("\u{55C2}")
    } else if cp == 0x2F84B {
        Some("\u{5716}")
    } else if cp == 0x2F84C {
        Some("\u{5606}")
    } else if cp == 0x2F84D {
        Some("\u{5717}")
    } else if cp == 0x2F84E {
        Some("\u{5651}")
    } else if cp == 0x2F84F {
        Some("\u{5674}")
    } else if cp == 0x2F850 {
        Some("\u{5207}")
    } else {
        None
    }
}

fn canonical_decomposition_of_24(cp: u32) -> (r: Option<&'static str>)
    ensures
        r == canonical_decomposition_24(cp),
{
    if cp == 0x2F811 {
        Some("\u{5177}")
    } else if cp == 0x2F812 {
        Some("\u{2051C}")
    } else if cp == 0x2F813 {
        Some("\u{34B9}")
    } else if cp == 0x2F814 {
        Some("\u{5167}")
    } else if cp == 0x2F815 {
        Some("\u{518D}")
    } else if cp == 0x2F816 {
        Some("\u{2054B}")
    } else if cp == 0x2F817 {
        Some("\u{5197}")
    } else if cp == 0x2F818 {
        Some("\u{51A4}")
    } else if cp == 0x2F819 {
        Some("\u{4ECC}")
    } else if cp == 0x2F81A {
        Some("\u{51AC}")
    } else if cp == 0x2F81B {
        Some("\u{51B5}")
    } else if cp == 0x2F81C {
        Some("\u{291DF}")
    } else if cp == 0x2F81D {
        Some("\u{51F5}")
    } else if cp == 0x2F81E {
        Some("\u{5203}")
    } else if cp == 0x2F81F {
        Some("\u{34DF}")
    } else if cp == 0x2F820 {
        Some("\u{523B}")
    } else if cp == 0x2F821 {
        Some("\u{5246}")
    } else if cp == 0x2F822 {
        Some("\u{5272}")
    } else if cp == 0x2F823 {
        Some("\u{5277}")
    } else if cp == 0x2F824 {
        Some("\u{3515}")
    } else if cp == 0x2F825 {
        Some("\u{52C7}")
    } else if cp == 0x2F826 {
        Some("\u{52C9}")
    } else if cp == 0x2F827 {
        Some("\u{52E4}")
    } else if cp == 0x2F828 {
        Some("\u{52FA}")
    } else if cp == 0x2F829 {
        Some("\u{5305}")
    } else if cp == 0x2F82A {
        Some("\u{5306}")
    } else if cp == 0x2F82B {
        Some("\u{5317}")
    } else if cp == 0x2F82C {
        Some("\u{5349}")
    } else if cp == 0x2F82D {
        Some("\u{5351}")
    } else if cp == 0x2F82E {
        Some("\u{535A}")
    } else if cp == 0x2F82F {
        Some("\u{5373}")
    } else if cp == 0x2F830 {
        Some("\u{537D}")
    } else if cp == 0x2F831 {
        Some("\u{537F}")
    } else if cp == 0x2F832 {
        Some("\u{537F}")
    } else if cp == 0x2F833 {
        Some("\u{537F}")
    } else if cp == 0x2F834 {
        Some("\u{20A2C}")
    } else if cp == 0x2F835 {
        Some("\u{7070}")
    } else if cp == 0x2F836 {
        Some("\u{53CA}")
    } else if cp == 0x2F837 {
        Some("\u{53DF}")
    } else if cp == 0x2F838 {
        Some("\u{20B63}")
    } else if cp == 0x2F839 {
        Some("\u{53EB}")
    } else if cp == 0x2F83A {
        Some("\u{53F1}")
    } else if cp == 0x2F83B {
        Some("\u{5406}")
    } else if cp == 0x2F83C {
        Some("\u{549E}")
    } else if cp == 0x2F83D {
        Some("\u{5438}")
    } else if cp == 0x2F83E {
        Some("\u{5448}")
    } else if cp == 0x2F83F {
        Some("\u{5468}")
    } else if cp == 0x2F840 {
        Some("\u{54A2}")
    } else if cp == 0x2F841 {
        Some("\u{54F6}")
    } else if cp == 0x2F842 {
        Some("\u{5510}")
    } else if cp == 0x2F843 {
        Some("\u{5553}")
    } else if cp == 0x2F844 {
        Some("\u{5563}")
    } else if cp == 0x2F845 {
        Some("\u{5584}")
    } else if cp == 0x2F846 {
        Some("\u{5584}")
    } else if cp == 0x2F847 {
        Some("\u{5599}")
    } else if cp == 0x2F848 {
        Some("\u{55AB}")
    } else if cp == 0x2F849 {
        Some("\u{55B3}")
    } else if cp == 0x2F84A {
        Some("\u{55C2}")
    } else if cp == 0x2F84B {
        Some("\u{5716}")
    } else if cp == 0x2F84C {
        Some("\u{5606}")
    } else if cp == 0x2F84D {
        Some("\u{5717}")
    } else if cp == 0x2F84E {
        Some("\u{5651}")
    } else if cp == 0x2F84F {
        Some("\u{5674}")
    } else if cp == 0x2F850 {
        Some("\u{5207}")
    } else {
        None
    }
}

/// One part of the table [`canonical_decomposition`], by code point.
pub open spec fn canonical_decomposition_25(cp: u32) -> Option<&'static str> {
    if cp == 0x2F851 {
        Some("\u{58EE}")
    } else if cp == 0x2F852 {
        Some("\u{57CE}")
    } else if cp == 0x2F853 {
        Some("\u{57F4}")
    } else if cp == 0x2F854 {
        Some("\u{580D}")
    } else if cp == 0x2F855 {
        Some("\u{578B}")
    } else if cp == 0x2F856 {
        Some("\u{5832}")
    } else if cp == 0x2F857 {
        Some("\u{5831}")
    } else if cp == 0x2F858 {
        Some("\u{58AC}")
    } else if cp == 0x2F859 {
        Some("\u{214E4}")
    } else if cp == 0x2F85A {
        Some("\u{58F2}")
    } else if cp == 0x2F85B {
        Some("\u{58F7}")
    } else if cp == 0x2F85C {
        Some("\u{5906}")
    } else if cp == 0x2F85D {
        Some("\u{591A}")
    } else if cp == 0x2F85E {
        Some("\u{5922}")
    } else if cp == 0x2F85F {
        Some("\u{5962}")
    } else if cp == 0x2F860 {
        Some("\u{216A8}")
    } else if cp == 0x2F861 {
        Some("\u{216EA}")
    } else if cp == 0x2F862 {
        Some("\u{59EC}")
    } else if cp == 0x2F863 {
        Some("\u{5A1B}")
    } else if cp == 0x2F864 {
        Some("\u{5A27}")
    } else if cp == 0x2F865 {
        Some("\u{59D8}")
    } else if cp == 0x2F866 {
        Some("\u{5A66}")
    } else if cp == 0x2F867 {
        Some("\u{36EE}")
    } else if cp == 0x2F868 {
        Some("\u{36FC}")
    } else if cp == 0x2F869 {
        Some("\u{5B08}")
    } else if cp == 0x2F86A {
        Some("\u{5B3E}")
    } else if cp == 0x2F86B {
        Some("\u{5B3E}")
    } else if cp == 0x2F86C {
        Some("\u{219C8}")
    } else if cp == 0x2F86D {
        Some("\u{5BC3}")
    } else if cp == 0x2F86E {
        Some("\u{5BD8}")
    } else if cp == 0x2F86F {
        Some("\u{5BE7}")
    } else if cp == 0x2F870 {
        Some("\u{5BF3}")
    } else if cp == 0x2F871 {
        Some("\u{21B18}")
    } else if cp == 0x2F872 {
        Some("\u{5BFF}")
    } else if cp == 0x2F873 {
        Some("\u{5C06}")
    } else if cp == 0x2F874 {
        Some("\u{5F53}")
    } else if cp == 0x2F875 {
        Some("\u{5C22}")
    } else if cp == 0x2F876 {
        Some("\u{3781}")
    } else if cp == 0x2F877 {
        Some("\u{5C60}")
    } else if cp == 0x2F878 {
        Some("\u{5C6E}")
    } else if cp == 0x2F879 {
        Some("\u{5CC0}")
    } else if cp == 0x2F87A {
        Some("\u{5C8D}")
    } else if cp == 0x2F87B {
        Some("\u{21DE4}")
    } else if cp == 0x2F87C {
        Some("\u{5D43}")
    } else if cp == 0x2F87D {
        Some("\u{21DE6}")
    } else if cp == 0x2F87E {
        Some("\u{5D6E}")
    } else if cp == 0x2F87F {
        Some("\u{5D6B}")
    } else if cp == 0x2F880 {
        Some("\u{5D7C}")
    } else if cp == 0x2F881 {
        Some("\u{5DE1}")
    } else if cp == 0x2F882 {
        Some("\u{5DE2}")
    } else if cp == 0x2F883 {
        Some("\u{382F}")
    } else if cp == 0x2F884 {
        Some("\u{5DFD}")
    } else if cp == 0x2F885 {
        Some("\u{5E28}")
    } else if cp == 0x2F886 {
        Some("\u{5E3D}")
    } else if cp == 0x2F887 {
        Some("\u{5E69}")
    } else if cp == 0x2F888 {
        Some("\u{3862}")
    } else if cp == 0x2F889 {
        Some("\u{22183}")
    } else if cp == 0x2F88A {
        Some("\u{387C}")
    } else if cp == 0x2F88B {
        Some("\u{5EB0}")
    } else if cp == 0x2F88C {
        Some("\u{5EB3}")
    } else if cp == 0x2F88D {
        Some("\u{5EB6}")
    } else if cp == 0x2F88E {
        Some("\u{5ECA}")
    } else if cp == 0x2F88F {
        Some("\u{2A392}")
    } else if cp == 0x2F890 {
        Some("\u{5EFE}")
    } else {
        None
    }
}

fn canonical_decomposition_of_25(cp: u32) -> (r: Option<&'static str>)
    ensures
        r == canonical_decomposition_25(cp),
{
    if cp == 0x2F851 {
        Some("\u{58EE}")
    } else if cp == 0x2F852 {
        Some("\u{57CE}")
    } else if cp == 0x2F853 {
        Some("\u{57F4}")
    } else if cp == 0x2F854 {
        Some("\u{580D}")
    } else if cp == 0x2F855 {
        Some("\u{578B}")
    } else if cp == 0x2F856 {
        Some("\u{5832}")
    } else if cp == 0x2F857 {
        Some("\u{5831}")
    } else if cp == 0x2F858 {
        Some("\u{58AC}")
    } else if cp == 0x2F859 {
        Some("\u{214E4}")
    } else if cp == 0x2F85A {
        Some("\u{58F2}")
    } else if cp == 0x2F85B {
        Some("\u{58F7}")
    } else if cp == 0x2F85C {
        Some("\u{5906}")
    } else if cp == 0x2F85D {
        Some("\u{591A}")
    } else if cp == 0x2F85E {
        Some("\u{5922}")
    } else if cp == 0x2F85F {
        Some("\u{5962}")
    } else if cp == 0x2F860 {
        Some("\u{216A8}")
    } else if cp == 0x2F861 {
        Some("\u{216EA}")
    } else if cp == 0x2F862 {
        Some("\u{59EC}")
    } else if cp == 0x2F863 {
        Some("\u{5A1B}")
    } else if cp == 0x2F864 {
        Some("\u{5A27}")
    } else if cp == 0x2F865 {
        Some("\u{59D8}")
    } else if cp == 0x2F866 {
        Some("\u{5A66}")
    } else if cp == 0x2F867 {
        Some("\u{36EE}")
    } else if cp == 0x2F868 {
        Some("\u{36FC}")
    } else if cp == 0x2F869 {
        Some("\u{5B08}")
    } else if cp == 0x2F86A {
        Some("\u{5B3E}")
    } else if cp == 0x2F86B {
        Some("\u{5B3E}")
    } else if cp == 0x2F86C {
        Some("\u{219C8}")
    } else if cp == 0x2F86D {
        Some("\u{5BC3}")
    } else if cp == 0x2F86E {
        Some("\u{5BD8}")
    } else if cp == 0x2F86F {
        Some("\u{5BE7}")
    } else if cp == 0x2F870 {
        Some("\u{5BF3}")
    } else if cp == 0x2F871 {
        Some("\u{21B18}")
    } else if cp == 0x2F872 {
        Some("\u{5BFF}")
    } else if cp == 0x2F873 {
        Some("\u{5C06}")
    } else if cp == 0x2F874 {
        Some("\u{5F53}")
    } else if cp == 0x2F875 {
        Some("\u{5C22}")
    } else if cp == 0x2F876 {
        Some("\u{3781}")
    } else if cp == 0x2F877 {
        Some("\u{5C60}")
    } else if cp == 0x2F878 {
        Some("\u{5C6E}")
    } else if cp == 0x2F879 {
        Some("\u{5CC0}")
    } else if cp == 0x2F87A {
        Some("\u{5C8D}")
    } else if cp == 0x2F87B {
        Some("\u{21DE4}")
    } else if cp == 0x2F87C {
        Some("\u{5D43}")
    } else if cp == 0x2F87D {
        Some("\u{21DE6}")
    } else if cp == 0x2F87E {
        Some("\u{5D6E}")
    } else if cp == 0x2F87F {
        Some("\u{5D6B}")
    } else if cp == 0x2F880 {
        Some("\u{5D7C}")
    } else if cp == 0x2F881 {
        Some("\u{5DE1}")
    } else if cp == 0x2F882 {
        Some("\u{5DE2}")
    } else if cp == 0x2F883 {
        Some("\u{382F}")
    } else if cp == 0x2F884 {
        Some("\u{5DFD}")
    } else if cp == 0x2F885 {
        Some("\u{5E28}")
    } else if cp == 0x2F886 {
        Some("\u{5E3D}")
    } else if cp == 0x2F887 {
        Some("\u{5E69}")
    } else if cp == 0x2F888 {
        Some("\u{3862}")
    } else if cp == 0x2F889 {
        Some("\u{22183}")
    } else if cp == 0x2F88A {
        Some("\u{387C}")
    } else if cp == 0x2F88B {
        Some("\u{5EB0}")
    } else if cp == 0x2F88C {
        Some("\u{5EB3}")
    } else if cp == 0x2F88D {
        Some("\u{5EB6}")
    } else if cp == 0x2F88E {
        Some("\u{5ECA}")
    } else if cp == 0x2F88F {
        Some("\u{2A392}")
    } else if cp == 0x2F890 {
        Some("\u{5EFE}")
    } else {
        None
    }
}

/// One part of the table [`canonical_decomposition`], by code point.
pub open spec fn canonical_decomposition_26(cp: u32) -> Option<&'static str> {
    if cp == 0x2F891 {
        Some("\u{22331}")
    } else if cp == 0x2F892 {
        Some("\u{22331}")
    } else if cp == 0x2F893 {
        Some("\u{8201}")
    } else if cp == 0x2F894 {
        Some("\u{5F22}")
    } else if cp == 0x2F895 {
        Some("\u{5F22}")
    } else if cp == 0x2F896 {
        Some("\u{38C7}")
    } else if cp == 0x2F897 {
        Some("\u{232B8}")
    } else if cp == 0x2F898 {
        Some("\u{261DA}")
    } else if cp == 0x2F899 {
        Some("\u{5F62}")
    } else if cp == 0x2F89A {
        Some("\u{5F6B}")
    } else if cp == 0x2F89B {
        Some("\u{38E3}")
    } else if cp == 0x2F89C {
        Some("\u{5F9A}")
    } else if cp == 0x2F89D {
        Some("\u{5FCD}")
    } else if cp == 0x2F89E {
        Some("\u{5FD7}")
    } else if cp == 0x2F89F {
        Some("\u{5FF9}")
    } else if cp == 0x2F8A0 {
        Some("\u{6081}")
    } else if cp == 0x2F8A1 {
        Some("\u{393A}")
    } else if cp == 0x2F8A2 {
        Some("\u{391C}")
    } else if cp == 0x2F8A3 {
        Some("\u{6094}")
    } else if cp == 0x2F8A4 {
        Some("\u{226D4}")
    } else if cp == 0x2F8A5 {
        Some("\u{60C7}")
    } else if cp == 0x2F8A6 {
        Some("\u{6148}")
    } else if cp == 0x2F8A7 {
        Some("\u{614C}")
    } else if cp == 0x2F8A8 {
        Some("\u{614E}")
    } else if cp == 0x2F8A9 {
        Some("\u{614C}")
    } else if cp == 0x2F8AA {
        Some("\u{617A}")
    } else if cp == 0x2F8AB {
        Some("\u{618E}")
    } else if cp == 0x2F8AC {
        Some("\u{61B2}")
    } else if cp == 0x2F8AD {
        Some("\u{61A4}")
    } else if cp == 0x2F8AE {
        Some("\u{61AF}")
    } else if cp == 0x2F8AF {
        Some("\u{61DE}")
    } else if cp == 0x2F8B0 {
        Some("\u{61F2}")
    } else if cp == 0x2F8B1 {
        Some("\u{61F6}")
    } else if cp == 0x2F8B2 {
        Some("\u{6210}")
    } else if cp == 0x2F8B3 {
        Some("\u{621B}")
    } else if cp == 0x2F8B4 {
        Some("\u{625D}")
    } else if cp == 0x2F8B5 {
        Some("\u{62B1}")
    } else if cp == 0x2F8B6 {
        Some("\u{62D4}")
    } else if cp == 0x2F8B7 {
        Some("\u{6350}")
    } else if cp == 0x2F8B8 {
        Some("\u{22B0C}")
    } else if cp == 0x2F8B9 {
        Some("\u{633D}")
    } else if cp == 0x2F8BA {
        Some("\u{62FC}")
    } else if cp == 0x2F8BB {
        Some("\u{6368}")
    } else if cp == 0x2F8BC {
        Some("\u{6383}")
    } else if cp == 0x2F8BD {
        Some("\u{63E4}")
    } else if cp == 0x2F8BE {
        Some("\u{22BF1}")
    } else if cp == 0x2F8BF {
        Some("\u{6422}")
    } else if cp == 0x2F8C0 {
        Some("\u{63C5}")
    } else if cp == 0x2F8C1 {
        Some("\u{63A9}")
    } else if cp == 0x2F8C2 {
        Some("\u{3A2E}")
    } else if cp == 0x2F8C3 {
        Some("\u{6469}")
    } else if cp == 0x2F8C4 {
        Some("\u{647E}")
    } else if cp == 0x2F8C5 {
        Some("\u{649D}")
    } else if cp == 0x2F8C6 {
        Some("\u{6477}")
    } else if cp == 0x2F8C7 {
        Some("\u{3A6C}")
    } else if cp == 0x2F8C8 {
        Some("\u{654F}")
    } else if cp == 0x2F8C9 {
        Some("\u{656C}")
    } else if cp == 0x2F8CA {
        Some("\u{2300A}")
    } else if cp == 0x2F8CB {
        Some("\u{65E3}")
    } else if cp == 0x2F8CC {
        Some("\u{66F8}")
    } else if cp == 0x2F8CD {
        Some("\u{6649}")
    } else if cp == 0x2F8CE {
        Some("\u{3B19}")
    } else if cp == 0x2F8CF {
        Some("\u{6691}")
    } else if cp == 0x2F8D0 {
        Some("\u{3B08}")
    } else {
        None
    }
}

fn canonical_decomposition_of_26(cp: u32) -> (r: Option<&'static str>)
    ensures
        r == canonical_decomposition_26(cp),
{
    if cp == 0x2F891 {
        Some("\u{22331}")
    } else if cp == 0x2F892 {
        Some("\u{22331}")
    } else if cp == 0x2F893 {
        Some("\u{8201}")
    } else if cp == 0x2F894 {
        Some("\u{5F22}")
    } else if cp == 0x2F895 {
        Some("\u{5F22}")
    } else if cp == 0x2F896 {
        Some("\u{38C7}")
    } else if cp == 0x2F897 {
        Some("\u{232B8}")
    } else if cp == 0x2F898 {
        Some("\u{261DA}")
    } else if cp == 0x2F899 {
        Some("\u{5F62}")
    } else if cp == 0x2F89A {
        Some("\u{5F6B}")
    } else if cp == 0x2F89B {
        Some("\u{38E3}")
    } else if cp == 0x2F89C {
        Some("\u{5F9A}")
    } else if cp == 0x2F89D {
        Some("\u{5FCD}")
    } else if cp == 0x2F89E {
        Some("\u{5FD7}")
    } else if cp == 0x2F89F {
        Some("\u{5FF9}")
    } else if cp == 0x2F8A0 {
        Some("\u{6081}")
    } else if cp == 0x2F8A1 {
        Some("\u{393A}")
    } else if cp == 0x2F8A2 {
        Some("\u{391C}")
    } else if cp == 0x2F8A3 {
        Some("\u{6094}")
    } else if cp == 0x2F8A4 {
        Some("\u{226D4}")
    } else if cp == 0x2F8A5 {
        Some("\u{60C7}")
    } else if cp == 0x2F8A6 {
        Some("\u{6148}")
    } else if cp == 0x2F8A7 {
        Some("\u{614C}")
    } else if cp == 0x2F8A8 {
        Some("\u{614E}")
    } else if cp == 0x2F8A9 {
        Some("\u{614C}")
    } else if cp == 0x2F8AA {
        Some("\u{617A}")
    } else if cp == 0x2F8AB {
        Some("\u{618E}")
    } else if cp == 0x2F8AC {
        Some("\u{61B2}")
    } else if cp == 0x2F8AD {
        Some("\u{61A4}")
    } else if cp == 0x2F8AE {
        Some("\u{61AF}")
    } else if cp == 0x2F8AF {
        Some("\u{61DE}")
    } else if cp == 0x2F8B0 {
        Some("\u{61F2}")
    } else if cp == 0x2F8B1 {
        Some("\u{61F6}")
    } else if cp == 0x2F8B2 {
        Some("\u{6210}")
    } else if cp == 0x2F8B3 {
        Some("\u{621B}")
    } else if cp == 0x2F8B4 {
        Some("\u{625D}")
    } else if cp == 0x2F8B5 {
        Some("\u{62B1}")
    } else if cp == 0x2F8B6 {
        Some("\u{62D4}")
    } else if cp == 0x2F8B7 {
        Some("\u{6350}")
    } else if cp == 0x2F8B8 {
        Some("\u{22B0C}")
    } else if cp == 0x2F8B9 {
        Some("\u{633D}")
    } else if cp == 0x2F8BA {
        Some("\u{62FC}")
    } else if cp == 0x2F8BB {
        Some("\u{6368}")
    } else if cp == 0x2F8BC {
        Some("\u{6383}")
    } else if cp == 0x2F8BD {
        Some("\u{63E4}")
    } else if cp == 0x2F8BE {
        Some("\u{22BF1}")
    } else if cp == 0x2F8BF {
        Some("\u{6422}")
    } else if cp == 0x2F8C0 {
        Some("\u{63C5}")
    } else if cp == 0x2F8C1 {
        Some("\u{63A9}")
    } else if cp == 0x2F8C2 {
        Some("\u{3A2E}")
    } else if cp == 0x2F8C3 {
        Some("\u{6469}")
    } else if cp == 0x2F8C4 {
        Some("\u{647E}")
    } else if cp == 0x2F8C5 {
        Some("\u{649D}")
    } else if cp == 0x2F8C6 {
        Some("\u{6477}")
    } else if cp == 0x2F8C7 {
        Some("\u{3A6C}")
    } else if cp == 0x2F8C8 {
        Some("\u{654F}")
    } else if cp == 0x2F8C9 {
        Some("\u{656C}")
    } else if cp == 0x2F8CA {
        Some("\u{2300A}")
    } else if cp == 0x2F8CB {
        Some("\u{65E3}")
    } else if cp == 0x2F8CC {
        Some("\u{66F8}")
    } else if cp == 0x2F8CD {
        Some("\u{6649}")
    } else if cp == 0x2F8CE {
        Some("\u{3B19}")
    } else if cp == 0x2F8CF {
        Some("\u{6691}")
    } else if cp == 0x2F8D0 {
        Some("\u{3B08}")
    } else {
        None
    }
}

/// One part of the table [`canonical_decomposition`], by code point.
pub open spec fn canonical_decomposition_27(cp: u32) -> Option<&'static str> {
    if cp == 0x2F8D1 {
        Some("\u{3AE4}")
    } else if cp == 0x2F8D2 {
        Some("\u{5192}")
    } else if cp == 0x2F8D3 {
        Some("\u{5195}")
    } else if cp == 0x2F8D4 {
        Some("\u{6700}")
    } else if cp == 0x2F8D5 {
        Some("\u{669C}")
    } else if cp == 0x2F8D6 {
        Some("\u{80AD}")
    } else if cp == 0x2F8D7 {
        Some("\u{43D9}")
    } else if cp == 0x2F8D8 {
        Some("\u{6717}")
    } else if cp == 0x2F8D9 {
        Some("\u{671B}")
    } else if cp == 0x2F8DA {
        Some("\u{6721}")
    } else if cp == 0x2F8DB {
        Some("\u{675E}")
    } else if cp == 0x2F8DC {
        Some("\u{6753}")
    } else if cp == 0x2F8DD {
        Some("\u{233C3}")
    } else if cp == 0x2F8DE {
        Some("\u{3B49}")
    } else if cp == 0x2F8DF {
        Some("\u{67FA}")
    } else if cp == 0x2F8E0 {
        Some("\u{6785}")
    } else if cp == 0x2F8E1 {
        Some("\u{6852}")
    } else if cp == 0x2F8E2 {
        Some("\u{6885}")
    } else if cp == 0x2F8E3 {
        Some("\u{2346D}")
    } else if cp == 0x2F8E4 {
        Some("\u{688E}")
    } else if cp == 0x2F8E5 {
        Some("\u{681F}")
    } else if cp == 0x2F8E6 {
        Some("\u{6914}")
    } else if cp == 0x2F8E7 {
        Some("\u{3B9D}")
    } else if cp == 0x2F8E8 {
        Some("\u{6942}")
    } else if cp == 0x2F8E9 {
        Some("\u{69A3}")
    } else if cp == 0x2F8EA {
        Some("\u{69EA}")
    } else if cp == 0x2F8EB {
        Some("\u{6AA8}")
    } else if cp == 0x2F8EC {
        Some("\u{236A3}")
    } else if cp == 0x2F8ED {
        Some("\u{6ADB}")
    } else if cp == 0x2F8EE {
        Some("\u{3C18}")
    } else if cp == 0x2F8EF {
        Some("\u{6B21}")
    } else if cp == 0x2F8F0 {
        Some("\u{238A7}")
    } else if cp == 0x2F8F1 {
        Some("\u{6B54}")
    } else if cp == 0x2F8F2 {
        Some("\u{3C4E}")
    } else if cp == 0x2F8F3 {
        Some("\u{6B72}")
    } else if cp == 0x2F8F4 {
        Some("\u{6B9F}")
    } else if cp == 0x2F8F5 {
        Some("\u{6BBA}")
    } else if cp == 0x2F8F6 {
        Some("\u{6BBB}")
    } else if cp == 0x2F8F7 {
        Some("\u{23A8D}")
    } else if cp == 0x2F8F8 {
        Some("\u{21D0B}")
    } else if cp == 0x2F8F9 {
        Some("\u{23AFA}")
    } else if cp == 0x2F8FA {
        Some("\u{6C4E}")
    } else if cp == 0x2F8FB {
        Some("\u{23CBC}")
    } else if cp == 0x2F8FC {
        Some("\u{6CBF}")
    } else if cp == 0x2F8FD {
        Some("\u{6CCD}")
    } else if cp == 0x2F8FE {
        Some("\u{6C67}")
    } else if cp == 0x2F8FF {
        Some("\u{6D16}")
    } else if cp == 0x2F900 {
        Some("\u{6D3E}")
    } else if cp == 0x2F901 {
        Some("\u{6D77}")
    } else if cp == 0x2F902 {
        Some("\u{6D41}")
    } else if cp == 0x2F903 {
        Some("\u{6D69}")
    } else if cp == 0x2F904 {
        Some("\u{6D78}")
    } else if cp == 0x2F905 {
        Some("\u{6D85}")
    } else if cp == 0x2F906 {
        Some("\u{23D1E}")
    } else if cp == 0x2F907 {
        Some("\u{6D34}")
    } else if cp == 0x2F908 {
        Some("\u{6E2F}")
    } else if cp == 0x2F909 {
        Some("\u{6E6E}")
    } else if cp == 0x2F90A {
        Some("\u{3D33}")
    } else if cp == 0x2F90B {
        Some("\u{6ECB}")
    } else if cp == 0x2F90C {
        Some("\u{6EC7}")
    } else if cp == 0x2F90D {
        Some("\u{23ED1}")
    } else if cp == 0x2F90E {
        Some("\u{6DF9}")
    } else if cp == 0x2F90F {
        Some("\u{6F6E}")
    } else if cp == 0x2F910 {
        Some("\u{23F5E}")
    } else {
        None
    }
}

fn canonical_decomposition_of_27(cp: u32) -> (r: Option<&'static str>)
    ensures
        r == canonical_decomposition_27(cp),
{
    if cp == 0x2F8D1 {
        Some("\u{3AE4}")
    } else if cp == 0x2F8D2 {
        Some("\u{5192}")
    } else if cp == 0x2F8D3 {
        Some("\u{5195}")
    } else if cp == 0x2F8D4 {
        Some("\u{6700}")
    } else if cp == 0x2F8D5 {
        Some("\u{669C}")
    } else if cp == 0x2F8D6 {
        Some("\u{80AD}")
    } else if cp == 0x2F8D7 {
        Some("\u{43D9}")
    } else if cp == 0x2F8D8 {
        Some("\u{6717}")
    } else if cp == 0x2F8D9 {
        Some("\u{671B}")
    } else if cp == 0x2F8DA {
        Some("\u{6721}")
    } else if cp == 0x2F8DB {
        Some("\u{675E}")
    } else if cp == 0x2F8DC {
        Some("\u{6753}")
    } else if cp == 0x2F8DD {
        Some("\u{233C3}")
    } else if cp == 0x2F8DE {
        Some("\u{3B49}")
    } else if cp == 0x2F8DF {
        Some("\u{67FA}")
    } else if cp == 0x2F8E0 {
        Some("\u{6785}")
    } else if cp == 0x2F8E1 {
        Some("\u{6852}")
    } else if cp == 0x2F8E2 {
        Some("\u{6885}")
    } else if cp == 0x2F8E3 {
        Some("\u{2346D}")
    } else if cp == 0x2F8E4 {
        Some("\u{688E}")
    } else if cp == 0x2F8E5 {
        Some("\u{681F}")
    } else if cp == 0x2F8E6 {
        Some("\u{6914}")
    } else if cp == 0x2F8E7 {
        Some("\u{3B9D}")
    } else if cp == 0x2F8E8 {
        Some("\u{6942}")
    } else if cp == 0x2F8E9 {
        Some("\u{69A3}")
    } else if cp == 0x2F8EA {
        Some("\u{69EA}")
    } else if cp == 0x2F8EB {
        Some("\u{6AA8}")
    } else if cp == 0x2F8EC {
        Some("\u{236A3}")
    } else if cp == 0x2F8ED {
        Some("\u{6ADB}")
    } else if cp == 0x2F8EE {
        Some("\u{3C18}")
    } else if cp == 0x2F8EF {
        Some("\u{6B21}")
    } else if cp == 0x2F8F0 {
        Some("\u{238A7}")
    } else if cp == 0x2F8F1 {
        Some("\u{6B54}")
    } else if cp == 0x2F8F2 {
        Some("\u{3C4E}")
    } else if cp == 0x2F8F3 {
        Some("\u{6B72}")
    } else if cp == 0x2F8F4 {
        Some("\u{6B9F}")
    } else if cp == 0x2F8F5 {
        Some("\u{6BBA}")
    } else if cp == 0x2F8F6 {
        Some("\u{6BBB}")
    } else if cp == 0x2F8F7 {
        Some("\u{23A8D}")
    } else if cp == 0x2F8F8 {
        Some("\u{21D0B}")
    } else if cp == 0x2F8F9 {
        Some("\u{23AFA}")
    } else if cp == 0x2F8FA {
        Some("\u{6C4E}")
    } else if cp == 0x2F8FB {
        Some("\u{23CBC}")
    } else if cp == 0x2F8FC {
        Some("\u{6CBF}")
    } else if cp == 0x2F8FD {
        Some("\u{6CCD}")
    } else if cp == 0x2F8FE {
        Some("\u{6C67}")
    } else if cp == 0x2F8FF {
        Some("\u{6D16}")
    } else if cp == 0x2F900 {
        Some("\u{6D3E}")
    } else if cp == 0x2F901 {
        Some("\u{6D77}")
    } else if cp == 0x2F902 {
        Some("\u{6D41}")
    } else if cp == 0x2F903 {
        Some("\u{6D69}")
    } else if cp == 0x2F904 {
        Some("\u{6D78}")
    } else if cp == 0x2F905 {
        Some("\u{6D85}")
    } else if cp == 0x2F906 {
        Some("\u{23D1E}")
    } else if cp == 0x2F907 {
        Some("\u{6D34}")
    } else if cp == 0x2F908 {
        Some("\u{6E2F}")
    } else if cp == 0x2F909 {
        Some("\u{6E6E}")
    } else if cp == 0x2F90A {
        Some("\u{3D33}")
    } else if cp == 0x2F90B {
        Some("\u{6ECB}")
    } else if cp == 0x2F90C {
        Some("\u{6EC7}")
    } else if cp == 0x2F90D {
        Some("\u{23ED1}")
    } else if cp == 0x2F90E {
        Some("\u{6DF9}")
    } else if cp == 0x2F90F {
        Some("\u{6F6E}")
    } else if cp == 0x2F910 {
        Some("\u{23F5E}")
    } else {
        None
    }
}

/// One part of the table [`canonical_decomposition`], by code point.
pub open spec fn canonical_decomposition_28(cp: u32) -> Option<&'static str> {
    if cp == 0x2F911 {
        Some("\u{23F8E}")
    } else if cp == 0x2F912 {
        Some("\u{6FC6}")
    } else if cp == 0x2F913 {
        Some("\u{7039}")
    } else if cp == 0x2F914 {
        Some("\u{701E}")
    } else if cp == 0x2F915 {
        Some("\u{701B}")
    } else if cp == 0x2F916 {
        Some("\u{3D96}")
    } else if cp == 0x2F917 {
        Some("\u{704A}")
    } else if cp == 0x2F918 {
        Some("\u{707D}")
    } else if cp == 0x2F919 {
        Some("\u{7077}")
    } else if cp == 0x2F91A {
        Some("\u{70AD}")
    } else if cp == 0x2F91B {
        Some("\u{20525}")
    } else if cp == 0x2F91C {
        Some("\u{7145}")
    } else if cp == 0x2F91D {
        Some("\u{24263}")
    } else if cp == 0x2F91E {
        Some("\u{719C}")
    } else if cp == 0x2F91F {
        Some("\u{243AB}")
    } else if cp == 0x2F920 {
        Some("\u{7228}")
    } else if cp == 0x2F921 {
        Some("\u{7235}")
    } else if cp == 0x2F922 {
        Some("\u{7250}")
    } else if cp == 0x2F923 {
        Some("\u{24608}")
    } else if cp == 0x2F924 {
        Some("\u{7280}")
    } else if cp == 0x2F925 {
        Some("\u{7295}")
    } else if cp == 0x2F926 {
        Some("\u{24735}")
    } else if cp == 0x2F927 {
        Some("\u{24814}")
    } else if cp == 0x2F928 {
        Some("\u{737A}")
    } else if cp == 0x2F929 {
        Some("\u{738B}")
    } else if cp == 0x2F92A {
        Some("\u{3EAC}")
    } else if cp == 0x2F92B {
        Some("\u{73A5}")
    } else if cp == 0x2F92C {
        Some("\u{3EB8}")
    } else if cp == 0x2F92D {
        Some("\u{3EB8}")
    } else if cp == 0x2F92E {
        Some("\u{7447}")
    } else if cp == 0x2F92F {
        Some("\u{745C}")
    } else if cp == 0x2F930 {
        Some("\u{7471}")
    } else if cp == 0x2F931 {
        Some("\u{7485}")
    } else if cp == 0x2F932 {
        Some("\u{74CA}")
    } else if cp == 0x2F933 {
        Some("\u{3F1B}")
    } else if cp == 0x2F934 {
        Some("\u{7524}")
    } else if cp == 0x2F935 {
        Some("\u{24C36}")
    } else if cp == 0x2F936 {
        Some("\u{753E}")
    } else if cp == 0x2F937 {
        Some("\u{24C92}")
    } else if cp == 0x2F938 {
        Some("\u{7570}")
    } else if cp == 0x2F939 {
        Some("\u{2219F}")
    } else if cp == 0x2F93A {
        Some("\u{7610}")
    } else if cp == 0x2F93B {
        Some("\u{24FA1}")
    } else if cp == 0x2F93C {
        Some("\u{24FB8}")
    } else if cp == 0x2F93D {
        Some("\u{25044}")
    } else if cp == 0x2F93E {
        Some("\u{3FFC}")
    } else if cp == 0x2F93F {
        Some("\u{4008}")
    } else if cp == 0x2F940 {
        Some("\u{76F4}")
    } else if cp == 0x2F941 {
        Some("\u{250F3}")
    } else if cp == 0x2F942 {
        Some("\u{250F2}")
    } else if cp == 0x2F943 {
        Some("\u{25119}")
    } else if cp == 0x2F944 {
        Some("\u{25133}")
    } else if cp == 0x2F945 {
        Some("\u{771E}")
    } else if cp == 0x2F946 {
        Some("\u{771F}")
    } else if cp == 0x2F947 {
        Some("\u{771F}")
    } else if cp == 0x2F948 {
        Some("\u{774A}")
    } else if cp == 0x2F949 {
        Some("\u{4039}")
    } else if cp == 0x2F94A {
        Some("\u{778B}")
    } else if cp == 0x2F94B {
        Some("\u{4046}")
    } else if cp == 0x2F94C {
        Some("\u{4096}")
    } else if cp == 0x2F94D {
        Some("\u{2541D}")
    } else if cp == 0x2F94E {
        Some("\u{784E}")
    } else if cp == 0x2F94F {
        Some("\u{788C}")
    } else if cp == 0x2F950 {
        Some("\u{78CC}")
    } else {
        None
    }
}

fn canonical_decomposition_of_28(cp: u32) -> (r: Option<&'static str>)
    ensures
        r == canonical_decomposition_28(cp),
{
    if cp == 0x2F911 {
        Some("\u{23F8E}")
    } else if cp == 0x2F912 {
        Some("\u{6FC6}")
    } else if cp == 0x2F913 {
        Some("\u{7039}")
    } else if cp == 0x2F914 {
        Some("\u{701E}")
    } else if cp == 0x2F915 {
        Some("\u{701B}")
    } else if cp == 0x2F916 {
        Some("\u{3D96}")
    } else if cp == 0x2F917 {
        Some("\u{704A}")
    } else if cp == 0x2F918 {
        Some("\u{707D}")
    } else if cp == 0x2F919 {
        Some("\u{7077}")
    } else if cp == 0x2F91A {
        Some("\u{70AD}")
    } else if cp == 0x2F91B {
        Some("\u{20525}")
    } else if cp == 0x2F91C {
        Some("\u{7145}")
    } else if cp == 0x2F91D {
        Some("\u{24263}")
    } else if cp == 0x2F91E {
        Some("\u{719C}")
    } else if cp == 0x2F91F {
        Some("\u{243AB}")
    } else if cp == 0x2F920 {
        Some("\u{7228}")
    } else if cp == 0x2F921 {
        Some("\u{7235}")
    } else if cp == 0x2F922 {
        Some("\u{7250}")
    } else if cp == 0x2F923 {
        Some("\u{24608}")
    } else if cp == 0x2F924 {
        Some("\u{7280}")
    } else if cp == 0x2F925 {
        Some("\u{7295}")
    } else if cp == 0x2F926 {
        Some("\u{24735}")
    } else if cp == 0x2F927 {
        Some("\u{24814}")
    } else if cp == 0x2F928 {
        Some("\u{737A}")
    } else if cp == 0x2F929 {
        Some("\u{738B}")
    } else if cp == 0x2F92A {
        Some("\u{3EAC}")
    } else if cp == 0x2F92B {
        Some("\u{73A5}")
    } else if cp == 0x2F92C {
        Some("\u{3EB8}")
    } else if cp == 0x2F92D {
        Some("\u{3EB8}")
    } else if cp == 0x2F92E {
        Some("\u{7447}")
    } else if cp == 0x2F92F {
        Some("\u{745C}")
    } else if cp == 0x2F930 {
        Some("\u{7471}")
    } else if cp == 0x2F931 {
        Some("\u{7485}")
    } else if cp == 0x2F932 {
        Some("\u{74CA}")
    } else if cp == 0x2F933 {
        Some("\u{3F1B}")
    } else if cp == 0x2F934 {
        Some("\u{7524}")
    } else if cp == 0x2F935 {
        Some("\u{24C36}")
    } else if cp == 0x2F936 {
        Some("\u{753E}")
    } else if cp == 0x2F937 {
        Some("\u{24C92}")
    } else if cp == 0x2F938 {
        Some("\u{7570}")
    } else if cp == 0x2F939 {
        Some("\u{2219F}")
    } else if cp == 0x2F93A {
        Some("\u{7610}")
    } else if cp == 0x2F93B {
        Some("\u{24FA1}")
    } else if cp == 0x2F93C {
        Some("\u{24FB8}")
    } else if cp == 0x2F93D {
        Some("\u{25044}")
    } else if cp == 0x2F93E {
        Some("\u{3FFC}")
    } else if cp == 0x2F93F {
        Some("\u{4008}")
    } else if cp == 0x2F940 {
        Some("\u{76F4}")
    } else if cp == 0x2F941 {
        Some("\u{250F3}")
    } else if cp == 0x2F942 {
        Some("\u{250F2}")
    } else if cp == 0x2F943 {
        Some("\u{25119}")
    } else if cp == 0x2F944 {
        Some("\u{25133}")
    } else if cp == 0x2F945 {
        Some("\u{771E}")
    } else if cp == 0x2F946 {
        Some("\u{771F}")
    } else if cp == 0x2F947 {
        Some("\u{771F}")
    } else if cp == 0x2F948 {
        Some("\u{774A}")
    } else if cp == 0x2F949 {
        Some("\u{4039}")
    } else if cp == 0x2F94A {
        Some("\u{778B}")
    } else if cp == 0x2F94B {
        Some("\u{4046}")
    } else if cp == 0x2F94C {
        Some("\u{4096}")
    } else if cp == 0x2F94D {
        Some("\u{2541D}")
    } else if cp == 0x2F94E {
        Some("\u{784E}")
    } else if cp == 0x2F94F {
        Some("\u{788C}")
    } else if cp == 0x2F950 {
        Some("\u{78CC}")
    } else {
        None
    }
}

/// One part of the table [`canonical_decomposition`], by code point.
pub open spec fn canonical_decomposition_29(cp: u32) -> Option<&'static str> {
    if cp == 0x2F951 {
        Some("\u{40E3}")
    } else if cp == 0x2F952 {
        Some("\u{25626}")
    } else if cp == 0x2F953 {
        Some("\u{7956}")
    } else if cp == 0x2F954 {
        Some("\u{2569A}")
    } else if cp == 0x2F955 {
        Some("\u{256C5}")
    } else if cp == 0x2F956 {
        Some("\u{798F}")
    } else if cp == 0x2F957 {
        Some("\u{79EB}")
    } else if cp == 0x2F958 {
        Some("\u{412F}")
    } else if cp == 0x2F959 {
        Some("\u{7A40}")
    } else if cp == 0x2F95A {
        Some("\u{7A4A}")
    } else if cp == 0x2F95B {
        Some("\u{7A4F}")
    } else if cp == 0x2F95C {
        Some("\u{2597C}")
    } else if cp == 0x2F95D {
        Some("\u{25AA7}")
    } else if cp == 0x2F95E {
        Some("\u{25AA7}")
    } else if cp == 0x2F95F {
        Some("\u{7AEE}")
    } else if cp == 0x2F960 {
        Some("\u{4202}")
    } else if cp == 0x2F961 {
        Some("\u{25BAB}")
    } else if cp == 0x2F962 {
        Some("\u{7BC6}")
    } else if cp == 0x2F963 {
        Some("\u{7BC9}")
    } else if cp == 0x2F964 {
        Some("\u{4227}")
    } else if cp == 0x2F965 {
        Some("\u{25C80}")
    } else if cp == 0x2F966 {
        Some("\u{7CD2}")
    } else if cp == 0x2F967 {
        Some("\u{42A0}")
    } else if cp == 0x2F968 {
        Some("\u{7CE8}")
    } else if cp == 0x2F969 {
        Some("\u{7CE3}")
    } else if cp == 0x2F96A {
        Some("\u{7D00}")
    } else if cp == 0x2F96B {
        Some("\u{25F86}")
    } else if cp == 0x2F96C {
        Some("\u{7D63}")
    } else if cp == 0x2F96D {
        Some("\u{4301}")
    } else if cp == 0x2F96E {
        Some("\u{7DC7}")
    } else if cp == 0x2F96F {
        Some("\u{7E02}")
    } else if cp == 0x2F970 {
        Some("\u{7E45}")
    } else if cp == 0x2F971 {
        Some("\u{4334}")
    } else if cp == 0x2F972 {
        Some("\u{26228}")
    } else if cp == 0x2F973 {
        Some("\u{26247}")
    } else if cp == 0x2F974 {
        Some("\u{4359}")
    } else if cp == 0x2F975 {
        Some("\u{262D9}")
    } else if cp == 0x2F976 {
        Some("\u{7F7A}")
    } else if cp == 0x2F977 {
        Some("\u{2633E}")
    } else if cp == 0x2F978 {
        Some("\u{7F95}")
    } else if cp == 0x2F979 {
        Some("\u{7FFA}")
    } else if cp == 0x2F97A {
        Some("\u{8005}")
    } else if cp == 0x2F97B {
        Some("\u{264DA}")
    } else if cp == 0x2F97C {
        Some("\u{26523}")
    } else if cp == 0x2F97D {
        Some("\u{8060}")
    } else if cp == 0x2F97E {
        Some("\u{265A8}")
    } else if cp == 0x2F97F {
        Some("\u{8070}")
    } else if cp == 0x2F980 {
        Some("\u{2335F}")
    } else if cp == 0x2F981 {
        Some("\u{43D5}")
    } else if cp == 0x2F982 {
        Some("\u{80B2}")
    } else if cp == 0x2F983 {
        Some("\u{8103}")
    } else if cp == 0x2F984 {
        Some("\u{440B}")
    } else if cp == 0x2F985 {
        Some("\u{813E}")
    } else if cp == 0x2F986 {
        Some("\u{5AB5}")
    } else if cp == 0x2F987 {
        Some("\u{267A7}")
    } else if cp == 0x2F988 {
        Some("\u{267B5}")
    } else if cp == 0x2F989 {
        Some("\u{23393}")
    } else if cp == 0x2F98A {
        Some("\u{2339C}")
    } else if cp == 0x2F98B {
        Some("\u{8201}")
    } else if cp == 0x2F98C {
        Some("\u{8204}")
    } else if cp == 0x2F98D {
        Some("\u{8F9E}")
    } else if cp == 0x2F98E {
        Some("\u{446B}")
    } else if cp == 0x2F98F {
        Some("\u{8291}")
    } else if cp == 0x2F990 {
        Some("\u{828B}")
    } else {
        None
    }
}

fn canonical_decomposition_of_29(cp: u32) -> (r: Option<&'static str>)
    ensures
        r == canonical_decomposition_29(cp),
{
    if cp == 0x2F951 {
        Some("\u{40E3}")
    } else if cp == 0x2F952 {
        Some("\u{25626}")
    } else if cp == 0x2F953 {
        Some("\u{7956}")
    } else if cp == 0x2F954 {
        Some("\u{2569A}")
    } else if cp == 0x2F955 {
        Some("\u{256C5}")
    } else if cp == 0x2F956 {
        Some("\u{798F}")
    } else if cp == 0x2F957 {
        Some("\u{79EB}")
    } else if cp == 0x2F958 {
        Some("\u{412F}")
    } else if cp == 0x2F959 {
        Some("\u{7A40}")
    } else if cp == 0x2F95A {
        Some("\u{7A4A}")
    } else if cp == 0x2F95B {
        Some("\u{7A4F}")
    } else if cp == 0x2F95C {
        Some("\u{2597C}")
    } else if cp == 0x2F95D {
        Some("\u{25AA7}")
    } else if cp == 0x2F95E {
        Some("\u{25AA7}")
    } else if cp == 0x2F95F {
        Some("\u{7AEE}")
    } else if cp == 0x2F960 {
        Some("\u{4202}")
    } else if cp == 0x2F961 {
        Some("\u{25BAB}")
    } else if cp == 0x2F962 {
        Some("\u{7BC6}")
    } else if cp == 0x2F963 {
        Some("\u{7BC9}")
    } else if cp == 0x2F964 {
        Some("\u{4227}")
    } else if cp == 0x2F965 {
        Some("\u{25C80}")
    } else if cp == 0x2F966 {
        Some("\u{7CD2}")
    } else if cp == 0x2F967 {
        Some("\u{42A0}")
    } else if cp == 0x2F968 {
        Some("\u{7CE8}")
    } else if cp == 0x2F969 {
        Some("\u{7CE3}")
    } else if cp == 0x2F96A {
        Some("\u{7D00}")
    } else if cp == 0x2F96B {
        Some("\u{25F86}")
    } else if cp == 0x2F96C {
        Some("\u{7D63}")
    } else if cp == 0x2F96D {
        Some("\u{4301}")
    } else if cp == 0x2F96E {
        Some("\u{7DC7}")
    } else if cp == 0x2F96F {
        Some("\u{7E02}")
    } else if cp == 0x2F970 {
        Some("\u{7E45}")
    } else if cp == 0x2F971 {
        Some("\u{4334}")
    } else if cp == 0x2F972 {
        Some("\u{26228}")
    } else if cp == 0x2F973 {
        Some("\u{26247}")
    } else if cp == 0x2F974 {
        Some("\u{4359}")
    } else if cp == 0x2F975 {
        Some("\u{262D9}")
    } else if cp == 0x2F976 {
        Some("\u{7F7A}")
    } else if cp == 0x2F977 {
        Some("\u{2633E}")
    } else if cp == 0x2F978 {
        Some("\u{7F95}")
    } else if cp == 0x2F979 {
        Some("\u{7FFA}")
    } else if cp == 0x2F97A {
        Some("\u{8005}")
    } else if cp == 0x2F97B {
        Some("\u{264DA}")
    } else if cp == 0x2F97C {
        Some("\u{26523}")
    } else if cp == 0x2F97D {
        Some("\u{8060}")
    } else if cp == 0x2F97E {
        Some("\u{265A8}")
    } else if cp == 0x2F97F {
        Some("\u{8070}")
    } else if cp == 0x2F980 {
        Some("\u{2335F}")
    } else if cp == 0x2F981 {
        Some("\u{43D5}")
    } else if cp == 0x2F982 {
        Some("\u{80B2}")
    } else if cp == 0x2F983 {
        Some("\u{8103}")
    } else if cp == 0x2F984 {
        Some("\u{440B}")
    } else if cp == 0x2F985 {
        Some("\u{813E}")
    } else if cp == 0x2F986 {
        Some("\u{5AB5}")
    } else if cp == 0x2F987 {
        Some("\u{267A7}")
    } else if cp == 0x2F988 {
        Some("\u{267B5}")
    } else if cp == 0x2F989 {
        Some("\u{23393}")
    } else if cp == 0x2F98A {
        Some("\u{2339C}")
    } else if cp == 0x2F98B {
        Some("\u{8201}")
    } else if cp == 0x2F98C {
        Some("\u{8204}")
    } else if cp == 0x2F98D {
        Some("\u{8F9E}")
    } else if cp == 0x2F98E {
        Some("\u{446B}")
    } else if cp == 0x2F98F {
        Some("\u{8291}")
    } else if cp == 0x2F990 {
        Some("\u{828B}")
    } else {
        None
    }
}

/// One part of the table [`canonical_decomposition`], by code point.
pub open spec fn canonical_decomposition_30(cp: u32) -> Option<&'static str> {
    if cp == 0x2F991 {
        Some("\u{829D}")
    } else if cp == 0x2F992 {
        Some("\u{52B3}")
    } else if cp == 0x2F993 {
        Some("\u{82B1}")
    } else if cp == 0x2F994 {
        Some("\u{82B3}")
    } else if cp == 0x2F995 {
        Some("\u{82BD}")
    } else if cp == 0x2F996 {
        Some("\u{82E6}")
    } else if cp == 0x2F997 {
        Some("\u{26B3C}")
    } else if cp == 0x2F998 {
        Some("\u{82E5}")
    } else if cp == 0x2F999 {
        Some("\u{831D}")
    } else if cp == 0x2F99A {
        Some("\u{8363}")
    } else if cp == 0x2F99B {
        Some("\u{83AD}")
    } else if cp == 0x2F99C {
        Some("\u{8323}")
    } else if cp == 0x2F99D {
        Some("\u{83BD}")
    } else if cp == 0x2F99E {
        Some("\u{83E7}")
    } else if cp == 0x2F99F {
        Some("\u{8457}")
    } else if cp == 0x2F9A0 {
        Some("\u{8353}")
    } else if cp == 0x2F9A1 {
        Some("\u{83CA}")
    } else if cp == 0x2F9A2 {
        Some("\u{83CC}")
    } else if cp == 0x2F9A3 {
        Some("\u{83DC}")
    } else if cp == 0x2F9A4 {
        Some("\u{26C36}")
    } else if cp == 0x2F9A5 {
        Some("\u{26D6B}")
    } else if cp == 0x2F9A6 {
        Some("\u{26CD5}")
    } else if cp == 0x2F9A7 {
        Some("\u{452B}")
    } else if cp == 0x2F9A8 {
        Some("\u{84F1}")
    } else if cp == 0x2F9A9 {
        Some("\u{84F3}")
    } else if cp == 0x2F9AA {
        Some("\u{8516}")
    } else if cp == 0x2F9AB {
        Some("\u{273CA}")
    } else if cp == 0x2F9AC {
        Some("\u{8564}")
    } else if cp == 0x2F9AD {
        Some("\u{26F2C}")
    } else if cp == 0x2F9AE {
        Some("\u{455D}")
    } else if cp == 0x2F9AF {
        Some("\u{4561}")
    } else if cp == 0x2F9B0 {
        Some("\u{26FB1}")
    } else if cp == 0x2F9B1 {
        Some("\u{270D2}")
    } else if cp == 0x2F9B2 {
        Some("\u{456B}")
    } else if cp == 0x2F9B3 {
        Some("\u{8650}")
    } else if cp == 0x2F9B4 {
        Some("\u{865C}")
    } else if cp == 0x2F9B5 {
        Some("\u{8667}")
    } else if cp == 0x2F9B6 {
        Some("\u{8669}")
    } else if cp == 0x2F9B7 {
        Some("\u{86A9}")
    } else if cp == 0x2F9B8 {
        Some("\u{8688}")
    } else if cp == 0x2F9B9 {
        Some("\u{870E}")
    } else if cp == 0x2F9BA {
        Some("\u{86E2}")
    } else if cp == 0x2F9BB {
        Some("\u{8779}")
    } else if cp == 0x2F9BC {
        Some("\u{8728}")
    } else if cp == 0x2F9BD {
        Some("\u{876B}")
    } else if cp == 0x2F9BE {
        Some("\u{8786}")
    } else if cp == 0x2F9BF {
        Some("\u{45D7}")
    } else if cp == 0x2F9C0 {
        Some("\u{87E1}")
    } else if cp == 0x2F9C1 {
        Some("\u{8801}")
    } else if cp == 0x2F9C2 {
        Some("\u{45F9}")
    } else if cp == 0x2F9C3 {
        Some("\u{8860}")
    } else if cp == 0x2F9C4 {
        Some("\u{8863}")
    } else if cp == 0x2F9C5 {
        Some("\u{27667}")
    } else if cp == 0x2F9C6 {
        Some("\u{88D7}")
    } else if cp == 0x2F9C7 {
        Some("\u{88DE}")
    } else if cp == 0x2F9C8 {
        Some("\u{4635}")
    } else if cp == 0x2F9C9 {
        Some("\u{88FA}")
    } else if cp == 0x2F9CA {
        Some("\u{34BB}")
    } else if cp == 0x2F9CB {
        Some("\u{278AE}")
    } else if cp == 0x2F9CC {
        Some("\u{27966}")
    } else if cp == 0x2F9CD {
        Some("\u{46BE}")
    } else if cp == 0x2F9CE {
        Some("\u{46C7}")
    } else if cp == 0x2F9CF {
        Some("\u{8AA0}")
    } else if cp == 0x2F9D0 {
        Some("\u{8AED}")
    } else {
        None
    }
}

fn canonical_decomposition_of_30(cp: u32) -> (r: Option<&'static str>)
    ensures
        r == canonical_decomposition_30(cp),
{
    if cp == 0x2F991 {
        Some("\u{829D}")
    } else if cp == 0x2F992 {
        Some("\u{52B3}")
    } else if cp == 0x2F993 {
        Some("\u{82B1}")
    } else if cp == 0x2F994 {
        Some("\u{82B3}")
    } else if cp == 0x2F995 {
        Some("\u{82BD}")
    } else if cp == 0x2F996 {
        Some("\u{82E6}")
    } else if cp == 0x2F997 {
        Some("\u{26B3C}")
    } else if cp == 0x2F998 {
        Some("\u{82E5}")
    } else if cp == 0x2F999 {
        Some("\u{831D}")
    } else if cp == 0x2F99A {
        Some("\u{8363}")
    } else if cp == 0x2F99B {
        Some("\u{83AD}")
    } else if cp == 0x2F99C {
        Some("\u{8323}")
    } else if cp == 0x2F99D {
        Some("\u{83BD}")
    } else if cp == 0x2F99E {
        Some("\u{83E7}")
    } else if cp == 0x2F99F {
        Some("\u{8457}")
    } else if cp == 0x2F9A0 {
        Some("\u{8353}")
    } else if cp == 0x2F9A1 {
        Some("\u{83CA}")
    } else if cp == 0x2F9A2 {
        Some("\u{83CC}")
    } else if cp == 0x2F9A3 {
        Some("\u{83DC}")
    } else if cp == 0x2F9A4 {
        Some("\u{26C36}")
    } else if cp == 0x2F9A5 {
        Some("\u{26D6B}")
    } else if cp == 0x2F9A6 {
        Some("\u{26CD5}")
    } else if cp == 0x2F9A7 {
        Some("\u{452B}")
    } else if cp == 0x2F9A8 {
        Some("\u{84F1}")
    } else if cp == 0x2F9A9 {
        Some("\u{84F3}")
    } else if cp == 0x2F9AA {
        Some("\u{8516}")
    } else if cp == 0x2F9AB {
        Some("\u{273CA}")
    } else if cp == 0x2F9AC {
        Some("\u{8564}")
    } else if cp == 0x2F9AD {
        Some("\u{26F2C}")
    } else if cp == 0x2F9AE {
        Some("\u{455D}")
    } else if cp == 0x2F9AF {
        Some("\u{4561}")
    } else if cp == 0x2F9B0 {
        Some("\u{26FB1}")
    } else if cp == 0x2F9B1 {
        Some("\u{270D2}")
    } else if cp == 0x2F9B2 {
        Some("\u{456B}")
    } else if cp == 0x2F9B3 {
        Some("\u{8650}")
    } else if cp == 0x2F9B4 {
        Some("\u{865C}")
    } else if cp == 0x2F9B5 {
        Some("\u{8667}")
    } else if cp == 0x2F9B6 {
        Some("\u{8669}")
    } else if cp == 0x2F9B7 {
        Some("\u{86A9}")
    } else if cp == 0x2F9B8 {
        Some("\u{8688}")
    } else if cp == 0x2F9B9 {
        Some("\u{870E}")
    } else if cp == 0x2F9BA {
        Some("\u{86E2}")
    } else if cp == 0x2F9BB {
        Some("\u{8779}")
    } else if cp == 0x2F9BC {
        Some("\u{8728}")
    } else if cp == 0x2F9BD {
        Some("\u{876B}")
    } else if cp == 0x2F9BE {
        Some("\u{8786}")
    } else if cp == 0x2F9BF {
        Some("\u{45D7}")
    } else if cp == 0x2F9C0 {
        Some("\u{87E1}")
    } else if cp == 0x2F9C1 {
        Some("\u{8801}")
    } else if cp == 0x2F9C2 {
        Some("\u{45F9}")
    } else if cp == 0x2F9C3 {
        Some("\u{8860}")
    } else if cp == 0x2F9C4 {
        Some("\u{8863}")
    } else if cp == 0x2F9C5 {
        Some("\u{27667}")
    } else if cp == 0x2F9C6 {
        Some("\u{88D7}")
    } else if cp == 0x2F9C7 {
        Some("\u{88DE}")
    } else if cp == 0x2F9C8 {
        Some("\u{4635}")
    } else if cp == 0x2F9C9 {
        Some("\u{88FA}")
    } else if cp == 0x2F9CA {
        Some("\u{34BB}")
    } else if cp == 0x2F9CB {
        Some("\u{278AE}")
    } else if cp == 0x2F9CC {
        Some("\u{27966}")
    } else if cp == 0x2F9CD {
        Some("\u{46BE}")
    } else if cp == 0x2F9CE {
        Some("\u{46C7}")
    } else if cp == 0x2F9CF {
        Some("\u{8AA0}")
    } else if cp == 0x2F9D0 {
        Some("\u{8AED}")
    } else {
        None
    }
}

/// One part of the table [`canonical_decomposition`], by code point.
pub open spec fn canonical_decomposition_31(cp: u32) -> Option<&'static str> {
    if cp == 0x2F9D1 {
        Some("\u{8B8A}")
    } else if cp == 0x2F9D2 {
        Some("\u{8C55}")
    } else if cp == 0x2F9D3 {
        Some("\u{27CA8}")
    } else if cp == 0x2F9D4 {
        Some("\u{8CAB}")
    } else if cp == 0x2F9D5 {
        Some("\u{8CC1}")
    } else if cp == 0x2F9D6 {
        Some("\u{8D1B}")
    } else if cp == 0x2F9D7 {
        Some("\u{8D77}")
    } else if cp == 0x2F9D8 {
        Some("\u{27F2F}")
    } else if cp == 0x2F9D9 {
        Some("\u{20804}")
    } else if cp == 0x2F9DA {
        Some("\u{8DCB}")
    } else if cp == 0x2F9DB {
        Some("\u{8DBC}")
    } else if cp == 0x2F9DC {
        Some("\u{8DF0}")
    } else if cp == 0x2F9DD {
        Some("\u{208DE}")
    } else if cp == 0x2F9DE {
        Some("\u{8ED4}")
    } else if cp == 0x2F9DF {
        Some("\u{8F38}")
    } else if cp == 0x2F9E0 {
        Some("\u{285D2}")
    } else if cp == 0x2F9E1 {
        Some("\u{285ED}")
    } else if cp == 0x2F9E2 {
        Some("\u{9094}")
    } else if cp == 0x2F9E3 {
        Some("\u{90F1}")
    } else if cp == 0x2F9E4 {
        Some("\u{9111}")
    } else if cp == 0x2F9E5 {
        Some("\u{2872E}")
    } else if cp == 0x2F9E6 {
        Some("\u{911B}")
    } else if cp == 0x2F9E7 {
        Some("\u{9238}")
    } else if cp == 0x2F9E8 {
        Some("\u{92D7}")
    } else if cp == 0x2F9E9 {
        Some("\u{92D8}")
    } else if cp == 0x2F9EA {
        Some("\u{927C}")
    } else if cp == 0x2F9EB {
        Some("\u{93F9}")
    } else if cp == 0x2F9EC {
        Some("\u{9415}")
    } else if cp == 0x2F9ED {
        Some("\u{28BFA}")
    } else if cp == 0x2F9EE {
        Some("\u{958B}")
    } else if cp == 0x2F9EF {
        Some("\u{4995}")
    } else if cp == 0x2F9F0 {
        Some("\u{95B7}")
    } else if cp == 0x2F9F1 {
        Some("\u{28D77}")
    } else if cp == 0x2F9F2 {
        Some("\u{49E6}")
    } else if cp == 0x2F9F3 {
        Some("\u{96C3}")
    } else if cp == 0x2F9F4 {
        Some("\u{5DB2}")
    } else if cp == 0x2F9F5 {
        Some("\u{9723}")
    } else if cp == 0x2F9F6 {
        Some("\u{29145}")
    } else if cp == 0x2F9F7 {
        Some("\u{2921A}")
    } else if cp == 0x2F9F8 {
        Some("\u{4A6E}")
    } else if cp == 0x2F9F9 {
        Some("\u{4A76}")
    } else if cp == 0x2F9FA {
        Some("\u{97E0}")
    } else if cp == 0x2F9FB {
        Some("\u{2940A}")
    } else if cp == 0x2F9FC {
        Some("\u{4AB2}")
    } else if cp == 0x2F9FD {
        Some("\u{29496}")
    } else if cp == 0x2F9FE {
        Some("\u{980B}")
    } else if cp == 0x2F9FF {
        Some("\u{980B}")
    } else if cp == 0x2FA00 {
        Some("\u{9829}")
    } else if cp == 0x2FA01 {
        Some("\u{295B6}")
    } else if cp == 0x2FA02 {
        Some("\u{98E2}")
    } else if cp == 0x2FA03 {
        Some("\u{4B33}")
    } else if cp == 0x2FA04 {
        Some("\u{9929}")
    } else if cp == 0x2FA05 {
        Some("\u{99A7}")
    } else if cp == 0x2FA06 {
        Some("\u{99C2}")
    } else if cp == 0x2FA07 {
        Some("\u{99FE}")
    } else if cp == 0x2FA08 {
        Some("\u{4BCE}")
    } else if cp == 0x2FA09 {
        Some("\u{29B30}")
    } else if cp == 0x2FA0A {
        Some("\u{9B12}")
    } else if cp == 0x2FA0B {
        Some("\u{9C40}")
    } else if cp == 0x2FA0C {
        Some("\u{9CFD}")
    } else if cp == 0x2FA0D {
        Some("\u{4CCE}")
    } else if cp == 0x2FA0E {
        Some("\u{4CED}")
    } else if cp == 0x2FA0F {
        Some("\u{9D67}")
    } else if cp == 0x2FA10 {
        Some("\u{2A0CE}")
    } else {
        None
    }
}

fn canonical_decomposition_of_31(cp: u32) -> (r: Option<&'static str>)
    ensures
        r == canonical_decomposition_31(cp),
{
    if cp == 0x2F9D1 {
        Some("\u{8B8A}")
    } else if cp == 0x2F9D2 {
        Some("\u{8C55}")
    } else if cp == 0x2F9D3 {
        Some("\u{27CA8}")
    } else if cp == 0x2F9D4 {
        Some("\u{8CAB}")
    } else if cp == 0x2F9D5 {
        Some("\u{8CC1}")
    } else if cp == 0x2F9D6 {
        Some("\u{8D1B}")
    } else if cp == 0x2F9D7 {
        Some("\u{8D77}")
    } else if cp == 0x2F9D8 {
        Some("\u{27F2F}")
    } else if cp == 0x2F9D9 {
        Some("\u{20804}")
    } else if cp == 0x2F9DA {
        Some("\u{8DCB}")
    } else if cp == 0x2F9DB {
        Some("\u{8DBC}")
    } else if cp == 0x2F9DC {
        Some("\u{8DF0}")
    } else if cp == 0x2F9DD {
        Some("\u{208DE}")
    } else if cp == 0x2F9DE {
        Some("\u{8ED4}")
    } else if cp == 0x2F9DF {
        Some("\u{8F38}")
    } else if cp == 0x2F9E0 {
        Some("\u{285D2}")
    } else if cp == 0x2F9E1 {
        Some("\u{285ED}")
    } else if cp == 0x2F9E2 {
        Some("\u{9094}")
    } else if cp == 0x2F9E3 {
        Some("\u{90F1}")
    } else if cp == 0x2F9E4 {
        Some("\u{9111}")
    } else if cp == 0x2F9E5 {
        Some("\u{2872E}")
    } else if cp == 0x2F9E6 {
        Some("\u{911B}")
    } else if cp == 0x2F9E7 {
        Some("\u{9238}")
    } else if cp == 0x2F9E8 {
        Some("\u{92D7}")
    } else if cp == 0x2F9E9 {
        Some("\u{92D8}")
    } else if cp == 0x2F9EA {
        Some("\u{927C}")
    } else if cp == 0x2F9EB {
        Some("\u{93F9}")
    } else if cp == 0x2F9EC {
        Some("\u{9415}")
    } else if cp == 0x2F9ED {
        Some("\u{28BFA}")
    } else if cp == 0x2F9EE {
        Some("\u{958B}")
    } else if cp == 0x2F9EF {
        Some("\u{4995}")
    } else if cp == 0x2F9F0 {
        Some("\u{95B7}")
    } else if cp == 0x2F9F1 {
        Some("\u{28D77}")
    } else if cp == 0x2F9F2 {
        Some("\u{49E6}")
    } else if cp == 0x2F9F3 {
        Some("\u{96C3}")
    } else if cp == 0x2F9F4 {
        Some("\u{5DB2}")
    } else if cp == 0x2F9F5 {
        Some("\u{9723}")
    } else if cp == 0x2F9F6 {
        Some("\u{29145}")
    } else if cp == 0x2F9F7 {
        Some("\u{2921A}")
    } else if cp == 0x2F9F8 {
        Some("\u{4A6E}")
    } else if cp == 0x2F9F9 {
        Some("\u{4A76}")
    } else if cp == 0x2F9FA {
        Some("\u{97E0}")
    } else if cp == 0x2F9FB {
        Some("\u{2940A}")
    } else if cp == 0x2F9FC {
        Some("\u{4AB2}")
    } else if cp == 0x2F9FD {
        Some("\u{29496}")
    } else if cp == 0x2F9FE {
        Some("\u{980B}")
    } else if cp == 0x2F9FF {
        Some("\u{980B}")
    } else if cp == 0x2FA00 {
        Some("\u{9829}")
    } else if cp == 0x2FA01 {
        Some("\u{295B6}")
    } else if cp == 0x2FA02 {
        Some("\u{98E2}")
    } else if cp == 0x2FA03 {
        Some("\u{4B33}")
    } else if cp == 0x2FA04 {
        Some("\u{9929}")
    } else if cp == 0x2FA05 {
        Some("\u{99A7}")
    } else if cp == 0x2FA06 {
        Some("\u{99C2}")
    } else if cp == 0x2FA07 {
        Some("\u{99FE}")
    } else if cp == 0x2FA08 {
        Some("\u{4BCE}")
    } else if cp == 0x2FA09 {
        Some("\u{29B30}")
    } else if cp == 0x2FA0A {
        Some("\u{9B12}")
    } else if cp == 0x2FA0B {
        Some("\u{9C40}")
    } else if cp == 0x2FA0C {
        Some("\u{9CFD}")
    } else if cp == 0x2FA0D {
        Some("\u{4CCE}")
    } else if cp == 0x2FA0E {
        Some("\u{4CED}")
    } else if cp == 0x2FA0F {
        Some("\u{9D67}")
    } else if cp == 0x2FA10 {
        Some("\u{2A0CE}")
    } else {
        None
    }
}

/// One part of the table [`canonical_decomposition`], by code point.
pub open spec fn canonical_decomposition_32(cp: u32) -> Option<&'static str> {
    if cp == 0x2FA11 {
        Some("\u{4CF8}")
    } else if cp == 0x2FA12 {
        Some("\u{2A105}")
    } else if cp == 0x2FA13 {
        Some("\u{2A20E}")
    } else if cp == 0x2FA14 {
        Some("\u{2A291}")
    } else if cp == 0x2FA15 {
        Some("\u{9EBB}")
    } else if cp == 0x2FA16 {
        Some("\u{4D56}")
    } else if cp == 0x2FA17 {
        Some("\u{9EF9}")
    } else if cp == 0x2FA18 {
        Some("\u{9EFE}")
    } else if cp == 0x2FA19 {
        Some("\u{9F05}")
    } else if cp == 0x2FA1A {
        Some("\u{9F0F}")
    } else if cp == 0x2FA1B {
        Some("\u{9F16}")
    } else if cp == 0x2FA1C {
        Some("\u{9F3B}")
    } else if cp == 0x2FA1D {
        Some("\u{2A600}")
    } else {
        None
    }
}

fn canonical_decomposition_of_32(cp: u32) -> (r: Option<&'static str>)
    ensures
        r == canonical_decomposition_32(cp),
{
    if cp == 0x2FA11 {
        Some("\u{4CF8}")
    } else if cp == 0x2FA12 {
        Some("\u{2A105}")
    } else if cp == 0x2FA13 {
        Some("\u{2A20E}")
    } else if cp == 0x2FA14 {
        Some("\u{2A291}")
    } else if cp == 0x2FA15 {
        Some("\u{9EBB}")
    } else if cp == 0x2FA16 {
        Some("\u{4D56}")
    } else if cp == 0x2FA17 {
        Some("\u{9EF9}")
    } else if cp == 0x2FA18 {
        Some("\u{9EFE}")
    } else if cp == 0x2FA19 {
        Some("\u{9F05}")
    } else if cp == 0x2FA1A {
        Some("\u{9F0F}")
    } else if cp == 0x2FA1B {
        Some("\u{9F16}")
    } else if cp == 0x2FA1C {
        Some("\u{9F3B}")
    } else if cp == 0x2FA1D {
        Some("\u{2A600}")
    } else {
        None
    }
}

} // verus!
