//! Splitting a string into text runs and number runs.
//!
//! A string is read left to right: a (possibly empty) run of text up to the
//! first position where a number starts, then that number, then again text,
//! and so on. Under the integer algorithms a number is an optional sign and a
//! run of decimal digits, of any length; under the float algorithms it is a
//! decimal with optional sign, fraction and exponent, kept as its ASCII text.
//! A digit that is not a decimal digit (integer algorithms), or a numeric
//! character that is not a decimal digit (float algorithms), is a number by itself.

use vstd::prelude::*;

use crate::chars::{
    ascii_digit, ascii_digit_char, digit_of, digit_value, is_digit, is_sign, numeric_char_text,
    numeric_text_value, other_digit, other_digit_of,
};
use crate::key::chars_of;
use crate::number::{digits_num, is_numeral};
use crate::flags::Ns;
use crate::text::{apply_text_transform, transform};

verus! {

/// 2^127: one more than the largest `i128`, and the magnitude of the smallest.
pub const INT_LIMIT: u128 = 170141183460469231731687303715884105728u128;

/// One run of a split string.
pub enum Token {
    /// A text run, already transformed by the flags.
    Text(Seq<char>),
    /// An integer run and its value.
    Int(int),
    /// A decimal run, as ASCII text (`[sign] digits [. digits] [e [sign] digits]`).
    Decimal(Seq<char>),
}

/// A number starts at position `i`: a decimal digit, or (with `signed`) a sign
/// before a decimal digit, or (with `float`) a point before a decimal digit, or a
/// sign before such a point; or a character that is a number on its own: under
/// the integer algorithms a digit that is not a decimal digit, under the float
/// algorithms a numeric character that is not a decimal digit.
pub open spec fn number_starts_at(cs: Seq<char>, i: int, ns: Ns) -> bool {
    let n = cs.len();
    ||| is_digit(cs[i])
    ||| ns.signed && is_sign(cs[i]) && i + 1 < n && is_digit(cs[i + 1])
    ||| ns.signed && is_sign(cs[i]) && ns.float && i + 1 < n && cs[i + 1] == '.' && i + 2 < n
        && is_digit(cs[i + 2])
    ||| ns.float && cs[i] == '.' && i + 1 < n && is_digit(cs[i + 1])
    ||| !ns.float && other_digit_of(cs[i]) is Some
    ||| ns.float && numeric_char_text(cs[i]) is Some
}

/// A character that is a number on its own under the flags.
pub open spec fn single_number(c: char, ns: Ns) -> bool {
    if ns.float {
        numeric_char_text(c) is Some
    } else {
        other_digit_of(c) is Some
    }
}

/// The end of the text run that begins at `i`: the first position at or after
/// `i` where a number starts, or the end of the string.
pub open spec fn text_end(cs: Seq<char>, i: int, ns: Ns) -> int
    decreases cs.len() - i,
{
    if 0 <= i < cs.len() && !number_starts_at(cs, i, ns) {
        text_end(cs, i + 1, ns)
    } else {
        i
    }
}

/// The end of the run of digits that begins at `j`.
pub open spec fn digits_end(cs: Seq<char>, j: int) -> int
    decreases cs.len() - j,
{
    if 0 <= j < cs.len() && is_digit(cs[j]) {
        digits_end(cs, j + 1)
    } else {
        j
    }
}

/// Where the digits of a number starting at `i` begin: after its sign, if the
/// flags read one there.
pub open spec fn sign_end(cs: Seq<char>, i: int, ns: Ns) -> int {
    if ns.signed && 0 <= i < cs.len() && is_sign(cs[i]) {
        i + 1
    } else {
        i
    }
}

/// The value of a run of digits, most significant first.
pub open spec fn digits_value(s: Seq<char>) -> nat
    decreases s.len(),
{
    if s.len() == 0 {
        0
    } else {
        digits_value(s.drop_last()) * 10 + digit_of(s.last()).unwrap() as nat
    }
}

/// Leading zeros do not change the value of a run of digits: `007` reads as `7`.
pub proof fn lemma_digits_value_leading_zero(z: char, s: Seq<char>)
    requires
        digit_of(z) == Some(0u32),
    ensures
        digits_value(seq![z] + s) == digits_value(s),
    decreases s.len(),
{
    let t = seq![z] + s;
    if s.len() == 0 {
        assert(t.drop_last() =~= Seq::<char>::empty());
        assert(t.last() == z);
        assert(digits_value(t) == digits_value(t.drop_last()) * 10 + digit_of(z).unwrap() as nat);
    } else {
        lemma_digits_value_leading_zero(z, s.drop_last());
        assert(t.drop_last() =~= seq![z] + s.drop_last());
        assert(t.last() == s.last());
        assert(digits_value(t) == digits_value(t.drop_last()) * 10 + digit_of(s.last()).unwrap() as nat);
    }
}

/// The integer that a sign and a run of digits read as.
pub open spec fn int_value(neg: bool, digits: Seq<char>) -> int {
    if neg {
        -(digits_value(digits) as int)
    } else {
        digits_value(digits) as int
    }
}

/// The ASCII digits with the same values as the digits of `s`.
pub open spec fn ascii_digits(s: Seq<char>) -> Seq<char> {
    s.map_values(|c: char| ascii_digit(c))
}

/// A decimal point at `k` belongs to the number: a digit follows it, or digits precede it.
pub open spec fn point_taken(cs: Seq<char>, k: int, has_digits: bool) -> bool {
    &&& 0 <= k < cs.len()
    &&& cs[k] == '.'
    &&& (k + 1 < cs.len() && is_digit(cs[k + 1])) || has_digits
}

/// The end of the digits and fraction of a decimal starting at `i`.
pub open spec fn mantissa_end(cs: Seq<char>, i: int, ns: Ns) -> int {
    let s = sign_end(cs, i, ns);
    let k = digits_end(cs, s);
    if point_taken(cs, k, k > s) {
        digits_end(cs, k + 1)
    } else {
        k
    }
}

/// The text of the sign, digits and fraction of a decimal starting at `i`.
pub open spec fn mantissa_text(cs: Seq<char>, i: int, ns: Ns) -> Seq<char> {
    let s = sign_end(cs, i, ns);
    let k = digits_end(cs, s);
    let whole = cs.subrange(i, s) + ascii_digits(cs.subrange(s, k));
    if point_taken(cs, k, k > s) {
        whole + seq!['.'] + ascii_digits(cs.subrange(k + 1, digits_end(cs, k + 1)))
    } else {
        whole
    }
}

/// Where the digits of an exponent marker at `m` begin: after its sign, if any.
pub open spec fn exponent_start(cs: Seq<char>, m: int) -> int {
    if m + 1 < cs.len() && is_sign(cs[m + 1]) {
        m + 2
    } else {
        m + 1
    }
}

/// An exponent at `m` belongs to the number: `e` or `E`, an optional sign, and at
/// least one digit.
pub open spec fn exponent_taken(cs: Seq<char>, m: int) -> bool {
    &&& 0 <= m < cs.len()
    &&& cs[m] == 'e' || cs[m] == 'E'
    &&& digits_end(cs, exponent_start(cs, m)) > exponent_start(cs, m)
}

/// The end of a decimal starting at `i`.
pub open spec fn decimal_end(cs: Seq<char>, i: int, ns: Ns) -> int {
    let m = mantissa_end(cs, i, ns);
    if exponent_taken(cs, m) {
        digits_end(cs, exponent_start(cs, m))
    } else {
        m
    }
}

/// The ASCII text of a decimal starting at `i`; the exponent marker is written `e`.
pub open spec fn decimal_text(cs: Seq<char>, i: int, ns: Ns) -> Seq<char> {
    let m = mantissa_end(cs, i, ns);
    let t = mantissa_text(cs, i, ns);
    if exponent_taken(cs, m) {
        let e = exponent_start(cs, m);
        t + seq!['e'] + cs.subrange(m + 1, e) + ascii_digits(cs.subrange(e, digits_end(cs, e)))
    } else {
        t
    }
}

/// The number that starts at `i`.
pub open spec fn number_token(cs: Seq<char>, i: int, ns: Ns) -> Token {
    if single_number(cs[i], ns) {
        if ns.float {
            Token::Decimal(numeric_char_text(cs[i]).unwrap()@)
        } else {
            Token::Int(other_digit_of(cs[i]).unwrap() as int)
        }
    } else if ns.float {
        Token::Decimal(decimal_text(cs, i, ns))
    } else {
        let s = sign_end(cs, i, ns);
        Token::Int(int_value(s > i && cs[i] == '-', cs.subrange(s, digits_end(cs, s))))
    }
}

/// The end of the number that starts at `i`.
pub open spec fn number_end(cs: Seq<char>, i: int, ns: Ns) -> int {
    if single_number(cs[i], ns) {
        i + 1
    } else if ns.float {
        decimal_end(cs, i, ns)
    } else {
        digits_end(cs, sign_end(cs, i, ns))
    }
}

/// The runs of `cs` from position `i` on: a text run (possibly empty), then, if the
/// string goes on, a number, and after it the runs from where the number ends.
pub open spec fn tokens_from(cs: Seq<char>, ns: Ns, i: int) -> Seq<Token>
    decreases cs.len() - i,
{
    let t = text_end(cs, i, ns);
    let head = seq![Token::Text(transform(cs.subrange(i, t), ns))];
    if t >= cs.len() {
        head
    } else {
        let j = number_end(cs, t, ns);
        if j >= cs.len() || j <= i {
            head.push(number_token(cs, t, ns))
        } else {
            head.push(number_token(cs, t, ns)) + tokens_from(cs, ns, j)
        }
    }
}

/// The runs of the whole string.
pub open spec fn tokens(cs: Seq<char>, ns: Ns) -> Seq<Token> {
    tokens_from(cs, ns, 0)
}

/// A run of digits ends within the string, takes at least the digit it starts
/// at, and holds only digits.
pub proof fn lemma_digits_end_bounds(cs: Seq<char>, j: int)
    requires
        0 <= j <= cs.len(),
    ensures
        j <= digits_end(cs, j) <= cs.len(),
        j < cs.len() && is_digit(cs[j]) ==> digits_end(cs, j) > j,
        forall|k: int| j <= k < digits_end(cs, j) ==> is_digit(#[trigger] cs[k]),
    decreases cs.len() - j,
{
    if j < cs.len() && is_digit(cs[j]) {
        lemma_digits_end_bounds(cs, j + 1);
    }
}

/// A text run ends within the string, and where it ends before the end of the
/// string a number starts.
pub proof fn lemma_text_end_bounds(cs: Seq<char>, i: int, ns: Ns)
    requires
        0 <= i <= cs.len(),
    ensures
        i <= text_end(cs, i, ns) <= cs.len(),
        text_end(cs, i, ns) < cs.len() ==> number_starts_at(cs, text_end(cs, i, ns), ns),
    decreases cs.len() - i,
{
    if i < cs.len() && !number_starts_at(cs, i, ns) {
        lemma_text_end_bounds(cs, i + 1, ns);
    }
}

/// A number that starts at `t` takes at least one character, and ends within the string.
pub proof fn lemma_number_end_bounds(cs: Seq<char>, t: int, ns: Ns)
    requires
        0 <= t < cs.len(),
        number_starts_at(cs, t, ns),
    ensures
        t < number_end(cs, t, ns) <= cs.len(),
{
    if single_number(cs[t], ns) {
        return;
    }
    let s = sign_end(cs, t, ns);
    lemma_digits_end_bounds(cs, s);
    let k = digits_end(cs, s);
    if ns.float {
        if point_taken(cs, k, k > s) {
            lemma_digits_end_bounds(cs, k + 1);
        }
        let m = mantissa_end(cs, t, ns);
        if exponent_taken(cs, m) {
            lemma_digits_end_bounds(cs, exponent_start(cs, m));
        }
    }
}

/// The exec form of a split run.
pub enum Piece {
    Text(Vec<char>),
    Int(i128),
    /// An integer outside the `i128` range: its sign and its digits.
    BigInt(bool, Vec<u8>),
    Decimal(Vec<char>),
}

impl View for Piece {
    type V = Token;

    open spec fn view(&self) -> Token {
        match self {
            Piece::Text(t) => Token::Text(t@),
            Piece::Int(v) => Token::Int(*v as int),
            Piece::BigInt(neg, d) => Token::Int(signed_num(*neg, d@)),
            Piece::Decimal(t) => Token::Decimal(t@),
        }
    }
}

/// The integer with sign `neg` and digits `d`.
pub open spec fn signed_num(neg: bool, d: Seq<u8>) -> int {
    if neg {
        -(digits_num(d) as int)
    } else {
        digits_num(d) as int
    }
}

/// An integer that does not fit in an `i128`, as a sign and a numeral.
pub open spec fn big_int_wf(neg: bool, d: Seq<u8>) -> bool {
    &&& is_numeral(d)
    &&& if neg {
        digits_num(d) > INT_LIMIT
    } else {
        digits_num(d) >= INT_LIMIT
    }
}

/// A piece's integer is held as an `i128` where it fits, and otherwise as a
/// well-formed big integer.
pub open spec fn piece_wf(p: Piece) -> bool {
    match p {
        Piece::BigInt(neg, d) => big_int_wf(neg, d@),
        _ => true,
    }
}

/// The views of a sequence of pieces.
pub open spec fn token_seq(ps: Seq<Piece>) -> Seq<Token> {
    ps.map_values(|p: Piece| p@)
}

fn is_sign_char(c: char) -> (r: bool)
    ensures
        r == is_sign(c),
{
    c == '+' || c == '-'
}

fn is_digit_char(c: char) -> (r: bool)
    ensures
        r == is_digit(c),
{
    match digit_value(c) {
        Some(_) => true,
        None => false,
    }
}

/// Whether a number starts at position `i` of `cs`.
pub fn is_number_start(cs: &Vec<char>, i: usize, ns: Ns) -> (r: bool)
    requires
        i < cs.len(),
    ensures
        r == number_starts_at(cs@, i as int, ns),
{
    let n = cs.len();
    if is_digit_char(cs[i]) {
        return true;
    }
    if ns.signed && is_sign_char(cs[i]) {
        if i + 1 < n && is_digit_char(cs[i + 1]) {
            return true;
        }
        if ns.float && i + 1 < n && cs[i + 1] == '.' && i + 2 < n && is_digit_char(cs[i + 2]) {
            return true;
        }
    }
    if ns.float && cs[i] == '.' && i + 1 < n && is_digit_char(cs[i + 1]) {
        return true;
    }
    if ns.float {
        numeric_text_value(cs[i]).is_some()
    } else {
        other_digit(cs[i]).is_some()
    }
}

fn text_run_end(cs: &Vec<char>, i: usize, ns: Ns) -> (r: usize)
    requires
        i <= cs.len(),
    ensures
        r as int == text_end(cs@, i as int, ns),
{
    let mut j = i;
    while j < cs.len() && !is_number_start(cs, j, ns)
        invariant
            i <= j <= cs.len(),
            text_end(cs@, i as int, ns) == text_end(cs@, j as int, ns),
        decreases cs.len() - j,
    {
        j = j + 1;
    }
    j
}

/// Appends the ASCII forms of the digits from `j` on; returns where the digits end.
fn copy_digits(cs: &Vec<char>, j: usize, out: &mut Vec<char>) -> (e: usize)
    requires
        j <= cs.len(),
    ensures
        e as int == digits_end(cs@, j as int),
        final(out)@ == old(out)@ + ascii_digits(cs@.subrange(j as int, e as int)),
{
    let ghost start = out@;
    let mut k = j;
    loop
        invariant_except_break
            j <= k <= cs.len(),
            digits_end(cs@, j as int) == digits_end(cs@, k as int),
            out@ == start + ascii_digits(cs@.subrange(j as int, k as int)),
        ensures
            k as int == digits_end(cs@, j as int),
            out@ == start + ascii_digits(cs@.subrange(j as int, k as int)),
        decreases cs.len() - k,
    {
        if k >= cs.len() {
            break;
        }
        match digit_value(cs[k]) {
            Some(d) => {
                out.push(ascii_digit_char(d));
                assert(ascii_digits(cs@.subrange(j as int, k + 1)) =~= ascii_digits(
                    cs@.subrange(j as int, k as int),
                ).push(ascii_digit(cs@[k as int])));
                k = k + 1;
            },
            None => {
                break;
            },
        }
    }
    k
}

/// Reads the run of digits from `s` on as an integer with the given sign;
/// returns it and where the digits end.
fn read_int(cs: &Vec<char>, s: usize, neg: bool) -> (r: (Piece, usize))
    requires
        s <= cs.len(),
    ensures
        r.1 as int == digits_end(cs@, s as int),
        r.0@ == Token::Int(int_value(neg, cs@.subrange(s as int, r.1 as int))),
        piece_wf(r.0),
{
    let mut k = s;
    let mut acc: u128 = 0;
    let mut over = false;
    let mut numeral: Vec<u8> = Vec::new();
    loop
        invariant_except_break
            s <= k <= cs.len(),
            digits_end(cs@, s as int) == digits_end(cs@, k as int),
            !over ==> acc == digits_value(cs@.subrange(s as int, k as int)) && acc <= INT_LIMIT,
            over ==> digits_value(cs@.subrange(s as int, k as int)) > INT_LIMIT,
            is_numeral(numeral@),
            digits_num(numeral@) == digits_value(cs@.subrange(s as int, k as int)),
        ensures
            k as int == digits_end(cs@, s as int),
            !over ==> acc == digits_value(cs@.subrange(s as int, k as int)) && acc <= INT_LIMIT,
            over ==> digits_value(cs@.subrange(s as int, k as int)) > INT_LIMIT,
            is_numeral(numeral@),
            digits_num(numeral@) == digits_value(cs@.subrange(s as int, k as int)),
        decreases cs.len() - k,
    {
        if k >= cs.len() {
            break;
        }
        match digit_value(cs[k]) {
            Some(d) => {
                let ghost before = digits_value(cs@.subrange(s as int, k as int));
                assert(cs@.subrange(s as int, k + 1).drop_last() =~= cs@.subrange(s as int, k as int));
                assert(digits_value(cs@.subrange(s as int, k + 1)) == before * 10 + d);
                if numeral.len() > 0 || d > 0 {
                    let ghost prev = numeral@;
                    numeral.push(d as u8);
                    assert(numeral@.drop_last() =~= prev);
                    assert(is_numeral(numeral@)) by {
                        assert forall|i: int| 0 <= i < numeral@.len() implies #[trigger] numeral@[i]
                            < 10 by {
                            if i < prev.len() {
                                assert(numeral@[i] == prev[i]);
                            }
                        }
                    }
                } else {
                    assert(digits_num(numeral@) == 0);
                }
                if !over {
                    match acc.checked_mul(10) {
                        Some(m) => match m.checked_add(d as u128) {
                            Some(v) => {
                                if v <= INT_LIMIT {
                                    acc = v;
                                } else {
                                    over = true;
                                }
                            },
                            None => {
                                over = true;
                            },
                        },
                        None => {
                            over = true;
                        },
                    }
                }
                k = k + 1;
            },
            None => {
                break;
            },
        }
    }
    if over {
        (Piece::BigInt(neg, numeral), k)
    } else if neg {
        if acc == INT_LIMIT {
            (Piece::Int(i128::MIN), k)
        } else {
            let a: i128 = acc as i128;
            (Piece::Int(0 - a), k)
        }
    } else if acc < INT_LIMIT {
        (Piece::Int(acc as i128), k)
    } else {
        (Piece::BigInt(false, numeral), k)
    }
}

/// Reads the sign, digits and fraction of a decimal that starts at `i`; returns
/// their ASCII text and where they end.
fn read_mantissa(cs: &Vec<char>, i: usize, ns: Ns) -> (r: (Vec<char>, usize))
    requires
        i < cs.len(),
    ensures
        r.0@ == mantissa_text(cs@, i as int, ns),
        r.1 as int == mantissa_end(cs@, i as int, ns),
        r.1 <= cs.len(),
{
    let n = cs.len();
    let mut raw: Vec<char> = Vec::new();
    let mut s = i;
    if ns.signed && is_sign_char(cs[i]) {
        raw.push(cs[i]);
        s = i + 1;
    }
    assert(raw@ =~= cs@.subrange(i as int, s as int));
    let k = copy_digits(cs, s, &mut raw);
    proof {
        lemma_digits_end_bounds(cs@, s as int);
    }
    if k < n && cs[k] == '.' && ((k + 1 < n && is_digit_char(cs[k + 1])) || k > s) {
        let ghost whole = raw@;
        raw.push('.');
        let m = copy_digits(cs, k + 1, &mut raw);
        proof {
            lemma_digits_end_bounds(cs@, k + 1);
        }
        assert(raw@ =~= whole + seq!['.'] + ascii_digits(cs@.subrange(k + 1, m as int)));
        (raw, m)
    } else {
        (raw, k)
    }
}

/// Reads the decimal that starts at `i` (float algorithms); returns its ASCII
/// text and where it ends.
fn read_decimal(cs: &Vec<char>, i: usize, ns: Ns) -> (r: (Vec<char>, usize))
    requires
        i < cs.len(),
    ensures
        r.0@ == decimal_text(cs@, i as int, ns),
        r.1 as int == decimal_end(cs@, i as int, ns),
{
    let n = cs.len();
    let (mut raw, m) = read_mantissa(cs, i, ns);
    if m < n && (cs[m] == 'e' || cs[m] == 'E') {
        let mut exp: Vec<char> = Vec::new();
        let mut e = m + 1;
        if m + 1 < n && is_sign_char(cs[m + 1]) {
            exp.push(cs[m + 1]);
            e = m + 2;
        }
        assert(exp@ =~= cs@.subrange(m + 1, e as int));
        assert(e as int == exponent_start(cs@, m as int));
        let d = copy_digits(cs, e, &mut exp);
        if d > e {
            let ghost mant = raw@;
            raw.push('e');
            raw.append(&mut exp);
            assert(raw@ =~= mant + seq!['e'] + cs@.subrange(m + 1, e as int) + ascii_digits(
                cs@.subrange(e as int, d as int),
            ));
            return (raw, d);
        }
    }
    (raw, m)
}

/// Reads the number that starts at `i`; returns it and where it ends.
fn parse_number(cs: &Vec<char>, i: usize, ns: Ns) -> (r: (Piece, usize))
    requires
        i < cs.len(),
    ensures
        r.0@ == number_token(cs@, i as int, ns),
        r.1 as int == number_end(cs@, i as int, ns),
        piece_wf(r.0),
{
    if ns.float {
        if let Some(text) = numeric_text_value(cs[i]) {
            return (Piece::Decimal(chars_of(text)), i + 1);
        }
    } else {
        if let Some(d) = other_digit(cs[i]) {
            return (Piece::Int(d as i128), i + 1);
        }
    }
    if ns.float {
        let (raw, e) = read_decimal(cs, i, ns);
        (Piece::Decimal(raw), e)
    } else {
        let mut s = i;
        if ns.signed && is_sign_char(cs[i]) {
            s = i + 1;
        }
        let neg = s > i && cs[i] == '-';
        read_int(cs, s, neg)
    }
}

/// The characters of `cs` from `from` to `to`.
fn sub_chars(cs: &Vec<char>, from: usize, to: usize) -> (r: Vec<char>)
    requires
        from <= to <= cs.len(),
    ensures
        r@ == cs@.subrange(from as int, to as int),
{
    let mut r: Vec<char> = Vec::new();
    let mut k = from;
    while k < to
        invariant
            from <= k <= to <= cs.len(),
            r@ == cs@.subrange(from as int, k as int),
        decreases to - k,
    {
        r.push(cs[k]);
        k = k + 1;
        assert(r@ =~= cs@.subrange(from as int, k as int));
    }
    r
}

/// Splits `cs` into its text and number runs.
pub fn split_runs(cs: &Vec<char>, ns: Ns) -> (r: Vec<Piece>)
    ensures
        token_seq(r@) == tokens(cs@, ns),
        forall|k: int| 0 <= k < r@.len() ==> piece_wf(#[trigger] r@[k]),
{
    let n = cs.len();
    let mut out: Vec<Piece> = Vec::new();
    let mut i: usize = 0;
    assert(token_seq(out@) =~= Seq::<Token>::empty());
    loop
        invariant_except_break
            i <= n,
            n == cs.len(),
            tokens(cs@, ns) == token_seq(out@) + tokens_from(cs@, ns, i as int),
        invariant
            forall|k: int| 0 <= k < out@.len() ==> piece_wf(#[trigger] out@[k]),
        ensures
            token_seq(out@) == tokens(cs@, ns),
        decreases n - i,
    {
        let t = text_run_end(cs, i, ns);
        proof {
            lemma_text_end_bounds(cs@, i as int, ns);
        }
        let text = sub_chars(cs, i, t);
        let ghost before = token_seq(out@);
        out.push(Piece::Text(apply_text_transform(&text, ns)));
        let ghost head = seq![Token::Text(transform(cs@.subrange(i as int, t as int), ns))];
        assert(token_seq(out@) =~= before + head);
        if t >= n {
            assert(tokens_from(cs@, ns, i as int) == head);
            assert(token_seq(out@) =~= before + tokens_from(cs@, ns, i as int));
            break;
        }
        let (num, j) = parse_number(cs, t, ns);
        proof {
            lemma_number_end_bounds(cs@, t as int, ns);
        }
        out.push(num);
        assert(token_seq(out@) =~= before + head.push(number_token(cs@, t as int, ns)));
        if j >= n {
            assert(token_seq(out@) =~= before + tokens_from(cs@, ns, i as int));
            break;
        }
        assert(tokens_from(cs@, ns, i as int) == head.push(number_token(cs@, t as int, ns))
            + tokens_from(cs@, ns, j as int));
        assert(tokens(cs@, ns) =~= token_seq(out@) + tokens_from(cs@, ns, j as int));
        i = j;
    }
    out
}

} // verus!
