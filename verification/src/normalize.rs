//! Unicode canonical decomposition (normalization form NFD).
//!
//! Every character is replaced by its full canonical decomposition (Hangul
//! syllables by the Hangul rule, other characters by the table
//! [`canonical_decomposition`]), and each run of combining marks is put in
//! canonical order: stably sorted by canonical combining class.

use vstd::prelude::*;

use crate::key::chars_of;
use crate::unicode::{canonical_decomposition, canonical_decomposition_of, combining_class, combining_class_of};

verus! {

/// The first Hangul syllable, U+AC00.
pub const HANGUL_FIRST: u32 = 0xAC00u32;

/// The last Hangul syllable, U+D7A3.
pub const HANGUL_LAST: u32 = 0xD7A3u32;

/// `cp` is a Unicode scalar value, the code of a `char`.
pub open spec fn is_scalar(cp: u32) -> bool {
    cp < 0xD800 || 0xE000 <= cp <= 0x10FFFF
}

/// Calls `char::from_u32`. Claimed, as its documentation says: it gives the
/// character with code `cp` where `cp` is a Unicode scalar value, and `None` otherwise.
#[verifier::external_body]
fn char_from_code(cp: u32) -> (r: Option<char>)
    ensures
        r == if is_scalar(cp) {
            Some(cp as char)
        } else {
            None
        },
{
    char::from_u32(cp)
}

/// The canonical combining class of `c`.
pub open spec fn ccc(c: char) -> u8 {
    combining_class(c as u32)
}

/// The decomposition of the Hangul syllable with code `cp`: its leading
/// consonant, its vowel, and its trailing consonant where it has one.
pub open spec fn hangul_decomposition(cp: u32) -> Seq<char> {
    let s = cp - HANGUL_FIRST;
    let l = (0x1100 + s / 588) as u32;
    let v = (0x1161 + (s % 588) / 28) as u32;
    let t = (0x11A7 + s % 28) as u32;
    if s % 28 == 0 {
        seq![l as char, v as char]
    } else {
        seq![l as char, v as char, t as char]
    }
}

/// The full canonical decomposition of `c` (itself where it has none).
pub open spec fn decomposition(c: char) -> Seq<char> {
    let cp = c as u32;
    if HANGUL_FIRST <= cp <= HANGUL_LAST {
        hangul_decomposition(cp)
    } else {
        match canonical_decomposition(cp) {
            Some(t) => t@,
            None => seq![c],
        }
    }
}

/// Appends `c` to a text in canonical order: a combining mark moves before the
/// marks at the end of the text whose combining class is greater.
pub open spec fn canonical_push(out: Seq<char>, c: char) -> Seq<char>
    decreases out.len(),
{
    if ccc(c) != 0 && out.len() > 0 && ccc(out.last()) > ccc(c) {
        canonical_push(out.drop_last(), c).push(out.last())
    } else {
        out.push(c)
    }
}

/// Appends the characters of `cs` to `out`, one by one, in canonical order.
pub open spec fn canonical_append(out: Seq<char>, cs: Seq<char>) -> Seq<char>
    decreases cs.len(),
{
    if cs.len() == 0 {
        out
    } else {
        canonical_append(canonical_push(out, cs[0]), cs.drop_first())
    }
}

/// The canonical decomposition (NFD) of the text `s`.
pub open spec fn nfd(s: Seq<char>) -> Seq<char>
    decreases s.len(),
{
    if s.len() == 0 {
        Seq::empty()
    } else {
        canonical_append(nfd(s.drop_last()), decomposition(s.last()))
    }
}

/// Appends `c` to `out` in canonical order.
fn push_canonical(out: &mut Vec<char>, c: char)
    ensures
        final(out)@ == canonical_push(old(out)@, c),
{
    let ghost start = out@;
    let k = combining_class_of(c as u32);
    let mut pos = out.len();
    assert(start.take(pos as int) =~= start);
    assert(start.skip(pos as int) =~= Seq::<char>::empty());
    assert(canonical_push(start, c) =~= canonical_push(start, c) + Seq::<char>::empty());
    while pos > 0 && k != 0 && combining_class_of(out[pos - 1] as u32) > k
        invariant
            pos <= out.len(),
            out@ == start,
            k == ccc(c),
            canonical_push(start, c) == canonical_push(start.take(pos as int), c) + start.skip(
                pos as int,
            ),
        decreases pos,
    {
        let ghost pre = start.take(pos as int);
        assert(pre.drop_last() =~= start.take(pos - 1));
        assert(pre.last() == start[pos - 1]);
        assert(start.skip(pos - 1) =~= seq![start[pos - 1]] + start.skip(pos as int));
        assert(canonical_push(pre, c) == canonical_push(start.take(pos - 1), c).push(start[pos - 1]));
        assert(canonical_push(start.take(pos - 1), c).push(start[pos - 1]) + start.skip(pos as int)
            =~= canonical_push(start.take(pos - 1), c) + start.skip(pos - 1));
        pos = pos - 1;
    }
    assert(canonical_push(start.take(pos as int), c) == start.take(pos as int).push(c));
    out.insert(pos, c);
    assert(out@ =~= start.take(pos as int).push(c) + start.skip(pos as int));
}

/// Returns the decomposition of the Hangul syllable with code `cp`.
fn decompose_hangul(cp: u32) -> (r: Vec<char>)
    requires
        HANGUL_FIRST <= cp <= HANGUL_LAST,
    ensures
        r@ == hangul_decomposition(cp),
{
    let s = cp - HANGUL_FIRST;
    let mut r: Vec<char> = Vec::new();
    let l = char_from_code(0x1100 + s / 588);
    let v = char_from_code(0x1161 + (s % 588) / 28);
    match (l, v) {
        (Some(lc), Some(vc)) => {
            r.push(lc);
            r.push(vc);
        },
        _ => {},
    }
    if s % 28 != 0 {
        match char_from_code(0x11A7 + s % 28) {
            Some(tc) => {
                r.push(tc);
            },
            None => {},
        }
    }
    assert(r@ =~= hangul_decomposition(cp));
    r
}

/// Returns the full canonical decomposition of `c`.
fn decompose(c: char) -> (r: Vec<char>)
    ensures
        r@ == decomposition(c),
{
    let cp = c as u32;
    if HANGUL_FIRST <= cp && cp <= HANGUL_LAST {
        decompose_hangul(cp)
    } else {
        match canonical_decomposition_of(cp) {
            Some(t) => chars_of(t),
            None => {
                let mut r: Vec<char> = Vec::new();
                r.push(c);
                assert(r@ =~= seq![c]);
                r
            },
        }
    }
}

/// Returns the canonical decomposition (NFD) of the text `s`.
pub fn to_nfd(s: &Vec<char>) -> (r: Vec<char>)
    ensures
        r@ == nfd(s@),
{
    let mut out: Vec<char> = Vec::new();
    let mut i: usize = 0;
    while i < s.len()
        invariant
            i <= s.len(),
            out@ == nfd(s@.take(i as int)),
        decreases s.len() - i,
    {
        let d = decompose(s[i]);
        let ghost before = out@;
        let mut j: usize = 0;
        assert(d@.skip(0) =~= d@);
        while j < d.len()
            invariant
                j <= d.len(),
                canonical_append(before, d@) == canonical_append(out@, d@.skip(j as int)),
            decreases d.len() - j,
        {
            assert(d@.skip(j as int).drop_first() =~= d@.skip(j + 1));
            push_canonical(&mut out, d[j]);
            j = j + 1;
        }
        assert(d@.skip(j as int) =~= Seq::<char>::empty());
        assert(s@.take(i + 1).drop_last() =~= s@.take(i as int));
        assert(s@.take(i + 1).last() == s@[i as int]);
        i = i + 1;
    }
    assert(s@.take(s.len() as int) =~= s@);
    out
}

} // verus!
