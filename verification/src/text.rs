//! Folding of text runs: ASCII case swap, letter grouping and Unicode case folding.

use vstd::prelude::*;

use crate::chars::{swap_ascii_case, swap_case};
use crate::flags::Ns;
use crate::key::chars_of;
use crate::unicode::{fold_exception, fold_exception_of};

verus! {

/// The characters of the Unicode lowercase mapping of `c`, as `char::to_lowercase` yields them.
pub uninterp spec fn char_lowercase(c: char) -> Seq<char>;

/// Calls `char::to_lowercase` and collects the characters it yields.
/// Claimed: the result is `char_lowercase(c)`, a function of `c` alone; nothing more is claimed.
#[verifier::external_body]
fn lowercase_char(c: char) -> (r: Vec<char>)
    ensures
        r@ == char_lowercase(c),
{
    c.to_lowercase().collect()
}

/// The full Unicode case folding of `c`:
/// its lowercase mapping, except for the characters whose folding differs from it.
pub open spec fn fold_char(c: char) -> Seq<char> {
    match fold_exception(c as u32) {
        Some(t) => t@,
        None => char_lowercase(c),
    }
}

/// The case folding of a text, character by character.
pub open spec fn casefold(s: Seq<char>) -> Seq<char>
    decreases s.len(),
{
    if s.len() == 0 {
        Seq::empty()
    } else {
        casefold(s.drop_last()) + fold_char(s.last())
    }
}

/// Case folding works character by character: folding two texts one after the
/// other gives the folding of the two joined.
pub proof fn lemma_casefold_concat(a: Seq<char>, b: Seq<char>)
    ensures
        casefold(a + b) == casefold(a) + casefold(b),
    decreases b.len(),
{
    if b.len() == 0 {
        assert(a + b =~= a);
        assert(casefold(a) + casefold(b) =~= casefold(a));
    } else {
        lemma_casefold_concat(a, b.drop_last());
        assert((a + b).drop_last() =~= a + b.drop_last());
        assert((a + b).last() == b.last());
        assert(casefold(a) + casefold(b) =~= casefold(a) + casefold(b.drop_last()) + fold_char(b.last()));
    }
}

/// Returns the case folding of `c`.
pub fn fold_char_of(c: char) -> (r: Vec<char>)
    ensures
        r@ == fold_char(c),
{
    match fold_exception_of(c as u32) {
        Some(t) => chars_of(t),
        None => lowercase_char(c),
    }
}

/// Every character preceded by its case folding: `c` becomes `fold(c) ++ [c]`.
pub open spec fn grouped(s: Seq<char>) -> Seq<char>
    decreases s.len(),
{
    if s.len() == 0 {
        Seq::empty()
    } else {
        grouped(s.drop_last()) + fold_char(s.last()) + seq![s.last()]
    }
}

/// The transform of a text run under the flags: first the ASCII case swap
/// (`lowercasefirst`), then letter grouping (`groupletters`), then Unicode case
/// folding (`ignorecase`).
pub open spec fn transform(text: Seq<char>, ns: Ns) -> Seq<char> {
    let a = if ns.lowercasefirst {
        text.map_values(|c: char| swap_case(c))
    } else {
        text
    };
    let b = if ns.groupletters {
        grouped(a)
    } else {
        a
    };
    if ns.ignorecase {
        casefold(b)
    } else {
        b
    }
}

/// Returns the characters of `text` transformed as the flags say.
pub fn apply_text_transform(text: &Vec<char>, ns: Ns) -> (r: Vec<char>)
    ensures
        r@ == transform(text@, ns),
{
    let mut a: Vec<char> = Vec::new();
    if ns.lowercasefirst {
        let mut i: usize = 0;
        while i < text.len()
            invariant
                i <= text.len(),
                a@ == text@.take(i as int).map_values(|c: char| swap_case(c)),
            decreases text.len() - i,
        {
            a.push(swap_ascii_case(text[i]));
            i = i + 1;
            assert(a@ =~= text@.take(i as int).map_values(|c: char| swap_case(c)));
        }
        assert(text@.take(text.len() as int) =~= text@);
    } else {
        a = text.clone();
    }
    let mut b: Vec<char> = Vec::new();
    if ns.groupletters {
        let mut i: usize = 0;
        while i < a.len()
            invariant
                i <= a.len(),
                b@ == grouped(a@.take(i as int)),
            decreases a.len() - i,
        {
            let c = a[i];
            let mut low = fold_char_of(c);
            b.append(&mut low);
            b.push(c);
            assert(a@.take(i + 1).drop_last() =~= a@.take(i as int));
            i = i + 1;
        }
        assert(a@.take(a.len() as int) =~= a@);
    } else {
        b = a;
    }
    if ns.ignorecase {
        let mut f: Vec<char> = Vec::new();
        let mut i: usize = 0;
        while i < b.len()
            invariant
                i <= b.len(),
                f@ == casefold(b@.take(i as int)),
            decreases b.len() - i,
        {
            let mut folded = fold_char_of(b[i]);
            f.append(&mut folded);
            assert(b@.take(i + 1).drop_last() =~= b@.take(i as int));
            i = i + 1;
        }
        assert(b@.take(b.len() as int) =~= b@);
        f
    } else {
        b
    }
}

} // verus!
