//! The natural-sort key of a string: its runs with each number turned into a value.

use vstd::prelude::*;

use vstd::std_specs::cmp::PartialEqSpecImpl;

use crate::flags::Ns;
use crate::normalize::{nfd, to_nfd};
use crate::scan::{
    big_int_wf, lemma_number_end_bounds, lemma_text_end_bounds, number_end, piece_wf, signed_num,
    split_runs, text_end, token_seq, tokens, tokens_from, Piece, Token,
};

verus! {

/// One piece of a natural-sort key, as a value.
pub enum KeyChunk {
    /// A transformed text run.
    Text(Seq<char>),
    /// An integer, of any size.
    Int(int),
    /// A floating point number, by its position in the order of `f64` values
    /// ([`float_rank`]).
    Float(int),
}

/// One piece of a natural-sort key: a text run or a number.
///
/// An integer is held as an `i128` where it fits and otherwise as a sign
/// (`true` for negative) and its decimal digits, most significant first, without
/// leading zeros. A floating point number is held by the bit pattern of its
/// `f64` value (`f64::to_bits`), with negative zero held as zero; keys order such
/// chunks by value.
#[derive(Debug, Clone, Eq)]
pub enum Chunk {
    Text(Vec<char>),
    Int(i128),
    BigInt(bool, Vec<u8>),
    Float(u64),
}

/// Whether two character vectors hold the same characters.
fn same_chars(a: &Vec<char>, b: &Vec<char>) -> (r: bool)
    ensures
        r == (a@ == b@),
{
    if a.len() != b.len() {
        return false;
    }
    let mut i: usize = 0;
    while i < a.len()
        invariant
            i <= a.len(),
            a.len() == b.len(),
            forall|j: int| 0 <= j < i ==> a@[j] == b@[j],
        decreases a.len() - i,
    {
        if a[i] != b[i] {
            return false;
        }
        i = i + 1;
    }
    assert(a@ =~= b@);
    true
}

/// Whether two digit vectors hold the same digits.
fn same_digits(a: &Vec<u8>, b: &Vec<u8>) -> (r: bool)
    ensures
        r == (a@ == b@),
{
    if a.len() != b.len() {
        return false;
    }
    let mut i: usize = 0;
    while i < a.len()
        invariant
            i <= a.len(),
            a.len() == b.len(),
            forall|j: int| 0 <= j < i ==> a@[j] == b@[j],
        decreases a.len() - i,
    {
        if a[i] != b[i] {
            return false;
        }
        i = i + 1;
    }
    assert(a@ =~= b@);
    true
}

/// Two chunks are equal when they are the same variant with equal fields.
impl PartialEq for Chunk {
    fn eq(&self, other: &Chunk) -> (r: bool) {
        match (self, other) {
            (Chunk::Text(x), Chunk::Text(y)) => same_chars(x, y),
            (Chunk::Int(x), Chunk::Int(y)) => *x == *y,
            (Chunk::BigInt(n1, d1), Chunk::BigInt(n2, d2)) => *n1 == *n2 && same_digits(d1, d2),
            (Chunk::Float(x), Chunk::Float(y)) => *x == *y,
            _ => false,
        }
    }
}

impl PartialEqSpecImpl for Chunk {
    open spec fn obeys_eq_spec() -> bool {
        true
    }

    open spec fn eq_spec(&self, other: &Chunk) -> bool {
        match (self, other) {
            (Chunk::Text(x), Chunk::Text(y)) => x@ == y@,
            (Chunk::Int(x), Chunk::Int(y)) => *x == *y,
            (Chunk::BigInt(n1, d1), Chunk::BigInt(n2, d2)) => *n1 == *n2 && d1@ == d2@,
            (Chunk::Float(x), Chunk::Float(y)) => *x == *y,
            _ => false,
        }
    }
}

/// The bit pattern of the `f64` negative zero.
pub const NEG_ZERO_BITS: u64 = 0x8000_0000_0000_0000u64;

/// The position of an `f64` bit pattern in the order of values: non-negative
/// patterns in their own order, negative ones (sign bit set) below them in
/// reverse, and negative zero at the place of zero.
pub open spec fn float_rank(bits: u64) -> int {
    if bits < NEG_ZERO_BITS {
        bits as int
    } else {
        -(bits - NEG_ZERO_BITS)
    }
}

/// A chunk holds its number in the one way the key type allows: integers as
/// `i128` where they fit, no negative zero.
pub open spec fn chunk_wf(c: Chunk) -> bool {
    match c {
        Chunk::BigInt(neg, d) => big_int_wf(neg, d@),
        Chunk::Float(b) => b != NEG_ZERO_BITS,
        _ => true,
    }
}

/// Every chunk of a key is well formed.
pub open spec fn key_wf(k: Seq<Chunk>) -> bool {
    forall|i: int| 0 <= i < k.len() ==> chunk_wf(#[trigger] k[i])
}

impl View for Chunk {
    type V = KeyChunk;

    open spec fn view(&self) -> KeyChunk {
        match self {
            Chunk::Text(t) => KeyChunk::Text(t@),
            Chunk::Int(v) => KeyChunk::Int(*v as int),
            Chunk::BigInt(neg, d) => KeyChunk::Int(signed_num(*neg, d@)),
            Chunk::Float(b) => KeyChunk::Float(float_rank(*b)),
        }
    }
}

/// The values of a sequence of chunks.
pub open spec fn key_view(v: Seq<Chunk>) -> Seq<KeyChunk> {
    v.map_values(|c: Chunk| c@)
}

/// How many decimal runs `ps` holds.
pub open spec fn decimal_count(ps: Seq<Token>) -> nat
    decreases ps.len(),
{
    if ps.len() == 0 {
        0
    } else {
        decimal_count(ps.drop_last()) + if ps.last() is Decimal {
            1nat
        } else {
            0nat
        }
    }
}

/// The texts of the decimal runs of `ps`, in order.
pub open spec fn decimal_texts(ps: Seq<Token>) -> Seq<Seq<char>>
    decreases ps.len(),
{
    if ps.len() == 0 {
        Seq::empty()
    } else {
        decimal_texts(ps.drop_last()) + match ps.last() {
            Token::Decimal(t) => seq![t],
            _ => Seq::empty(),
        }
    }
}

/// The key chunk for run `p`, where `floats[k]` is the value of `p` if it is a decimal.
pub open spec fn key_part(p: Token, floats: Seq<u64>, k: int) -> KeyChunk {
    match p {
        Token::Text(t) => KeyChunk::Text(t),
        Token::Int(v) => KeyChunk::Int(v),
        Token::Decimal(_) => KeyChunk::Float(float_rank(floats[k])),
    }
}

/// The key of runs `ps`, where the `k`-th decimal run has the value `floats[k]`.
pub open spec fn resolve(ps: Seq<Token>, floats: Seq<u64>) -> Seq<KeyChunk> {
    Seq::new(ps.len(), |i: int| key_part(ps[i], floats, decimal_count(ps.take(i)) as int))
}

/// How many floating point numbers the string `cs` (in its canonical
/// decomposition) holds under the flags (none unless `ns.float`).
pub open spec fn number_count(cs: Seq<char>, ns: Ns) -> nat {
    decimal_count(tokens(nfd(cs), ns))
}

/// The ASCII texts of the floating point numbers of `cs`, in order.
pub open spec fn number_texts_of(cs: Seq<char>, ns: Ns) -> Seq<Seq<char>> {
    decimal_texts(tokens(nfd(cs), ns))
}

/// The natural-sort key of `cs`, where `floats[k]` is the bit pattern of the
/// `f64` value of the `k`-th floating point number of `cs`. The string is read in
/// its canonical decomposition (NFD), so canonically equivalent strings have the
/// same key.
pub open spec fn natural_key(cs: Seq<char>, ns: Ns, floats: Seq<u64>) -> Seq<KeyChunk> {
    resolve(tokens(nfd(cs), ns), floats)
}

/// The ranks of the floating point chunks of a key, in order.
pub open spec fn float_ranks(k: Seq<KeyChunk>) -> Seq<int>
    decreases k.len(),
{
    if k.len() == 0 {
        Seq::empty()
    } else {
        float_ranks(k.drop_last()) + match k.last() {
            KeyChunk::Float(r) => seq![r],
            _ => Seq::empty(),
        }
    }
}

/// The ranks of the given float values, in order.
pub open spec fn ranks_of(floats: Seq<u64>) -> Seq<int> {
    floats.map_values(|b: u64| float_rank(b))
}

proof fn lemma_resolve_float_ranks(ps: Seq<Token>, floats: Seq<u64>)
    requires
        decimal_count(ps) <= floats.len(),
    ensures
        float_ranks(resolve(ps, floats)) == ranks_of(floats.take(decimal_count(ps) as int)),
    decreases ps.len(),
{
    if ps.len() == 0 {
        assert(ranks_of(floats.take(0)) =~= Seq::<int>::empty());
    } else {
        let q = ps.drop_last();
        lemma_resolve_float_ranks(q, floats);
        let n = ps.len() - 1;
        assert forall|i: int| 0 <= i < n implies #[trigger] ps.take(i) == q.take(i) by {
            assert(ps.take(i) =~= q.take(i));
        }
        assert(resolve(ps, floats).drop_last() =~= resolve(q, floats));
        assert(ps.take(n) =~= q);
        let d = decimal_count(q) as int;
        if ps.last() is Decimal {
            assert(floats.take(d + 1) =~= floats.take(d).push(floats[d]));
            assert(ranks_of(floats.take(d + 1)) =~= ranks_of(floats.take(d)).push(float_rank(floats[d])));
        }
    }
}

/// Each floating point number of a string gets its own value, in order: the
/// float chunks of the key, read from the start, carry the values `floats[0]`,
/// `floats[1]`, ... of the string's numbers, the `k`-th number the `k`-th value.
pub proof fn lemma_key_floats_in_order(cs: Seq<char>, ns: Ns, floats: Seq<u64>)
    requires
        floats.len() == number_count(cs, ns),
    ensures
        float_ranks(natural_key(cs, ns, floats)) == ranks_of(floats),
        number_texts_of(cs, ns).len() == floats.len(),
{
    let ps = tokens(nfd(cs), ns);
    lemma_decimal_texts_len(ps);
    lemma_resolve_float_ranks(ps, floats);
    assert(floats.take(floats.len() as int) =~= floats);
}

/// A prefix of the runs holds no more decimals than all of them.
pub proof fn lemma_decimal_count_prefix(ps: Seq<Token>, i: int)
    requires
        0 <= i <= ps.len(),
    ensures
        decimal_count(ps.take(i)) <= decimal_count(ps),
    decreases ps.len() - i,
{
    if i < ps.len() {
        lemma_decimal_count_prefix(ps, i + 1);
        assert(ps.take(i + 1).drop_last() =~= ps.take(i));
    } else {
        assert(ps.take(i) =~= ps);
    }
}

/// There is one decimal text per decimal run.
pub proof fn lemma_decimal_texts_len(ps: Seq<Token>)
    ensures
        decimal_texts(ps).len() == decimal_count(ps),
    decreases ps.len(),
{
    if ps.len() > 0 {
        lemma_decimal_texts_len(ps.drop_last());
    }
}

/// Runs alternate: the first, and every other one after it, is text; the rest are numbers.
pub open spec fn alternates(ps: Seq<Token>) -> bool {
    &&& ps.len() >= 1
    &&& forall|k: int| 0 <= k < ps.len() ==> (#[trigger] ps[k] is Text <==> k % 2 == 0)
}

/// The runs of a string from any position alternate, text first; and under the
/// integer algorithms none is a decimal.
pub proof fn lemma_tokens_from_shape(cs: Seq<char>, ns: Ns, i: int)
    requires
        0 <= i <= cs.len(),
    ensures
        alternates(tokens_from(cs, ns, i)),
        !ns.float ==> forall|k: int|
            0 <= k < tokens_from(cs, ns, i).len() ==> !(#[trigger] tokens_from(cs, ns, i)[k] is Decimal),
    decreases cs.len() - i,
{
    lemma_text_end_bounds(cs, i, ns);
    let t = text_end(cs, i, ns);
    if t < cs.len() {
        lemma_number_end_bounds(cs, t, ns);
        let j = number_end(cs, t, ns);
        if j < cs.len() && j > i {
            lemma_tokens_from_shape(cs, ns, j);
            let rest = tokens_from(cs, ns, j);
            let all = tokens_from(cs, ns, i);
            assert forall|k: int| 0 <= k < all.len() implies (#[trigger] all[k] is Text <==> k % 2
                == 0) by {
                if k >= 2 {
                    assert(all[k] == rest[k - 2]);
                }
            }
            if !ns.float {
                assert forall|k: int| 0 <= k < all.len() implies !(#[trigger] all[k] is Decimal) by {
                    if k >= 2 {
                        assert(all[k] == rest[k - 2]);
                    }
                }
            }
        }
    }
}

/// Runs without a decimal count no decimal.
pub proof fn lemma_decimal_count_none(ps: Seq<Token>)
    requires
        forall|k: int| 0 <= k < ps.len() ==> !(#[trigger] ps[k] is Decimal),
    ensures
        decimal_count(ps) == 0,
    decreases ps.len(),
{
    if ps.len() > 0 {
        lemma_decimal_count_none(ps.drop_last());
    }
}

/// A key starts with a (possibly empty) text chunk and then alternates between
/// numbers and text.
pub proof fn lemma_key_alternates(cs: Seq<char>, ns: Ns, floats: Seq<u64>)
    ensures
        natural_key(cs, ns, floats).len() >= 1,
        forall|k: int|
            0 <= k < natural_key(cs, ns, floats).len() ==> (#[trigger] natural_key(
                cs,
                ns,
                floats,
            )[k] is Text <==> k % 2 == 0),
{
    lemma_tokens_from_shape(nfd(cs), ns, 0);
}

/// Under the integer algorithms a string has no floating point number, and its
/// key does not depend on `floats`.
pub proof fn lemma_integer_key(cs: Seq<char>, ns: Ns, floats: Seq<u64>)
    requires
        !ns.float,
    ensures
        number_count(cs, ns) == 0,
        natural_key(cs, ns, floats) == natural_key(cs, ns, Seq::empty()),
{
    lemma_tokens_from_shape(nfd(cs), ns, 0);
    lemma_decimal_count_none(tokens(nfd(cs), ns));
    assert(natural_key(cs, ns, floats) =~= natural_key(cs, ns, Seq::empty()));
}

/// Returns the characters of `s`.
pub fn chars_of(s: &str) -> (r: Vec<char>)
    ensures
        r@ == s@,
{
    broadcast use vstd::string::group_string_axioms;
    let mut v: Vec<char> = Vec::new();
    for c in it: s.chars()
        invariant
            v@ == it.seq().take(it.index() as int),
            it.seq() == s@,
    {
        v.push(c);
    }
    v
}

/// Returns the natural-sort key of `s`: its text runs, transformed as the flags
/// say, alternating with its numbers, starting with a (possibly empty) text run.
///
/// Under the float algorithms `floats` holds, in order, the bit patterns of the
/// `f64` values of the number texts that [`number_texts`] returns; under the
/// integer algorithms it is empty.
pub fn natsort_key(s: &str, ns: Ns, floats: &Vec<u64>) -> (key: Vec<Chunk>)
    requires
        floats.len() == number_count(s@, ns),
    ensures
        key_view(key@) == natural_key(s@, ns, floats@),
        key_wf(key@),
{
    let cs = to_nfd(&chars_of(s));
    let ps = split_runs(&cs, ns);
    let ghost ts = token_seq(ps@);
    let mut out: Vec<Chunk> = Vec::new();
    let mut used: usize = 0;
    let mut i: usize = 0;
    while i < ps.len()
        invariant
            i <= ps.len(),
            ts == token_seq(ps@),
            ts == tokens(nfd(s@), ns),
            floats.len() == decimal_count(ts),
            used == decimal_count(ts.take(i as int)),
            key_view(out@) == resolve(ts, floats@).take(i as int),
            key_wf(out@),
            forall|k: int| 0 <= k < ps@.len() ==> piece_wf(#[trigger] ps@[k]),
        decreases ps.len() - i,
    {
        proof {
            assert(ts.take(i + 1).drop_last() =~= ts.take(i as int));
            lemma_decimal_count_prefix(ts, i + 1);
        }
        let ghost k = used as int;
        assert(ts[i as int] == ps@[i as int]@);
        let c = match &ps[i] {
            Piece::Text(t) => Chunk::Text(t.clone()),
            Piece::Int(v) => Chunk::Int(*v),
            Piece::BigInt(neg, d) => Chunk::BigInt(*neg, d.clone()),
            Piece::Decimal(_) => {
                let b = floats[used];
                used = used + 1;
                if b == NEG_ZERO_BITS {
                    Chunk::Float(0)
                } else {
                    Chunk::Float(b)
                }
            },
        };
        assert(c@ == key_part(ts[i as int], floats@, k));
        assert(c@ == resolve(ts, floats@)[i as int]);
        let ghost prev = out@;
        out.push(c);
        assert(key_view(out@) =~= key_view(prev).push(c@));
        assert(key_wf(out@)) by {
            assert(chunk_wf(c));
            assert forall|j: int| 0 <= j < out@.len() implies chunk_wf(#[trigger] out@[j]) by {
                if j < prev.len() {
                    assert(out@[j] == prev[j]);
                }
            }
        }
        assert(resolve(ts, floats@).take(i + 1) =~= resolve(ts, floats@).take(i as int).push(c@));
        i = i + 1;
        assert(key_view(out@) =~= resolve(ts, floats@).take(i as int));
    }
    assert(resolve(ts, floats@).take(i as int) =~= resolve(ts, floats@));
    out
}

/// Returns, in order, the ASCII texts of the floating point numbers of `s` under
/// the flags (`[sign] digits [. digits] [e [sign] digits]`); none unless `ns.float`.
/// The `f64` values of these texts are what [`natsort_key`] takes.
pub fn number_texts(s: &str, ns: Ns) -> (r: Vec<Vec<char>>)
    ensures
        r@.len() == number_count(s@, ns),
        r@.map_values(|t: Vec<char>| t@) == number_texts_of(s@, ns),
{
    let cs = to_nfd(&chars_of(s));
    let ps = split_runs(&cs, ns);
    let ghost ts = token_seq(ps@);
    let mut out: Vec<Vec<char>> = Vec::new();
    let mut i: usize = 0;
    while i < ps.len()
        invariant
            i <= ps.len(),
            ts == token_seq(ps@),
            out@.map_values(|t: Vec<char>| t@) == decimal_texts(ts.take(i as int)),
        decreases ps.len() - i,
    {
        assert(ts.take(i + 1).drop_last() =~= ts.take(i as int));
        match &ps[i] {
            Piece::Decimal(t) => {
                out.push(t.clone());
            },
            _ => {},
        }
        i = i + 1;
        assert(out@.map_values(|t: Vec<char>| t@) =~= decimal_texts(ts.take(i as int)));
    }
    assert(ts.take(i as int) =~= ts);
    proof {
        lemma_decimal_texts_len(ts);
    }
    out
}

/// Returns a reusable key function for the flags: it maps a string and its
/// float values (as [`natsort_key`] takes them) to the string's key. The function
/// is `Copy` and holds only the flags.
pub fn natsort_keygen(ns: Ns) -> (f: impl Fn(&str, &Vec<u64>) -> Vec<Chunk> + Copy)
    ensures
        forall|s: &str, floats: &Vec<u64>|
            floats.len() == number_count(s@, ns) ==> #[trigger] f.requires((s, floats)),
        forall|s: &str, floats: &Vec<u64>, k: Vec<Chunk>|
            #[trigger] f.ensures((s, floats), k) ==> key_view(k@) == natural_key(s@, ns, floats@)
                && key_wf(k@),
{
    move |s: &str, floats: &Vec<u64>| -> (k: Vec<Chunk>)
        requires
            floats.len() == number_count(s@, ns),
        ensures
            key_view(k@) == natural_key(s@, ns, floats@),
            key_wf(k@),
        { natsort_key(s, ns, floats) }
}

} // verus!
