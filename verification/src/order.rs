//! The order of natural-sort keys, and comparison of strings by it.
//!
//! Orders are given as `-1`, `0` or `1` (less, equal, greater). Text runs are
//! ordered character by character by code point (which is how `String`
//! compares), integers and floating point numbers by value (negative zero equal
//! to zero), and chunks of different kinds as text < integer < float. Keys
//! are ordered lexicographically, a proper prefix first.

use vstd::prelude::*;

use crate::key::{chunk_wf, float_rank, key_view, key_wf, Chunk, KeyChunk, NEG_ZERO_BITS};
use crate::number::{lemma_numeral_unique, order_numerals};
use vstd::std_specs::cmp::PartialEqSpec;

verus! {

/// Lexicographic order of two texts by code point.
pub open spec fn text_order(a: Seq<char>, b: Seq<char>) -> int
    decreases a.len(),
{
    if a.len() == 0 {
        if b.len() == 0 {
            0
        } else {
            -1
        }
    } else if b.len() == 0 {
        1
    } else if a[0] < b[0] {
        -1
    } else if a[0] > b[0] {
        1
    } else {
        text_order(a.drop_first(), b.drop_first())
    }
}

/// The order of two integers.
pub open spec fn int_order(x: int, y: int) -> int {
    if x < y {
        -1
    } else if x > y {
        1
    } else {
        0
    }
}

/// The order of two key chunks.
pub open spec fn chunk_order(a: KeyChunk, b: KeyChunk) -> int {
    match (a, b) {
        (KeyChunk::Text(x), KeyChunk::Text(y)) => text_order(x, y),
        (KeyChunk::Int(x), KeyChunk::Int(y)) => int_order(x, y),
        (KeyChunk::Float(x), KeyChunk::Float(y)) => int_order(x, y),
        (KeyChunk::Text(_), _) => -1,
        (_, KeyChunk::Text(_)) => 1,
        (KeyChunk::Int(_), _) => -1,
        (_, KeyChunk::Int(_)) => 1,
    }
}

/// Lexicographic order of two keys.
pub open spec fn key_order(a: Seq<KeyChunk>, b: Seq<KeyChunk>) -> int
    decreases a.len(),
{
    if a.len() == 0 {
        if b.len() == 0 {
            0
        } else {
            -1
        }
    } else if b.len() == 0 {
        1
    } else if chunk_order(a[0], b[0]) != 0 {
        chunk_order(a[0], b[0])
    } else {
        key_order(a.drop_first(), b.drop_first())
    }
}

/// Each order is one of `-1`, `0`, `1`, and `0` exactly on equal texts.
pub proof fn lemma_text_order_basics(a: Seq<char>, b: Seq<char>)
    ensures
        -1 <= text_order(a, b) <= 1,
        text_order(a, b) == -text_order(b, a),
        text_order(a, b) == 0 <==> a == b,
    decreases a.len(),
{
    if a.len() > 0 && b.len() > 0 {
        lemma_text_order_basics(a.drop_first(), b.drop_first());
        if a[0] == b[0] && a.drop_first() == b.drop_first() {
            assert(a =~= seq![a[0]] + a.drop_first());
            assert(b =~= seq![b[0]] + b.drop_first());
        }
        if a == b {
            assert(a.drop_first() =~= b.drop_first());
        }
    } else if a.len() == 0 && b.len() == 0 {
        assert(a =~= b);
    }
}

/// Text order is transitive.
pub proof fn lemma_text_order_transitive(a: Seq<char>, b: Seq<char>, c: Seq<char>)
    requires
        text_order(a, b) <= 0,
        text_order(b, c) <= 0,
    ensures
        text_order(a, c) <= 0,
    decreases a.len(),
{
    if a.len() > 0 && b.len() > 0 && c.len() > 0 {
        if a[0] == b[0] && b[0] == c[0] {
            lemma_text_order_transitive(a.drop_first(), b.drop_first(), c.drop_first());
        }
    }
}

/// Chunk order is `-1`, `0` or `1`, reverses when its arguments swap, and is `0`
/// exactly on equal chunks.
pub proof fn lemma_chunk_order_basics(a: KeyChunk, b: KeyChunk)
    ensures
        -1 <= chunk_order(a, b) <= 1,
        chunk_order(a, b) == -chunk_order(b, a),
        chunk_order(a, b) == 0 <==> a == b,
{
    match (a, b) {
        (KeyChunk::Text(x), KeyChunk::Text(y)) => {
            lemma_text_order_basics(x, y);
        },
        _ => {},
    }
}

/// Chunk order is transitive.
pub proof fn lemma_chunk_order_transitive(a: KeyChunk, b: KeyChunk, c: KeyChunk)
    requires
        chunk_order(a, b) <= 0,
        chunk_order(b, c) <= 0,
    ensures
        chunk_order(a, c) <= 0,
{
    match (a, b, c) {
        (KeyChunk::Text(x), KeyChunk::Text(y), KeyChunk::Text(z)) => {
            lemma_text_order_transitive(x, y, z);
        },
        _ => {},
    }
}

/// Key order is `-1`, `0` or `1`, reverses when its arguments swap, and is `0`
/// exactly on equal keys.
pub proof fn lemma_key_order_basics(a: Seq<KeyChunk>, b: Seq<KeyChunk>)
    ensures
        -1 <= key_order(a, b) <= 1,
        key_order(a, b) == -key_order(b, a),
        key_order(a, b) == 0 <==> a == b,
    decreases a.len(),
{
    if a.len() > 0 && b.len() > 0 {
        lemma_chunk_order_basics(a[0], b[0]);
        lemma_key_order_basics(a.drop_first(), b.drop_first());
        if a[0] == b[0] && a.drop_first() == b.drop_first() {
            assert(a =~= seq![a[0]] + a.drop_first());
            assert(b =~= seq![b[0]] + b.drop_first());
        }
        if a == b {
            assert(a.drop_first() =~= b.drop_first());
        }
    } else if a.len() == 0 && b.len() == 0 {
        assert(a =~= b);
    }
}

/// Key order is transitive.
pub proof fn lemma_key_order_transitive(a: Seq<KeyChunk>, b: Seq<KeyChunk>, c: Seq<KeyChunk>)
    requires
        key_order(a, b) <= 0,
        key_order(b, c) <= 0,
    ensures
        key_order(a, c) <= 0,
    decreases a.len(),
{
    if a.len() > 0 && b.len() > 0 && c.len() > 0 {
        lemma_chunk_order_basics(a[0], b[0]);
        lemma_chunk_order_basics(b[0], c[0]);
        lemma_chunk_order_basics(a[0], c[0]);
        lemma_chunk_order_transitive(a[0], b[0], c[0]);
        if chunk_order(a[0], b[0]) == 0 && chunk_order(b[0], c[0]) == 0 {
            lemma_key_order_transitive(a.drop_first(), b.drop_first(), c.drop_first());
        }
    }
}

/// A text that is a proper prefix of another is ordered before it.
pub proof fn lemma_text_prefix_first(s: Seq<char>, t: Seq<char>)
    requires
        t.len() > 0,
    ensures
        text_order(s, s + t) == -1,
        text_order(s + t, s) == 1,
    decreases s.len(),
{
    if s.len() == 0 {
        assert(s + t =~= t);
    } else {
        lemma_text_prefix_first(s.drop_first(), t);
        assert((s + t).drop_first() =~= s.drop_first() + t);
    }
}

/// Texts that agree up to a position are ordered by their characters at the
/// first position where they differ, whatever follows.
pub proof fn lemma_text_first_difference(s: Seq<char>, x: char, y: char, a: Seq<char>, b: Seq<char>)
    requires
        x < y,
    ensures
        text_order(s.push(x) + a, s.push(y) + b) == -1,
        text_order(s.push(y) + b, s.push(x) + a) == 1,
    decreases s.len(),
{
    if s.len() == 0 {
        assert((s.push(x) + a)[0] == x);
        assert((s.push(y) + b)[0] == y);
    } else {
        lemma_text_first_difference(s.drop_first(), x, y, a, b);
        assert((s.push(x) + a).drop_first() =~= s.drop_first().push(x) + a);
        assert((s.push(y) + b).drop_first() =~= s.drop_first().push(y) + b);
        assert((s.push(x) + a)[0] == s[0]);
        assert((s.push(y) + b)[0] == s[0]);
    }
}

/// A key that is a proper prefix of another is ordered before it.
pub proof fn lemma_key_prefix_first(k: Seq<KeyChunk>, e: Seq<KeyChunk>)
    requires
        e.len() > 0,
    ensures
        key_order(k, k + e) == -1,
        key_order(k + e, k) == 1,
    decreases k.len(),
{
    if k.len() == 0 {
        assert(k + e =~= e);
    } else {
        lemma_key_prefix_first(k.drop_first(), e);
        lemma_chunk_order_basics(k[0], k[0]);
        assert((k + e).drop_first() =~= k.drop_first() + e);
        assert((k + e)[0] == k[0]);
    }
}

/// Keys that agree up to a position are ordered by their chunks at the first
/// position where they differ, whatever follows.
pub proof fn lemma_key_first_difference(
    k: Seq<KeyChunk>,
    x: KeyChunk,
    y: KeyChunk,
    a: Seq<KeyChunk>,
    b: Seq<KeyChunk>,
)
    requires
        chunk_order(x, y) < 0,
    ensures
        key_order(k.push(x) + a, k.push(y) + b) == -1,
        key_order(k.push(y) + b, k.push(x) + a) == 1,
    decreases k.len(),
{
    lemma_chunk_order_basics(x, y);
    if k.len() == 0 {
        assert((k.push(x) + a)[0] == x);
        assert((k.push(y) + b)[0] == y);
    } else {
        lemma_key_first_difference(k.drop_first(), x, y, a, b);
        lemma_chunk_order_basics(k[0], k[0]);
        assert((k.push(x) + a).drop_first() =~= k.drop_first().push(x) + a);
        assert((k.push(y) + b).drop_first() =~= k.drop_first().push(y) + b);
        assert((k.push(x) + a)[0] == k[0]);
        assert((k.push(y) + b)[0] == k[0]);
    }
}

/// Returns the order of two texts by code point.
pub fn order_text(a: &Vec<char>, b: &Vec<char>) -> (r: i8)
    ensures
        r == text_order(a@, b@),
{
    let mut i: usize = 0;
    assert(a@.skip(0) =~= a@);
    assert(b@.skip(0) =~= b@);
    loop
        invariant
            i <= a.len(),
            i <= b.len(),
            text_order(a@, b@) == text_order(a@.skip(i as int), b@.skip(i as int)),
        decreases a.len() - i,
    {
        if i == a.len() {
            if i == b.len() {
                return 0;
            } else {
                return -1;
            }
        }
        if i == b.len() {
            return 1;
        }
        let x = a[i];
        let y = b[i];
        if x < y {
            return -1;
        }
        if x > y {
            return 1;
        }
        assert(a@.skip(i as int).drop_first() =~= a@.skip(i + 1));
        assert(b@.skip(i as int).drop_first() =~= b@.skip(i + 1));
        i = i + 1;
    }
}

fn rank_of(bits: u64) -> (r: i128)
    ensures
        r == float_rank(bits),
{
    if bits < NEG_ZERO_BITS {
        bits as i128
    } else {
        0 - ((bits - NEG_ZERO_BITS) as i128)
    }
}

fn order_num(x: i128, y: i128) -> (r: i8)
    ensures
        r == int_order(x as int, y as int),
{
    if x < y {
        -1
    } else if x > y {
        1
    } else {
        0
    }
}

/// Returns the order of two key chunks.
pub fn order_chunk(a: &Chunk, b: &Chunk) -> (r: i8)
    requires
        chunk_wf(*a),
        chunk_wf(*b),
    ensures
        r == chunk_order(a@, b@),
{
    match (a, b) {
        (Chunk::Text(x), Chunk::Text(y)) => order_text(x, y),
        (Chunk::Int(x), Chunk::Int(y)) => order_num(*x, *y),
        (Chunk::Int(_), Chunk::BigInt(neg, _)) => {
            if *neg {
                1
            } else {
                -1
            }
        },
        (Chunk::BigInt(neg, _), Chunk::Int(_)) => {
            if *neg {
                -1
            } else {
                1
            }
        },
        (Chunk::BigInt(n1, d1), Chunk::BigInt(n2, d2)) => {
            if *n1 && !*n2 {
                -1
            } else if !*n1 && *n2 {
                1
            } else {
                let m = order_numerals(d1, d2);
                if *n1 {
                    0 - m
                } else {
                    m
                }
            }
        },
        (Chunk::Float(x), Chunk::Float(y)) => order_num(rank_of(*x), rank_of(*y)),
        (Chunk::Text(_), _) => -1,
        (_, Chunk::Text(_)) => 1,
        (Chunk::Float(_), _) => 1,
        (_, Chunk::Float(_)) => -1,
    }
}

/// Returns the order of two keys.
pub fn order_keys(a: &Vec<Chunk>, b: &Vec<Chunk>) -> (r: i8)
    requires
        key_wf(a@),
        key_wf(b@),
    ensures
        r == key_order(key_view(a@), key_view(b@)),
{
    let ghost av = key_view(a@);
    let ghost bv = key_view(b@);
    let mut i: usize = 0;
    assert(av.skip(0) =~= av);
    assert(bv.skip(0) =~= bv);
    loop
        invariant
            i <= a.len(),
            i <= b.len(),
            av == key_view(a@),
            bv == key_view(b@),
            key_wf(a@),
            key_wf(b@),
            key_order(av, bv) == key_order(av.skip(i as int), bv.skip(i as int)),
        decreases a.len() - i,
    {
        if i == a.len() {
            if i == b.len() {
                return 0;
            } else {
                return -1;
            }
        }
        if i == b.len() {
            return 1;
        }
        let c = order_chunk(&a[i], &b[i]);
        if c != 0 {
            return c;
        }
        assert(av.skip(i as int).drop_first() =~= av.skip(i + 1));
        assert(bv.skip(i as int).drop_first() =~= bv.skip(i + 1));
        i = i + 1;
    }
}

/// On well-formed chunks, `==` agrees with the order: `a == b` exactly when
/// `a` and `b` compare equal.
pub proof fn lemma_chunk_eq_agrees_with_order(a: Chunk, b: Chunk)
    requires
        chunk_wf(a),
        chunk_wf(b),
    ensures
        a.eq_spec(&b) <==> chunk_order(a@, b@) == 0,
{
    lemma_chunk_order_basics(a@, b@);
    match (a, b) {
        (Chunk::BigInt(n1, d1), Chunk::BigInt(n2, d2)) => {
            if a@ == b@ {
                assert(n1 == n2);
                lemma_numeral_unique(d1@, d2@);
            }
        },
        _ => {},
    }
}

} // verus!
