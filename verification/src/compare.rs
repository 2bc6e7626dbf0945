//! Comparing two strings in natural order.

use vstd::prelude::*;

use std::cmp::Ordering;

use crate::flags::Ns;
use crate::key::{key_view, natsort_key, natural_key, number_count};
use crate::order::{
    key_order, lemma_key_order_basics, lemma_key_order_transitive, order_keys,
};

verus! {

/// An ordering as `-1`, `0` or `1`.
pub open spec fn ordering_value(o: Ordering) -> int {
    match o {
        Ordering::Less => -1,
        Ordering::Equal => 0,
        Ordering::Greater => 1,
    }
}

/// Compares two strings in natural order under the flags: their keys, compared
/// chunk by chunk.
///
/// `a_floats` and `b_floats` are what [`natsort_key`] takes for `a` and `b`:
/// the `f64` bit patterns of their floating point numbers (empty under the
/// integer algorithms).
pub fn compare(a: &str, b: &str, ns: Ns, a_floats: &Vec<u64>, b_floats: &Vec<u64>) -> (r:
    Ordering)
    requires
        a_floats.len() == number_count(a@, ns),
        b_floats.len() == number_count(b@, ns),
    ensures
        ordering_value(r) == key_order(
            natural_key(a@, ns, a_floats@),
            natural_key(b@, ns, b_floats@),
        ),
{
    let ka = natsort_key(a, ns, a_floats);
    let kb = natsort_key(b, ns, b_floats);
    let c = order_keys(&ka, &kb);
    proof {
        lemma_key_order_basics(key_view(ka@), key_view(kb@));
    }
    if c < 0 {
        Ordering::Less
    } else if c > 0 {
        Ordering::Greater
    } else {
        Ordering::Equal
    }
}

/// A string compares equal to itself.
pub proof fn lemma_compare_reflexive(s: Seq<char>, ns: Ns, floats: Seq<u64>)
    ensures
        key_order(natural_key(s, ns, floats), natural_key(s, ns, floats)) == 0,
{
    lemma_key_order_basics(natural_key(s, ns, floats), natural_key(s, ns, floats));
}

/// Swapping the two strings reverses the comparison.
pub proof fn lemma_compare_antisymmetric(
    a: Seq<char>,
    b: Seq<char>,
    ns: Ns,
    a_floats: Seq<u64>,
    b_floats: Seq<u64>,
)
    ensures
        key_order(natural_key(a, ns, a_floats), natural_key(b, ns, b_floats)) == -key_order(
            natural_key(b, ns, b_floats),
            natural_key(a, ns, a_floats),
        ),
{
    lemma_key_order_basics(natural_key(a, ns, a_floats), natural_key(b, ns, b_floats));
}

/// If `a` is not after `b` and `b` not after `c`, then `a` is not after `c`;
/// and if one of the two steps is strict, so is the result.
pub proof fn lemma_compare_transitive(
    a: Seq<char>,
    b: Seq<char>,
    c: Seq<char>,
    ns: Ns,
    a_floats: Seq<u64>,
    b_floats: Seq<u64>,
    c_floats: Seq<u64>,
)
    requires
        key_order(natural_key(a, ns, a_floats), natural_key(b, ns, b_floats)) <= 0,
        key_order(natural_key(b, ns, b_floats), natural_key(c, ns, c_floats)) <= 0,
    ensures
        key_order(natural_key(a, ns, a_floats), natural_key(c, ns, c_floats)) <= 0,
        key_order(natural_key(a, ns, a_floats), natural_key(b, ns, b_floats)) < 0
            || key_order(natural_key(b, ns, b_floats), natural_key(c, ns, c_floats)) < 0
            ==> key_order(natural_key(a, ns, a_floats), natural_key(c, ns, c_floats)) < 0,
{
    let ka = natural_key(a, ns, a_floats);
    let kb = natural_key(b, ns, b_floats);
    let kc = natural_key(c, ns, c_floats);
    lemma_key_order_transitive(ka, kb, kc);
    lemma_key_order_basics(ka, kb);
    lemma_key_order_basics(kb, kc);
    lemma_key_order_basics(ka, kc);
}

/// Two strings compare equal exactly when their keys are the same.
pub proof fn lemma_compare_equal_iff_same_key(
    a: Seq<char>,
    b: Seq<char>,
    ns: Ns,
    a_floats: Seq<u64>,
    b_floats: Seq<u64>,
)
    ensures
        key_order(natural_key(a, ns, a_floats), natural_key(b, ns, b_floats)) == 0
            <==> natural_key(a, ns, a_floats) == natural_key(b, ns, b_floats),
{
    lemma_key_order_basics(natural_key(a, ns, a_floats), natural_key(b, ns, b_floats));
}

} // verus!
