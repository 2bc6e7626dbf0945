//! Stable sorting of strings in natural order.
//!
//! Each string's key is computed once; then the positions of the strings are
//! merge-sorted so that keys never decrease and strings with equal keys keep their
//! input order. Such an arrangement is unique (see
//! [`lemma_stable_order_unique`]), so the contracts below pin the result down.

use vstd::prelude::*;

use crate::flags::{no_flags, real_ns, Ns};
use crate::key::{key_view, key_wf, lemma_integer_key, natsort_key, natural_key, number_count, Chunk, KeyChunk};
use crate::order::{key_order, lemma_key_order_basics, lemma_key_order_transitive, order_keys};

verus! {

/// Position `x` comes before position `y`: its key is smaller, or the keys are
/// equal and `x` is the earlier position.
pub open spec fn precedes(keys: Seq<Seq<KeyChunk>>, x: int, y: int) -> bool {
    ||| key_order(keys[x], keys[y]) < 0
    ||| key_order(keys[x], keys[y]) == 0 && x < y
}

/// Position `m` occurs in `p`.
pub open spec fn occurs(p: Seq<usize>, m: int) -> bool {
    exists|i: int| 0 <= i < p.len() && p[i] == m
}

/// `p` lists each of the positions `0..n` exactly once.
pub open spec fn is_rearrangement(n: nat, p: Seq<usize>) -> bool {
    &&& p.len() == n
    &&& forall|i: int| 0 <= i < n ==> #[trigger] p[i] < n
    &&& forall|i: int, j: int| 0 <= i < j < n ==> p[i] != p[j]
    &&& forall|m: int| 0 <= m < n ==> #[trigger] occurs(p, m)
}

/// `p` lists the positions of `keys` in stable sorted order.
pub open spec fn is_stable_order(keys: Seq<Seq<KeyChunk>>, p: Seq<usize>) -> bool {
    &&& is_rearrangement(keys.len(), p)
    &&& forall|i: int, j: int|
        0 <= i < j < keys.len() ==> precedes(keys, #[trigger] p[i] as int, #[trigger] p[j] as int)
}

/// The keys of a vector of keys.
pub open spec fn keys_view(keys: Seq<Vec<Chunk>>) -> Seq<Seq<KeyChunk>> {
    keys.map_values(|k: Vec<Chunk>| key_view(k@))
}

/// The characters of each string.
pub open spec fn strings_view(v: Seq<String>) -> Seq<Seq<char>> {
    v.map_values(|s: String| s@)
}

/// The contents of each float vector.
pub open spec fn floats_view(v: Seq<Vec<u64>>) -> Seq<Seq<u64>> {
    v.map_values(|f: Vec<u64>| f@)
}

/// No floating point numbers for each of `n` strings.
pub open spec fn no_floats(n: nat) -> Seq<Seq<u64>> {
    Seq::new(n, |i: int| Seq::<u64>::empty())
}

/// The keys of `items`, where `floats[i]` holds the float values of `items[i]`.
pub open spec fn keys_of(items: Seq<Seq<char>>, ns: Ns, floats: Seq<Seq<u64>>) -> Seq<Seq<KeyChunk>> {
    Seq::new(items.len(), |i: int| natural_key(items[i], ns, floats[i]))
}

/// `floats` holds, for each string, as many values as it has floating point numbers.
pub open spec fn floats_fit(items: Seq<Seq<char>>, ns: Ns, floats: Seq<Seq<u64>>) -> bool {
    &&& floats.len() == items.len()
    &&& forall|i: int| 0 <= i < items.len() ==> #[trigger] floats[i].len() == number_count(items[i], ns)
}

/// `result` is `items` in stable natural order: the items rearranged so that
/// keys never decrease, items with equal keys keeping their input order.
pub open spec fn is_natsorted(
    items: Seq<Seq<char>>,
    ns: Ns,
    floats: Seq<Seq<u64>>,
    result: Seq<Seq<char>>,
) -> bool {
    exists|p: Seq<usize>|
        #[trigger] is_stable_order(keys_of(items, ns, floats), p) && result.len() == items.len()
            && forall|i: int| 0 <= i < items.len() ==> result[i] == items[p[i] as int]
}

/// `precedes` is transitive.
proof fn lemma_precedes_transitive(keys: Seq<Seq<KeyChunk>>, x: int, y: int, z: int)
    requires
        precedes(keys, x, y),
        precedes(keys, y, z),
    ensures
        precedes(keys, x, z),
{
    lemma_key_order_transitive(keys[x], keys[y], keys[z]);
    lemma_key_order_basics(keys[x], keys[y]);
    lemma_key_order_basics(keys[y], keys[z]);
    lemma_key_order_basics(keys[x], keys[z]);
    if key_order(keys[x], keys[z]) == 0 {
        lemma_key_order_basics(keys[z], keys[y]);
    }
}

/// `p` lists the positions `lo..hi` of `keys` in stable sorted order.
pub open spec fn is_sorted_segment(keys: Seq<Seq<KeyChunk>>, p: Seq<usize>, lo: int, hi: int) -> bool {
    &&& p.len() == hi - lo
    &&& forall|i: int| 0 <= i < p.len() ==> lo <= #[trigger] p[i] < hi
    &&& forall|m: int| lo <= m < hi ==> #[trigger] occurs(p, m)
    &&& forall|i: int, j: int|
        0 <= i < j < p.len() ==> precedes(keys, #[trigger] p[i] as int, #[trigger] p[j] as int)
}

/// The sorted segment of all positions is a stable sorted order.
proof fn lemma_whole_segment(keys: Seq<Seq<KeyChunk>>, p: Seq<usize>)
    requires
        is_sorted_segment(keys, p, 0, keys.len() as int),
    ensures
        is_stable_order(keys, p),
{
    assert forall|i: int, j: int| 0 <= i < j < keys.len() implies p[i] != p[j] by {
        assert(precedes(keys, p[i] as int, p[j] as int));
        lemma_key_order_basics(keys[p[i] as int], keys[p[j] as int]);
    }
}

/// Merges the sorted positions `left` (of `lo..mid`) and `right` (of `mid..hi`),
/// taking from `left` on equal keys.
fn merge(keys: &Vec<Vec<Chunk>>, left: Vec<usize>, right: Vec<usize>, lo: usize, mid: usize, hi: usize) -> (r: Vec<usize>)
    requires
        lo <= mid <= hi <= keys.len(),
        forall|i: int| 0 <= i < keys@.len() ==> key_wf(#[trigger] keys@[i]@),
        is_sorted_segment(keys_view(keys@), left@, lo as int, mid as int),
        is_sorted_segment(keys_view(keys@), right@, mid as int, hi as int),
    ensures
        is_sorted_segment(keys_view(keys@), r@, lo as int, hi as int),
{
    let ghost kv = keys_view(keys@);
    let mut r: Vec<usize> = Vec::new();
    let mut i: usize = 0;
    let mut j: usize = 0;
    while i < left.len() || j < right.len()
        invariant
            lo <= mid <= hi <= keys.len(),
            kv == keys_view(keys@),
            forall|k: int| 0 <= k < keys@.len() ==> key_wf(#[trigger] keys@[k]@),
            is_sorted_segment(kv, left@, lo as int, mid as int),
            is_sorted_segment(kv, right@, mid as int, hi as int),
            i <= left.len(),
            j <= right.len(),
            r.len() == i + j,
            forall|a: int| 0 <= a < r@.len() ==> lo <= #[trigger] r@[a] < hi,
            forall|a: int, b: int|
                0 <= a < b < r@.len() ==> precedes(kv, #[trigger] r@[a] as int, #[trigger] r@[b] as int),
            forall|a: int, t: int|
                0 <= a < r@.len() && i <= t < left@.len() ==> precedes(
                    kv,
                    #[trigger] r@[a] as int,
                    #[trigger] left@[t] as int,
                ),
            forall|a: int, t: int|
                0 <= a < r@.len() && j <= t < right@.len() ==> precedes(
                    kv,
                    #[trigger] r@[a] as int,
                    #[trigger] right@[t] as int,
                ),
            forall|t: int| 0 <= t < i ==> occurs(r@, #[trigger] left@[t] as int),
            forall|t: int| 0 <= t < j ==> occurs(r@, #[trigger] right@[t] as int),
        decreases left.len() + right.len() - i - j,
    {
        let take_left = if i == left.len() {
            false
        } else if j == right.len() {
            true
        } else {
            order_keys(&keys[left[i]], &keys[right[j]]) <= 0
        };
        let ghost old_r = r@;
        if take_left {
            let x = left[i];
            proof {
                assert forall|t: int| i <= t < left@.len() && t != i implies precedes(
                    kv,
                    x as int,
                    #[trigger] left@[t] as int,
                ) by {}
                if j < right.len() {
                    assert(precedes(kv, x as int, right@[j as int] as int));
                    assert forall|t: int| j <= t < right@.len() implies precedes(
                        kv,
                        x as int,
                        #[trigger] right@[t] as int,
                    ) by {
                        if t > j {
                            lemma_precedes_transitive(kv, x as int, right@[j as int] as int, right@[t] as int);
                        }
                    }
                }
            }
            r.push(x);
            i = i + 1;
            proof {
                assert(r@[old_r.len() as int] == x);
                assert forall|t: int| 0 <= t < i implies occurs(r@, #[trigger] left@[t] as int) by {
                    if t < i - 1 {
                        let w = choose|w: int| 0 <= w < old_r.len() && old_r[w] == left@[t];
                        assert(r@[w] == left@[t]);
                    }
                }
                assert forall|t: int| 0 <= t < j implies occurs(r@, #[trigger] right@[t] as int) by {
                    let w = choose|w: int| 0 <= w < old_r.len() && old_r[w] == right@[t];
                    assert(r@[w] == right@[t]);
                }
            }
        } else {
            let x = right[j];
            proof {
                if i < left.len() {
                    lemma_key_order_basics(kv[left@[i as int] as int], kv[x as int]);
                    assert(precedes(kv, x as int, left@[i as int] as int));
                    assert forall|t: int| i <= t < left@.len() implies precedes(
                        kv,
                        x as int,
                        #[trigger] left@[t] as int,
                    ) by {
                        if t > i {
                            lemma_precedes_transitive(kv, x as int, left@[i as int] as int, left@[t] as int);
                        }
                    }
                }
            }
            r.push(x);
            j = j + 1;
            proof {
                assert(r@[old_r.len() as int] == x);
                assert forall|t: int| 0 <= t < i implies occurs(r@, #[trigger] left@[t] as int) by {
                    let w = choose|w: int| 0 <= w < old_r.len() && old_r[w] == left@[t];
                    assert(r@[w] == left@[t]);
                }
                assert forall|t: int| 0 <= t < j implies occurs(r@, #[trigger] right@[t] as int) by {
                    if t < j - 1 {
                        let w = choose|w: int| 0 <= w < old_r.len() && old_r[w] == right@[t];
                        assert(r@[w] == right@[t]);
                    }
                }
            }
        }
    }
    proof {
        assert forall|m: int| lo <= m < hi implies #[trigger] occurs(r@, m) by {
            if m < mid {
                assert(occurs(left@, m));
                let t = choose|t: int| 0 <= t < left@.len() && left@[t] == m;
                assert(occurs(r@, left@[t] as int));
            } else {
                assert(occurs(right@, m));
                let t = choose|t: int| 0 <= t < right@.len() && right@[t] == m;
                assert(occurs(r@, right@[t] as int));
            }
        }
    }
    r
}

/// Returns the positions `lo..hi` of `keys` in stable sorted order (merge sort).
fn sort_range(keys: &Vec<Vec<Chunk>>, lo: usize, hi: usize) -> (p: Vec<usize>)
    requires
        lo <= hi <= keys.len(),
        forall|i: int| 0 <= i < keys@.len() ==> key_wf(#[trigger] keys@[i]@),
    ensures
        is_sorted_segment(keys_view(keys@), p@, lo as int, hi as int),
    decreases hi - lo,
{
    if hi - lo <= 1 {
        let mut p: Vec<usize> = Vec::new();
        if hi > lo {
            p.push(lo);
            assert(p@[0] == lo);
            assert(occurs(p@, lo as int));
        }
        return p;
    }
    let mid = lo + (hi - lo) / 2;
    let left = sort_range(keys, lo, mid);
    let right = sort_range(keys, mid, hi);
    merge(keys, left, right, lo, mid, hi)
}

/// Returns the positions of `keys` in stable sorted order.
fn stable_order(keys: &Vec<Vec<Chunk>>) -> (p: Vec<usize>)
    requires
        forall|i: int| 0 <= i < keys@.len() ==> key_wf(#[trigger] keys@[i]@),
    ensures
        is_stable_order(keys_view(keys@), p@),
{
    let p = sort_range(keys, 0, keys.len());
    proof {
        lemma_whole_segment(keys_view(keys@), p@);
    }
    p
}

/// Sorts `items` in natural order under the flags, stably (items whose keys are
/// equal keep their input order), and returns the sorted copy; `items` is not changed.
///
/// `floats[i]` is what [`natsort_key`] takes for `items[i]`: the `f64` bit
/// patterns of its floating point numbers (empty under the integer algorithms).
pub fn natsorted_by(items: &[String], ns: Ns, floats: &Vec<Vec<u64>>) -> (r: Vec<String>)
    requires
        floats_fit(strings_view(items@), ns, floats_view(floats@)),
    ensures
        is_natsorted(strings_view(items@), ns, floats_view(floats@), strings_view(r@)),
{
    let ghost iv = strings_view(items@);
    let ghost fv = floats_view(floats@);
    let n = items.len();
    let mut keys: Vec<Vec<Chunk>> = Vec::new();
    let mut i: usize = 0;
    while i < n
        invariant
            i <= n,
            n == items@.len(),
            iv == strings_view(items@),
            fv == floats_view(floats@),
            floats_fit(iv, ns, fv),
            keys_view(keys@) == keys_of(iv, ns, fv).take(i as int),
            forall|j: int| 0 <= j < keys@.len() ==> key_wf(#[trigger] keys@[j]@),
        decreases n - i,
    {
        assert(floats@[i as int]@ == fv[i as int]);
        let key = natsort_key(items[i].as_str(), ns, &floats[i]);
        let ghost prev = keys@;
        keys.push(key);
        assert(keys_view(keys@) =~= keys_view(prev).push(key_view(key@)));
        i = i + 1;
        assert(keys_view(keys@) =~= keys_of(iv, ns, fv).take(i as int));
    }
    assert(keys_view(keys@) =~= keys_of(iv, ns, fv));
    let p = stable_order(&keys);
    let mut r: Vec<String> = Vec::new();
    let mut j: usize = 0;
    while j < n
        invariant
            j <= n,
            n == items@.len(),
            iv == strings_view(items@),
            is_rearrangement(n as nat, p@),
            r@.len() == j,
            forall|m: int| 0 <= m < j ==> #[trigger] r@[m]@ == iv[p@[m] as int],
        decreases n - j,
    {
        assert(p@[j as int] < n);
        r.push(items[p[j]].clone());
        j = j + 1;
    }
    let ghost rv = strings_view(r@);
    assert(is_stable_order(keys_of(iv, ns, fv), p@));
    assert forall|m: int| 0 <= m < n implies rv[m] == iv[p@[m] as int] by {
        assert(rv[m] == r@[m]@);
    }
    r
}

/// No floating point numbers for each of `n` strings, as vectors.
fn empty_floats(n: usize) -> (r: Vec<Vec<u64>>)
    ensures
        floats_view(r@) == no_floats(n as nat),
{
    let mut r: Vec<Vec<u64>> = Vec::new();
    let mut i: usize = 0;
    while i < n
        invariant
            i <= n,
            floats_view(r@) == no_floats(i as nat),
        decreases n - i,
    {
        let e: Vec<u64> = Vec::new();
        let ghost prev = r@;
        r.push(e);
        assert(floats_view(r@) =~= floats_view(prev).push(Seq::<u64>::empty()));
        i = i + 1;
        assert(floats_view(r@) =~= no_floats(i as nat));
    }
    r
}

/// Under the integer algorithms, no floats fit every list of strings.
pub proof fn lemma_no_floats_fit(items: Seq<Seq<char>>, ns: Ns)
    requires
        !ns.float,
    ensures
        floats_fit(items, ns, no_floats(items.len())),
{
    assert forall|i: int| 0 <= i < items.len() implies #[trigger] no_floats(items.len())[i].len()
        == number_count(items[i], ns) by {
        lemma_integer_key(items[i], ns, Seq::empty());
    }
}

/// Sorts `items` in natural order with the default (integer) algorithm.
pub fn natsorted(items: &[String]) -> (r: Vec<String>)
    ensures
        is_natsorted(strings_view(items@), no_flags(), no_floats(items@.len()), strings_view(r@)),
{
    let ns = Ns::default_flags();
    let floats = empty_floats(items.len());
    proof {
        lemma_no_floats_fit(strings_view(items@), ns);
    }
    natsorted_by(items, ns, &floats)
}

/// Sorts `items` in natural order with the signed floating point (REAL) algorithm.
///
/// `floats[i]` holds the `f64` bit patterns of the numbers of `items[i]`, as
/// for [`natsorted_by`].
pub fn realsorted(items: &[String], floats: &Vec<Vec<u64>>) -> (r: Vec<String>)
    requires
        floats_fit(strings_view(items@), real_ns(), floats_view(floats@)),
    ensures
        is_natsorted(strings_view(items@), real_ns(), floats_view(floats@), strings_view(r@)),
{
    natsorted_by(items, Ns::real_flags(), floats)
}

proof fn lemma_precedes_asymmetric(keys: Seq<Seq<KeyChunk>>, x: int, y: int)
    requires
        precedes(keys, x, y),
    ensures
        !precedes(keys, y, x),
{
    lemma_key_order_basics(keys[x], keys[y]);
}

proof fn lemma_unique_prefix(keys: Seq<Seq<KeyChunk>>, p: Seq<usize>, q: Seq<usize>, m: int)
    requires
        is_stable_order(keys, p),
        is_stable_order(keys, q),
        0 <= m <= keys.len(),
    ensures
        forall|i: int| 0 <= i < m ==> p[i] == q[i],
    decreases m,
{
    if m > 0 {
        let k = m - 1;
        lemma_unique_prefix(keys, p, q, k);
        let x = p[k] as int;
        let y = q[k] as int;
        if x != y {
            assert(occurs(p, y));
            let r = choose|i: int| 0 <= i < p.len() && p[i] == y;
            assert(occurs(q, x));
            let s = choose|i: int| 0 <= i < q.len() && q[i] == x;
            if r < k {
                assert(q[r] == y);
            }
            if s < k {
                assert(p[s] == x);
            }
            assert(precedes(keys, p[k] as int, p[r] as int));
            assert(precedes(keys, q[k] as int, q[s] as int));
            lemma_precedes_asymmetric(keys, x, y);
        }
    }
}

/// There is only one stable sorted order of a list of keys.
pub proof fn lemma_stable_order_unique(keys: Seq<Seq<KeyChunk>>, p: Seq<usize>, q: Seq<usize>)
    requires
        is_stable_order(keys, p),
        is_stable_order(keys, q),
    ensures
        p == q,
{
    lemma_unique_prefix(keys, p, q, keys.len() as int);
    assert(p =~= q);
}

/// Sorting gives one result only: two stable natural orders of the same items
/// under the same flags are equal.
pub proof fn lemma_natsorted_unique(
    items: Seq<Seq<char>>,
    ns: Ns,
    floats: Seq<Seq<u64>>,
    r1: Seq<Seq<char>>,
    r2: Seq<Seq<char>>,
)
    requires
        is_natsorted(items, ns, floats, r1),
        is_natsorted(items, ns, floats, r2),
    ensures
        r1 == r2,
{
    let keys = keys_of(items, ns, floats);
    let p = choose|p: Seq<usize>|
        #[trigger] is_stable_order(keys, p) && r1.len() == items.len() && forall|i: int|
            0 <= i < items.len() ==> r1[i] == items[p[i] as int];
    let q = choose|q: Seq<usize>|
        #[trigger] is_stable_order(keys, q) && r2.len() == items.len() && forall|i: int|
            0 <= i < items.len() ==> r2[i] == items[q[i] as int];
    lemma_stable_order_unique(keys, p, q);
    assert(r1 =~= r2);
}

/// The sorted strings are in order by [`compare`]: no string compares greater
/// than one after it. Here each string's float values are a function of the
/// string (`values`), as they are when they are read from its number texts.
///
/// [`compare`]: crate::compare::compare
pub proof fn lemma_natsorted_in_order(
    items: Seq<Seq<char>>,
    ns: Ns,
    values: spec_fn(Seq<char>) -> Seq<u64>,
    result: Seq<Seq<char>>,
    i: int,
    j: int,
)
    requires
        is_natsorted(items, ns, items.map_values(values), result),
        0 <= i < j < result.len(),
    ensures
        key_order(
            natural_key(result[i], ns, values(result[i])),
            natural_key(result[j], ns, values(result[j])),
        ) <= 0,
{
    let keys = keys_of(items, ns, items.map_values(values));
    let p = choose|p: Seq<usize>|
        #[trigger] is_stable_order(keys, p) && result.len() == items.len() && forall|k: int|
            0 <= k < items.len() ==> result[k] == items[p[k] as int];
    assert(precedes(keys, p[i] as int, p[j] as int));
}

/// No floats for each string are the empty values of each string.
pub proof fn lemma_no_floats_as_values(items: Seq<Seq<char>>)
    ensures
        no_floats(items.len()) == items.map_values(|s: Seq<char>| Seq::<u64>::empty()),
{
    assert(no_floats(items.len()) =~= items.map_values(|s: Seq<char>| Seq::<u64>::empty()));
}

/// The positions `0..n` in order.
pub open spec fn identity_order(n: nat) -> Seq<usize> {
    Seq::new(n, |i: int| i as usize)
}

/// Keys that never decrease are stably sorted in their own order.
pub proof fn lemma_sorted_keys_identity(keys: Seq<Seq<KeyChunk>>)
    requires
        keys.len() <= usize::MAX + 1,
        forall|i: int, j: int| 0 <= i < j < keys.len() ==> key_order(keys[i], keys[j]) <= 0,
    ensures
        is_stable_order(keys, identity_order(keys.len())),
{
    let p = identity_order(keys.len());
    assert forall|m: int| 0 <= m < keys.len() implies #[trigger] occurs(p, m) by {
        assert(p[m] == m);
    }
}

/// Sorting is idempotent: sorting sorted strings gives them back unchanged.
/// Here each string's float values are a function of the string (`values`).
pub proof fn lemma_natsorted_idempotent(
    items: Seq<Seq<char>>,
    ns: Ns,
    values: spec_fn(Seq<char>) -> Seq<u64>,
    once: Seq<Seq<char>>,
    twice: Seq<Seq<char>>,
)
    requires
        is_natsorted(items, ns, items.map_values(values), once),
        is_natsorted(once, ns, once.map_values(values), twice),
    ensures
        twice == once,
{
    let keys = keys_of(once, ns, once.map_values(values));
    assert forall|i: int, j: int| 0 <= i < j < keys.len() implies key_order(keys[i], keys[j])
        <= 0 by {
        lemma_natsorted_in_order(items, ns, values, once, i, j);
    }
    let q = choose|q: Seq<usize>|
        #[trigger] is_stable_order(keys, q) && twice.len() == once.len() && forall|k: int|
            0 <= k < once.len() ==> twice[k] == once[q[k] as int];
    if keys.len() > 0 {
        assert(occurs(q, keys.len() - 1));
    }
    lemma_sorted_keys_identity(keys);
    lemma_stable_order_unique(keys, q, identity_order(keys.len()));
    assert(twice =~= once);
}

/// `result` is `items` in stable natural order, as for [`is_natsorted`], and
/// `result_floats` holds for each sorted string the float values that came with
/// it: each string and its floats move together.
pub open spec fn is_natsorted_with(
    items: Seq<Seq<char>>,
    ns: Ns,
    floats: Seq<Seq<u64>>,
    result: Seq<Seq<char>>,
    result_floats: Seq<Seq<u64>>,
) -> bool {
    exists|p: Seq<usize>|
        #[trigger] is_stable_order(keys_of(items, ns, floats), p) && result.len() == items.len()
            && result_floats.len() == items.len() && forall|i: int|
            0 <= i < items.len() ==> result[i] == items[p[i] as int] && result_floats[i]
                == floats[p[i] as int]
}

/// Sorting carries each string's float values along: for every sorted result
/// there are float values for it, each string keeping its own, and they fit the
/// sorted strings wherever the input floats fit the input strings.
pub proof fn lemma_natsorted_carries_floats(
    items: Seq<Seq<char>>,
    ns: Ns,
    floats: Seq<Seq<u64>>,
    once: Seq<Seq<char>>,
) -> (once_floats: Seq<Seq<u64>>)
    requires
        is_natsorted(items, ns, floats, once),
    ensures
        is_natsorted_with(items, ns, floats, once, once_floats),
        floats_fit(items, ns, floats) ==> floats_fit(once, ns, once_floats),
{
    let keys = keys_of(items, ns, floats);
    let p = choose|p: Seq<usize>|
        #[trigger] is_stable_order(keys, p) && once.len() == items.len() && forall|k: int|
            0 <= k < items.len() ==> once[k] == items[p[k] as int];
    let once_floats = Seq::new(items.len(), |i: int| floats[p[i] as int]);
    assert(is_stable_order(keys, p));
    if floats_fit(items, ns, floats) {
        assert forall|i: int| 0 <= i < once.len() implies #[trigger] once_floats[i].len()
            == number_count(once[i], ns) by {
            assert(p[i] < items.len());
        }
    }
    once_floats
}

/// Sorting is idempotent for any float values: sorting sorted strings again,
/// each with the float values it was sorted with, gives them back unchanged.
pub proof fn lemma_natsorted_idempotent_with_floats(
    items: Seq<Seq<char>>,
    ns: Ns,
    floats: Seq<Seq<u64>>,
    once: Seq<Seq<char>>,
    once_floats: Seq<Seq<u64>>,
    twice: Seq<Seq<char>>,
)
    requires
        is_natsorted_with(items, ns, floats, once, once_floats),
        is_natsorted(once, ns, once_floats, twice),
    ensures
        twice == once,
{
    let keys1 = keys_of(items, ns, floats);
    let p = choose|p: Seq<usize>|
        #[trigger] is_stable_order(keys1, p) && once.len() == items.len() && once_floats.len()
            == items.len() && forall|i: int|
            0 <= i < items.len() ==> once[i] == items[p[i] as int] && once_floats[i]
                == floats[p[i] as int];
    let keys = keys_of(once, ns, once_floats);
    assert forall|i: int, j: int| 0 <= i < j < keys.len() implies key_order(keys[i], keys[j])
        <= 0 by {
        assert(precedes(keys1, p[i] as int, p[j] as int));
        assert(keys[i] == keys1[p[i] as int]);
        assert(keys[j] == keys1[p[j] as int]);
        lemma_key_order_basics(keys1[p[i] as int], keys1[p[j] as int]);
    }
    if keys.len() > 0 {
        assert(occurs(p, keys.len() - 1));
    }
    let q = choose|q: Seq<usize>|
        #[trigger] is_stable_order(keys, q) && twice.len() == once.len() && forall|k: int|
            0 <= k < once.len() ==> twice[k] == once[q[k] as int];
    lemma_sorted_keys_identity(keys);
    lemma_stable_order_unique(keys, q, identity_order(keys.len()));
    assert(twice =~= once);
}

/// Removing position `k` from the positions and renumbering the later ones keeps
/// a rearrangement, for a rearrangement whose last entry is `k`.
proof fn lemma_drop_last_rearrangement(p: Seq<usize>, n: int)
    requires
        n > 0,
        is_rearrangement(n as nat, p),
    ensures
        is_rearrangement(
            (n - 1) as nat,
            Seq::new(
                (n - 1) as nat,
                |i: int|
                    if p[i] < p[n - 1] {
                        p[i]
                    } else {
                        (p[i] - 1) as usize
                    },
            ),
        ),
{
    let k = p[n - 1];
    let q = Seq::new(
        (n - 1) as nat,
        |i: int|
            if p[i] < k {
                p[i]
            } else {
                (p[i] - 1) as usize
            },
    );
    assert forall|i: int| 0 <= i < n - 1 implies #[trigger] q[i] < n - 1 by {
        assert(p[i] != p[n - 1]);
    }
    assert forall|i: int, j: int| 0 <= i < j < n - 1 implies q[i] != q[j] by {
        assert(p[i] != p[j]);
        assert(p[i] != k);
        assert(p[j] != k);
    }
    assert forall|m: int| 0 <= m < n - 1 implies #[trigger] occurs(q, m) by {
        let t = if m < k {
            m
        } else {
            m + 1
        };
        assert(occurs(p, t));
        let i = choose|i: int| 0 <= i < p.len() && p[i] == t;
        assert(i != n - 1);
        assert(q[i] == m);
    }
}

/// A sequence rearranged by a rearrangement of its positions holds the same items
/// the same number of times.
pub proof fn lemma_rearranged_multiset<A>(s: Seq<A>, p: Seq<usize>, r: Seq<A>)
    requires
        is_rearrangement(s.len(), p),
        r.len() == s.len(),
        forall|i: int| 0 <= i < s.len() ==> r[i] == s[p[i] as int],
    ensures
        r.to_multiset() =~= s.to_multiset(),
    decreases s.len(),
{
    broadcast use vstd::seq_lib::group_to_multiset_ensures;
    broadcast use vstd::multiset::group_multiset_axioms;

    let n = s.len() as int;
    if n == 0 {
        assert(r =~= s);
    } else {
        let k = p[n - 1] as int;
        let q = Seq::new(
            (n - 1) as nat,
            |i: int|
                if p[i] < p[n - 1] {
                    p[i]
                } else {
                    (p[i] - 1) as usize
                },
        );
        lemma_drop_last_rearrangement(p, n);
        let s2 = s.remove(k);
        let r2 = r.drop_last();
        assert forall|i: int| 0 <= i < s2.len() implies r2[i] == s2[q[i] as int] by {
            assert(p[i] != p[n - 1]);
        }
        lemma_rearranged_multiset(s2, q, r2);
        vstd::seq_lib::to_multiset_remove(s, k);
        assert(r =~= r2.push(s[k]));
        vstd::seq_lib::to_multiset_build(r2, s[k]);
        assert(s.to_multiset().count(s[k]) > 0) by {
            vstd::seq_lib::to_multiset_contains(s, s[k]);
        }
    }
}

/// Sorting rearranges: the result holds the same strings as the input, each as
/// many times.
pub proof fn lemma_natsorted_permutation(
    items: Seq<Seq<char>>,
    ns: Ns,
    floats: Seq<Seq<u64>>,
    result: Seq<Seq<char>>,
)
    requires
        is_natsorted(items, ns, floats, result),
    ensures
        result.to_multiset() =~= items.to_multiset(),
{
    let keys = keys_of(items, ns, floats);
    let p = choose|p: Seq<usize>|
        #[trigger] is_stable_order(keys, p) && result.len() == items.len() && forall|k: int|
            0 <= k < items.len() ==> result[k] == items[p[k] as int];
    lemma_rearranged_multiset(items, p, result);
}

/// Sorting with [`natsorted`] is idempotent: sorting its result again gives the
/// same strings in the same order.
pub proof fn lemma_natsorted_default_idempotent(
    items: Seq<Seq<char>>,
    once: Seq<Seq<char>>,
    twice: Seq<Seq<char>>,
)
    requires
        is_natsorted(items, no_flags(), no_floats(items.len()), once),
        is_natsorted(once, no_flags(), no_floats(once.len()), twice),
    ensures
        twice == once,
{
    lemma_no_floats_as_values(items);
    lemma_no_floats_as_values(once);
    lemma_natsorted_idempotent(items, no_flags(), |s: Seq<char>| Seq::<u64>::empty(), once, twice);
}

} // verus!
