//! Integers of any size, as sequences of decimal digit values.

use vstd::prelude::*;

use crate::order::int_order;

verus! {

/// The value of a sequence of digit values, most significant first.
pub open spec fn digits_num(d: Seq<u8>) -> nat
    decreases d.len(),
{
    if d.len() == 0 {
        0
    } else {
        digits_num(d.drop_last()) * 10 + d.last() as nat
    }
}

/// Ten to the power `n`.
pub open spec fn pow10(n: nat) -> nat
    decreases n,
{
    if n == 0 {
        1
    } else {
        pow10((n - 1) as nat) * 10
    }
}

/// Every entry is a digit value, below ten.
pub open spec fn is_digit_seq(d: Seq<u8>) -> bool {
    forall|i: int| 0 <= i < d.len() ==> #[trigger] d[i] < 10
}

/// A digit sequence without leading zero (the empty sequence is zero).
pub open spec fn is_numeral(d: Seq<u8>) -> bool {
    &&& is_digit_seq(d)
    &&& d.len() > 0 ==> d[0] != 0
}

pub proof fn lemma_pow10_monotonic(a: nat, b: nat)
    requires
        a <= b,
    ensures
        1 <= pow10(a) <= pow10(b),
    decreases b,
{
    if b > 0 {
        if a < b {
            lemma_pow10_monotonic(a, (b - 1) as nat);
        } else {
            lemma_pow10_monotonic((a - 1) as nat, (b - 1) as nat);
        }
    }
}

/// Splitting digits: the value of `x ++ y` is `x` shifted by the length of `y`, plus `y`.
pub proof fn lemma_digits_num_append(x: Seq<u8>, y: Seq<u8>)
    ensures
        digits_num(x + y) == digits_num(x) * pow10(y.len()) + digits_num(y),
    decreases y.len(),
{
    if y.len() == 0 {
        assert(x + y =~= x);
        assert(pow10(0) == 1);
        assert(digits_num(y) == 0);
    } else {
        let y1 = y.drop_last();
        assert((x + y).drop_last() =~= x + y1);
        lemma_digits_num_append(x, y1);
        assert((x + y).last() == y.last());
        assert(pow10(y.len()) == pow10(y1.len()) * 10);
        let a = digits_num(x);
        let p = pow10(y1.len());
        let b = digits_num(y1);
        assert((a * p + b) * 10 + y.last() as nat == a * (p * 10) + (b * 10 + y.last() as nat))
            by (nonlinear_arith);
        assert(digits_num(x + y) == digits_num(x + y1) * 10 + y.last() as nat);
        assert(digits_num(y) == b * 10 + y.last() as nat);
    }
}

/// `n` digits are worth less than ten to the `n`.
pub proof fn lemma_digits_num_below(d: Seq<u8>)
    requires
        is_digit_seq(d),
    ensures
        digits_num(d) < pow10(d.len()),
    decreases d.len(),
{
    if d.len() > 0 {
        let d1 = d.drop_last();
        assert(is_digit_seq(d1)) by {
            assert forall|i: int| 0 <= i < d1.len() implies #[trigger] d1[i] < 10 by {
                assert(d1[i] == d[i]);
            }
        }
        lemma_digits_num_below(d1);
        assert(d.last() < 10);
    }
}

/// A numeral of `n` digits is worth at least ten to the `n - 1`.
pub proof fn lemma_digits_num_above(d: Seq<u8>)
    requires
        d.len() > 0,
        d[0] != 0,
    ensures
        digits_num(d) >= pow10((d.len() - 1) as nat),
{
    let head = d.take(1);
    let rest = d.skip(1);
    assert(d =~= head + rest);
    lemma_digits_num_append(head, rest);
    assert(head.drop_last() =~= Seq::<u8>::empty());
    assert(head.last() == d[0]);
    assert(digits_num(head.drop_last()) == 0);
    assert(digits_num(head) == d[0] as nat);
    let p = pow10(rest.len());
    assert(d[0] as nat * p >= p) by (nonlinear_arith)
        requires
            d[0] >= 1,
    ;
}

/// Of two digit sequences of one length, the one with the smaller digit at the
/// first place where they differ is worth less.
pub proof fn lemma_digits_num_first_difference(a: Seq<u8>, b: Seq<u8>, k: int)
    requires
        is_digit_seq(a),
        is_digit_seq(b),
        a.len() == b.len(),
        0 <= k < a.len(),
        a.take(k) == b.take(k),
        a[k] < b[k],
    ensures
        digits_num(a) < digits_num(b),
{
    let ha = a.take(k + 1);
    let hb = b.take(k + 1);
    let ra = a.skip(k + 1);
    let rb = b.skip(k + 1);
    assert(a =~= ha + ra);
    assert(b =~= hb + rb);
    lemma_digits_num_append(ha, ra);
    lemma_digits_num_append(hb, rb);
    assert(ha.drop_last() =~= a.take(k));
    assert(hb.drop_last() =~= b.take(k));
    assert(is_digit_seq(ra)) by {
        assert forall|i: int| 0 <= i < ra.len() implies #[trigger] ra[i] < 10 by {
            assert(ra[i] == a[i + k + 1]);
        }
    }
    lemma_digits_num_below(ra);
    let p = pow10(ra.len());
    let x = digits_num(ha);
    let y = digits_num(hb);
    assert(y >= x + 1);
    let u = digits_num(ra);
    let v = digits_num(rb);
    assert(x * p + u < y * p + v) by (nonlinear_arith)
        requires
            y >= x + 1,
            u < p,
    ;
}

/// Returns the order of the values of two numerals.
pub fn order_numerals(a: &Vec<u8>, b: &Vec<u8>) -> (r: i8)
    requires
        is_numeral(a@),
        is_numeral(b@),
    ensures
        r == int_order(digits_num(a@) as int, digits_num(b@) as int),
{
    if a.len() != b.len() {
        proof {
            lemma_digits_num_below(a@);
            lemma_digits_num_below(b@);
            if a.len() < b.len() {
                lemma_digits_num_above(b@);
                lemma_pow10_monotonic(a@.len(), (b@.len() - 1) as nat);
            } else {
                lemma_digits_num_above(a@);
                lemma_pow10_monotonic(b@.len(), (a@.len() - 1) as nat);
            }
        }
        if a.len() < b.len() {
            return -1;
        } else {
            return 1;
        }
    }
    let mut i: usize = 0;
    while i < a.len()
        invariant
            i <= a.len(),
            a.len() == b.len(),
            is_numeral(a@),
            is_numeral(b@),
            a@.take(i as int) == b@.take(i as int),
        decreases a.len() - i,
    {
        if a[i] < b[i] {
            proof {
                lemma_digits_num_first_difference(a@, b@, i as int);
            }
            return -1;
        }
        if a[i] > b[i] {
            proof {
                lemma_digits_num_first_difference(b@, a@, i as int);
            }
            return 1;
        }
        assert(a@.take(i + 1) =~= a@.take(i as int).push(a@[i as int]));
        assert(b@.take(i + 1) =~= b@.take(i as int).push(b@[i as int]));
        i = i + 1;
    }
    assert(a@ =~= a@.take(i as int));
    assert(b@ =~= b@.take(i as int));
    0
}

/// Digit sequences of one length with the same value are the same.
pub proof fn lemma_digit_seq_unique(a: Seq<u8>, b: Seq<u8>)
    requires
        is_digit_seq(a),
        is_digit_seq(b),
        a.len() == b.len(),
        digits_num(a) == digits_num(b),
    ensures
        a == b,
    decreases a.len(),
{
    if a.len() > 0 {
        let a1 = a.drop_last();
        let b1 = b.drop_last();
        let x = a.last() as int;
        let y = b.last() as int;
        let p = digits_num(a1) as int;
        let q = digits_num(b1) as int;
        assert(x < 10 && y < 10);
        assert(p * 10 + x == q * 10 + y);
        assert(p == q && x == y) by (nonlinear_arith)
            requires
                p * 10 + x == q * 10 + y,
                0 <= x < 10,
                0 <= y < 10,
                p >= 0,
                q >= 0,
        ;
        assert(is_digit_seq(a1)) by {
            assert forall|i: int| 0 <= i < a1.len() implies #[trigger] a1[i] < 10 by {
                assert(a1[i] == a[i]);
            }
        }
        assert(is_digit_seq(b1)) by {
            assert forall|i: int| 0 <= i < b1.len() implies #[trigger] b1[i] < 10 by {
                assert(b1[i] == b[i]);
            }
        }
        lemma_digit_seq_unique(a1, b1);
        assert(a =~= a1.push(a.last()));
        assert(b =~= b1.push(b.last()));
    } else {
        assert(a =~= b);
    }
}

/// A number has one numeral: numerals with the same value are the same.
pub proof fn lemma_numeral_unique(a: Seq<u8>, b: Seq<u8>)
    requires
        is_numeral(a),
        is_numeral(b),
        digits_num(a) == digits_num(b),
    ensures
        a == b,
{
    lemma_digits_num_below(a);
    lemma_digits_num_below(b);
    if a.len() < b.len() {
        lemma_digits_num_above(b);
        lemma_pow10_monotonic(a.len(), (b.len() - 1) as nat);
    } else if a.len() > b.len() {
        lemma_digits_num_above(a);
        lemma_pow10_monotonic(b.len(), (a.len() - 1) as nat);
    } else {
        lemma_digit_seq_unique(a, b);
    }
}

} // verus!
