//! Natural numbers of any size held as little-endian vectors of decimal
//! digits, with the few operations the number checks need: doubling,
//! scaling by a power of ten, conversion from `u64` and from decimal text,
//! and comparison.

use vstd::prelude::*;

verus! {

/// `b` to the power `e`.
pub open spec fn pow_nat(b: nat, e: nat) -> nat
    decreases e,
{
    if e == 0 {
        1
    } else {
        b * pow_nat(b, (e - 1) as nat)
    }
}

/// Every entry is a decimal digit.
pub open spec fn all_digits(d: Seq<u8>) -> bool {
    forall|i: int| 0 <= i < d.len() ==> d[i] < 10
}

/// The number whose decimal digits, least significant first, are `d`.
pub open spec fn le_value(d: Seq<u8>) -> nat
    decreases d.len(),
{
    if d.len() == 0 {
        0
    } else {
        le_value(d.drop_last()) + (d.last() as nat) * pow_nat(10, (d.len() - 1) as nat)
    }
}

/// The decimal digit that a character `'0'..='9'` stands for.
pub open spec fn char_digit(c: char) -> nat {
    (c as nat - '0' as nat) as nat
}

/// The character is one of `'0'..='9'`.
pub open spec fn is_digit_char(c: char) -> bool {
    '0' <= c && c <= '9'
}

/// The number written by the digit characters `s`, most significant first.
pub open spec fn be_value(s: Seq<char>) -> nat
    decreases s.len(),
{
    if s.len() == 0 {
        0
    } else {
        be_value(s.drop_last()) * 10 + char_digit(s.last())
    }
}

pub proof fn lemma_pow_positive(b: nat, e: nat)
    requires
        b >= 1,
    ensures
        pow_nat(b, e) >= 1,
    decreases e,
{
    if e > 0 {
        lemma_pow_positive(b, (e - 1) as nat);
        assert(b * pow_nat(b, (e - 1) as nat) >= 1) by (nonlinear_arith)
            requires
                b >= 1,
                pow_nat(b, (e - 1) as nat) >= 1,
        ;
    }
}

pub proof fn lemma_pow_add(b: nat, x: nat, y: nat)
    ensures
        pow_nat(b, x + y) == pow_nat(b, x) * pow_nat(b, y),
    decreases y,
{
    if y > 0 {
        let y1 = (y - 1) as nat;
        lemma_pow_add(b, x, y1);
        let p = pow_nat(b, x);
        let q = pow_nat(b, y1);
        assert(pow_nat(b, x + y1) == p * q);
        assert(x + y == (x + y1) + 1);
        assert(pow_nat(b, x + y) == b * pow_nat(b, x + y1));
        assert(pow_nat(b, y) == b * q);
        assert(b * (p * q) == p * (b * q)) by (nonlinear_arith);
    } else {
        assert(x + y == x);
        assert(pow_nat(b, y) == 1);
    }
}

/// A vector of zeros has value zero.
pub proof fn lemma_zeros_value(d: Seq<u8>)
    requires
        forall|i: int| 0 <= i < d.len() ==> d[i] == 0,
    ensures
        le_value(d) == 0,
    decreases d.len(),
{
    if d.len() > 0 {
        lemma_zeros_value(d.drop_last());
    }
}

/// Appending a zero as most significant digit keeps the value.
pub proof fn lemma_push_zero(d: Seq<u8>)
    ensures
        le_value(d.push(0)) == le_value(d),
{
    let e = d.push(0);
    assert(e.drop_last() =~= d);
    assert(e.last() == 0);
    assert(le_value(e) == le_value(e.drop_last()) + (e.last() as nat) * pow_nat(10, (e.len() - 1) as nat));
}

/// A vector of `n` digits is below `10^n`.
pub proof fn lemma_value_bound(d: Seq<u8>)
    requires
        all_digits(d),
    ensures
        le_value(d) < pow_nat(10, d.len()),
    decreases d.len(),
{
    if d.len() > 0 {
        let n = (d.len() - 1) as nat;
        lemma_value_bound(d.drop_last());
        let p = pow_nat(10, n);
        let x = d.last() as nat;
        assert(x * p <= 9 * p) by (nonlinear_arith)
            requires
                x <= 9,
        ;
        assert(pow_nat(10, d.len()) == 10 * p);
    }
}

/// Splits a digit vector into its low `i` digits and the rest.
pub proof fn lemma_value_split(d: Seq<u8>, i: int)
    requires
        0 <= i <= d.len(),
    ensures
        le_value(d) == le_value(d.take(i)) + pow_nat(10, i as nat) * le_value(d.skip(i)),
    decreases d.len(),
{
    if i == d.len() {
        assert(d.take(i) =~= d);
        assert(d.skip(i).len() == 0);
        assert(le_value(d.skip(i)) == 0);
    } else {
        let e = d.drop_last();
        lemma_value_split(e, i);
        assert(le_value(d) == le_value(e) + (d.last() as nat) * pow_nat(10, (d.len() - 1) as nat));
        let s = d.skip(i);
        assert(le_value(s) == le_value(s.drop_last()) + (s.last() as nat) * pow_nat(10, (s.len() - 1) as nat));
        assert(e.take(i) =~= d.take(i));
        assert(d.skip(i).drop_last() =~= e.skip(i));
        assert(d.skip(i).last() == d.last());
        let n = (d.len() - 1) as nat;
        let k = (d.skip(i).len() - 1) as nat;
        assert(n == i as nat + k);
        lemma_pow_add(10, i as nat, k);
        let pi = pow_nat(10, i as nat);
        let pk = pow_nat(10, k);
        let x = d.last() as nat;
        let w = le_value(e.skip(i));
        assert(pi * (w + x * pk) == pi * w + x * (pi * pk)) by (nonlinear_arith);
    }
}

/// Putting a digit below a vector: `[x] ++ w` has value `x + 10 * w`.
pub proof fn lemma_value_cons(x: u8, w: Seq<u8>)
    ensures
        le_value(seq![x] + w) == x as nat + 10 * le_value(w),
{
    let d = seq![x] + w;
    lemma_value_split(d, 1);
    assert(d.take(1) =~= seq![x]);
    assert(d.skip(1) =~= w);
    let one = seq![x];
    assert(one.drop_last() =~= Seq::<u8>::empty());
    assert(le_value(one.drop_last()) == 0);
    assert(pow_nat(10, 0) == 1);
    assert(le_value(one) == le_value(one.drop_last()) + (x as nat) * pow_nat(10, 0));
    assert(pow_nat(10, 1) == 10);
    let p0 = pow_nat(10, 0);
    assert(p0 == 1);
    assert((x as nat) * p0 == x as nat) by (nonlinear_arith)
        requires
            p0 == 1,
    ;
    assert(le_value(one) == x as nat);
    assert(d.take(1) == one);
    assert(le_value(d.take(1)) == x as nat);
    assert(le_value(d.skip(1)) == le_value(w));
}

/// Two vectors of equal length that agree above index `i` and differ at
/// `i` are ordered as their digits at `i`.
pub proof fn lemma_first_difference(a: Seq<u8>, b: Seq<u8>, i: int)
    requires
        a.len() == b.len(),
        0 <= i < a.len(),
        all_digits(a),
        all_digits(b),
        a.skip(i + 1) == b.skip(i + 1),
        a[i] < b[i],
    ensures
        le_value(a) < le_value(b),
{
    lemma_value_split(a, i);
    lemma_value_split(b, i);
    assert(a.skip(i) =~= seq![a[i]] + a.skip(i + 1));
    assert(b.skip(i) =~= seq![b[i]] + b.skip(i + 1));
    lemma_value_cons(a[i], a.skip(i + 1));
    lemma_value_cons(b[i], b.skip(i + 1));
    lemma_value_bound(a.take(i));
    let p = pow_nat(10, i as nat);
    let w = le_value(a.skip(i + 1));
    let lo_a = le_value(a.take(i));
    let lo_b = le_value(b.take(i));
    let x = a[i] as nat;
    let y = b[i] as nat;
    assert(lo_a + p * (x + 10 * w) < lo_b + p * (y + 10 * w)) by (nonlinear_arith)
        requires
            lo_a < p,
            x + 1 <= y,
            lo_b >= 0,
    ;
}

/// `zeros(k) ++ w` has value `10^k * w`.
pub proof fn lemma_shift_value(z: Seq<u8>, w: Seq<u8>)
    requires
        forall|i: int| 0 <= i < z.len() ==> z[i] == 0,
    ensures
        le_value(z + w) == pow_nat(10, z.len()) * le_value(w),
    decreases w.len(),
{
    if w.len() == 0 {
        assert(z + w =~= z);
        lemma_zeros_value(z);
    } else {
        lemma_shift_value(z, w.drop_last());
        assert((z + w).drop_last() =~= z + w.drop_last());
        let zw = z + w;
        assert(le_value(zw) == le_value(zw.drop_last()) + (zw.last() as nat) * pow_nat(10, (zw.len() - 1) as nat));
        assert(le_value(w) == le_value(w.drop_last()) + (w.last() as nat) * pow_nat(10, (w.len() - 1) as nat));
        let k = z.len();
        let m = (w.len() - 1) as nat;
        lemma_pow_add(10, k, m);
        let pk = pow_nat(10, k);
        let pm = pow_nat(10, m);
        let x = w.last() as nat;
        let v = le_value(w.drop_last());
        assert(pk * v + x * (pk * pm) == pk * (v + x * pm)) by (nonlinear_arith);
    }
}

/// The digits of `s`, least significant first.
pub open spec fn le_digits_of(s: Seq<char>) -> Seq<u8> {
    Seq::new(s.len(), |i: int| char_digit(s[s.len() - 1 - i]) as u8)
}

pub proof fn lemma_be_le(s: Seq<char>)
    requires
        forall|i: int| 0 <= i < s.len() ==> is_digit_char(s[i]),
    ensures
        be_value(s) == le_value(le_digits_of(s)),
        all_digits(le_digits_of(s)),
    decreases s.len(),
{
    if s.len() > 0 {
        let t = s.drop_last();
        lemma_be_le(t);
        let x = char_digit(s.last()) as u8;
        assert(le_digits_of(s) =~= seq![x] + le_digits_of(t));
        lemma_value_cons(x, le_digits_of(t));
    }
}

/// Twice the number held in `d`.
pub fn double(d: &Vec<u8>) -> (r: Vec<u8>)
    requires
        all_digits(d@),
    ensures
        all_digits(r@),
        le_value(r@) == 2 * le_value(d@),
{
    let mut out: Vec<u8> = Vec::new();
    let mut carry: u8 = 0;
    let mut i: usize = 0;
    while i < d.len()
        invariant
            i <= d.len(),
            out.len() == i,
            all_digits(d@),
            all_digits(out@),
            carry <= 1,
            le_value(out@) + (carry as nat) * pow_nat(10, i as nat) == 2 * le_value(d@.take(i as int)),
        decreases d.len() - i,
    {
        let x: u8 = 2 * d[i] + carry;
        let low: u8 = x % 10;
        let next: u8 = x / 10;
        proof {
            let p = pow_nat(10, i as nat);
            let dt = d@.take(i as int + 1);
            assert(dt.drop_last() =~= d@.take(i as int));
            assert(le_value(dt) == le_value(dt.drop_last()) + (dt.last() as nat) * p);
            let e = out@.push(low);
            assert(e.drop_last() =~= out@);
            assert(le_value(e) == le_value(out@) + (low as nat) * p);
            assert(pow_nat(10, (i + 1) as nat) == 10 * p);
            assert((low as nat) * p + (next as nat) * (10 * p) == (x as nat) * p) by (nonlinear_arith)
                requires
                    low as nat + 10 * next as nat == x as nat,
            ;
            assert((x as nat) * p == 2 * ((d[i as int] as nat) * p) + (carry as nat) * p) by (nonlinear_arith)
                requires
                    x as nat == 2 * d[i as int] as nat + carry as nat,
            ;
        }
        out.push(low);
        carry = next;
        i = i + 1;
    }
    proof {
        assert(d@.take(i as int) =~= d@);
        let e = out@.push(carry);
        assert(e.drop_last() =~= out@);
        assert(le_value(e) == le_value(out@) + (carry as nat) * pow_nat(10, i as nat));
    }
    out.push(carry);
    out
}

/// `d` scaled by `10^k`.
pub fn shift_up(d: &Vec<u8>, k: usize) -> (r: Vec<u8>)
    requires
        all_digits(d@),
    ensures
        all_digits(r@),
        le_value(r@) == pow_nat(10, k as nat) * le_value(d@),
{
    let mut out: Vec<u8> = Vec::new();
    let mut j: usize = 0;
    while j < k
        invariant
            j <= k,
            out.len() == j,
            forall|t: int| 0 <= t < out.len() ==> out@[t] == 0,
        decreases k - j,
    {
        out.push(0);
        j = j + 1;
    }
    let ghost zeros = out@;
    let mut i: usize = 0;
    while i < d.len()
        invariant
            i <= d.len(),
            zeros.len() == k,
            forall|t: int| 0 <= t < zeros.len() ==> zeros[t] == 0,
            out@ == zeros + d@.take(i as int),
            all_digits(d@),
        decreases d.len() - i,
    {
        proof {
            assert(zeros + d@.take(i as int + 1) =~= (zeros + d@.take(i as int)).push(d@[i as int]));
        }
        out.push(d[i]);
        i = i + 1;
    }
    proof {
        assert(d@.take(i as int) =~= d@);
        lemma_shift_value(zeros, d@);
    }
    out
}

/// The decimal digits of `v`.
pub fn digits_from_u64(v: u64) -> (r: Vec<u8>)
    ensures
        all_digits(r@),
        le_value(r@) == v,
{
    let mut out: Vec<u8> = Vec::new();
    let mut rest: u64 = v;
    proof {
        assert(le_value(out@) == 0);
        assert(pow_nat(10, out.len() as nat) == 1);
    }
    while rest > 0
        invariant
            all_digits(out@),
            le_value(out@) + pow_nat(10, out.len() as nat) * (rest as nat) == v as nat,
        decreases rest,
    {
        let low: u8 = (rest % 10) as u8;
        proof {
            let p = pow_nat(10, out.len() as nat);
            let e = out@.push(low);
            assert(e.drop_last() =~= out@);
            assert(le_value(e) == le_value(out@) + (low as nat) * p);
            assert(pow_nat(10, (out.len() + 1) as nat) == 10 * p);
            let r = rest as nat;
            assert((low as nat) * p + (10 * p) * (r / 10) == p * r) by (nonlinear_arith)
                requires
                    low as nat == r % 10,
            ;
        }
        out.push(low);
        rest = rest / 10;
    }
    out
}

/// The number `10^k`.
pub fn power_of_ten(k: usize) -> (r: Vec<u8>)
    ensures
        all_digits(r@),
        le_value(r@) == pow_nat(10, k as nat),
{
    let one: Vec<u8> = vec![1];
    proof {
        assert(one@.drop_last() =~= Seq::<u8>::empty());
        assert(le_value(one@.drop_last()) == 0);
        assert(pow_nat(10, 0) == 1);
        assert(le_value(one@) == le_value(one@.drop_last()) + (one@.last() as nat) * pow_nat(10, 0));
    }
    shift_up(&one, k)
}

/// Whether the number in `a` is at most the number in `b`.
pub fn value_le(a: &Vec<u8>, b: &Vec<u8>) -> (r: bool)
    requires
        all_digits(a@),
        all_digits(b@),
    ensures
        r == (le_value(a@) <= le_value(b@)),
{
    let mut x = a.clone();
    let mut y = b.clone();
    while x.len() < y.len()
        invariant
            all_digits(y@),
            le_value(y@) == le_value(b@),
            all_digits(x@),
            le_value(x@) == le_value(a@),
        decreases y.len() - x.len(),
    {
        proof {
            lemma_push_zero(x@);
        }
        x.push(0);
    }
    while y.len() < x.len()
        invariant
            y.len() <= x.len(),
            all_digits(x@),
            le_value(x@) == le_value(a@),
            all_digits(y@),
            le_value(y@) == le_value(b@),
        decreases x.len() - y.len(),
    {
        proof {
            lemma_push_zero(y@);
        }
        y.push(0);
    }
    let n = x.len();
    let mut i: usize = n;
    proof {
        assert(x@.skip(n as int) =~= y@.skip(n as int));
    }
    while i > 0
        invariant
            x.len() == n,
            y.len() == n,
            i <= n,
            all_digits(x@),
            all_digits(y@),
            x@.skip(i as int) == y@.skip(i as int),
            le_value(x@) == le_value(a@),
            le_value(y@) == le_value(b@),
        decreases i,
    {
        let j = i - 1;
        if x[j] != y[j] {
            proof {
                assert(x@.skip(j + 1) == y@.skip(j + 1));
                if x[j as int] < y[j as int] {
                    lemma_first_difference(x@, y@, j as int);
                } else {
                    lemma_first_difference(y@, x@, j as int);
                }
            }
            return x[j] < y[j];
        }
        proof {
            assert(x@.skip(j as int) =~= seq![x@[j as int]] + x@.skip(i as int));
            assert(y@.skip(j as int) =~= seq![y@[j as int]] + y@.skip(i as int));
        }
        i = j;
    }
    proof {
        assert(x@ =~= x@.skip(0));
        assert(y@ =~= y@.skip(0));
    }
    true
}

} // verus!
