//! Numeric text: what counts as a number, the unit suffixes users may type,
//! and the checks that decide how such a number compares once it is read as
//! a binary 64-bit float (as the graphs and predictions read it).
//!
//! Reading decimal text as an IEEE double rounds to the nearest double, ties
//! to even. So the text reads as zero exactly when its value is at most
//! half the smallest subnormal, `2^-1075`; it reads as a value in `[1, 40]`
//! exactly when its value lies in `[1 - 2^-54, 40 + 2^-48]`. The checks below
//! decide those conditions on the exact decimal value, with no rounding.

use vstd::prelude::*;
use crate::digits::{
    all_digits, be_value, digits_from_u64, double, is_digit_char, le_digits_of, le_value,
    lemma_be_le, pow_nat, power_of_ten, shift_up, value_le,
};
use crate::error::AppError;
use crate::text::{chars_of, concat, contains_char, non_white_space_chars, owned, remove_whitespace, string_from_chars, string_from_prefix, without_white_space};

verus! {

/// The text without a leading minus sign.
pub open spec fn unsigned_text(s: Seq<char>) -> Seq<char> {
    if s.len() > 0 && s[0] == '-' {
        s.skip(1)
    } else {
        s
    }
}

/// The text starts with a minus sign.
pub open spec fn is_negative_text(s: Seq<char>) -> bool {
    s.len() > 0 && s[0] == '-'
}

/// An optional `-`, then decimal digits with at most one `.` among them,
/// and at least one digit.
pub open spec fn is_decimal_text(s: Seq<char>) -> bool {
    let u = unsigned_text(s);
    &&& forall|i: int| 0 <= i < u.len() ==> is_digit_char(u[i]) || u[i] == '.'
    &&& forall|i: int, j: int| 0 <= i < j < u.len() && u[i] == '.' ==> u[j] != '.'
    &&& exists|i: int| 0 <= i < u.len() && is_digit_char(u[i])
}

/// The digits before the decimal point.
pub open spec fn int_digits(u: Seq<char>) -> Seq<char> {
    if u.contains('.') {
        u.take(u.index_of('.'))
    } else {
        u
    }
}

/// The digits after the decimal point.
pub open spec fn frac_digits(u: Seq<char>) -> Seq<char> {
    if u.contains('.') {
        u.skip(u.index_of('.') + 1)
    } else {
        Seq::empty()
    }
}

/// All digits of the number read as one integer: the value is
/// `mantissa / 10^scale`, with the sign of the text.
pub open spec fn mantissa(s: Seq<char>) -> nat {
    be_value(int_digits(unsigned_text(s)) + frac_digits(unsigned_text(s)))
}

/// The number of digits after the decimal point.
pub open spec fn scale(s: Seq<char>) -> nat {
    frac_digits(unsigned_text(s)).len()
}

/// The number's magnitude is at most `2^-1075`, so it reads as a zero double.
pub open spec fn reads_as_zero(s: Seq<char>) -> bool {
    mantissa(s) * pow_nat(2, 1075) <= pow_nat(10, scale(s))
}

/// The number reads as a double `x` with `1 <= x <= 40`: it is not negative
/// and its value lies in `[1 - 2^-54, 40 + 2^-48]`.
pub open spec fn reads_as_grind_setting(s: Seq<char>) -> bool {
    &&& !is_negative_text(s)
    &&& mantissa(s) * pow_nat(2, 54) >= (pow_nat(2, 54) - 1) * pow_nat(10, scale(s))
    &&& mantissa(s) * pow_nat(2, 48) <= (40 * pow_nat(2, 48) + 1) * pow_nat(10, scale(s))
}

pub fn is_digit(c: char) -> (r: bool)
    ensures
        r == is_digit_char(c),
{
    '0' <= c && c <= '9'
}

/// Whether `value` is a decimal number: an optional `-`, digits, and at most
/// one `.`, with at least one digit.
pub fn is_number(value: &str) -> (r: bool)
    ensures
        r == is_decimal_text(value@),
{
    let c = chars_of(value);
    is_number_chars(&c)
}

pub fn is_number_chars(c: &Vec<char>) -> (r: bool)
    ensures
        r == is_decimal_text(c@),
{
    let n = c.len();
    if n == 0 {
        return false;
    }
    let start: usize = if c[0] == '-' { 1 } else { 0 };
    let ghost u = unsigned_text(c@);
    proof {
        assert(u =~= c@.skip(start as int));
    }
    if start == n {
        return false;
    }
    let mut seen = false;
    let mut i = start;
    while i < n && is_digit(c[i])
        invariant
            start <= i <= n,
            n == c.len(),
            u == c@.skip(start as int),
            forall|j: int| start <= j < i ==> is_digit_char(c@[j]),
            seen == (i > start),
        decreases n - i,
    {
        seen = true;
        i = i + 1;
    }
    let first_end = i;
    if i < n && c[i] == '.' {
        i = i + 1;
        while i < n && is_digit(c[i])
            invariant
                first_end < i <= n,
                n == c.len(),
                c@[first_end as int] == '.',
                forall|j: int| first_end < j < i ==> is_digit_char(c@[j]),
                seen == (first_end > start || i > first_end + 1),
            decreases n - i,
        {
            seen = true;
            i = i + 1;
        }
    }
    let r = seen && i == n;
    proof {
        if r {
            assert forall|a: int| 0 <= a < u.len() implies is_digit_char(u[a]) || u[a] == '.' by {
                assert(u[a] == c@[a + start]);
            }
            assert forall|a: int, b: int| 0 <= a < b < u.len() && u[a] == '.' implies u[b] != '.' by {
                assert(u[a] == c@[a + start]);
                assert(u[b] == c@[b + start]);
            }
            if first_end > start {
                assert(is_digit_char(u[0]));
            } else {
                assert(is_digit_char(u[(first_end + 1 - start) as int]));
            }
        } else {
            if is_decimal_text(c@) {
                // the scan stops only at a character that is neither a digit
                // nor a first point, or before any digit was seen
                if i < n {
                    assert(u[(i - start) as int] == c@[i as int]);
                    if c@[i as int] == '.' {
                        assert(u[(first_end - start) as int] == '.');
                        assert(first_end < i);
                    }
                } else {
                    let w = choose|a: int| 0 <= a < u.len() && is_digit_char(u[a]);
                    assert(u[w] == c@[w + start]);
                    if first_end < n && c@[first_end as int] == '.' {
                        assert(w + start != first_end);
                    }
                }
            }
        }
    }
    r
}

/// The text with white space removed and one trailing unit letter (any of
/// `units`) dropped.
pub open spec fn strip_unit(s: Seq<char>, units: Seq<char>) -> Seq<char> {
    let w = without_white_space(s);
    if w.len() > 0 && units.contains(w.last()) {
        w.drop_last()
    } else {
        w
    }
}

fn strip_unit_exec(value: &str, unit_a: char, unit_b: char) -> (r: String)
    ensures
        r@ == strip_unit(value@, seq![unit_a, unit_b]),
{
    let w = non_white_space_chars(value);
    let n = w.len();
    let ghost units = seq![unit_a, unit_b];
    if n > 0 && (w[n - 1] == unit_a || w[n - 1] == unit_b) {
        proof {
            assert(units.contains(w@.last())) by {
                if w@.last() == unit_a {
                    assert(units[0] == unit_a);
                } else {
                    assert(units[1] == unit_b);
                }
            }
        }
        let r = string_from_prefix(&w, n - 1);
        proof {
            assert(w@.take(n - 1) =~= w@.drop_last());
        }
        r
    } else {
        proof {
            if n > 0 {
                assert(!units.contains(w@.last())) by {
                    if units.contains(w@.last()) {
                        let k = choose|k: int| 0 <= k < units.len() && units[k] == w@.last();
                        assert(k == 0 || k == 1);
                    }
                }
            }
        }
        string_from_chars(&w)
    }
}

/// The number typed for any quantity: white space removed, a trailing `g`
/// or `s` dropped.
pub fn numeric_value(value: &str) -> (r: String)
    ensures
        r@ == strip_unit(value@, seq!['g', 's']),
{
    strip_unit_exec(value, 'g', 's')
}

/// A weight in grams: white space removed, a trailing `g` dropped.
pub fn numeric_dose(value: &str) -> (r: String)
    ensures
        r@ == strip_unit(value@, seq!['g', 'g']),
{
    strip_unit_exec(value, 'g', 'g')
}

/// A time in seconds: white space removed, a trailing `s` dropped.
pub fn numeric_time(value: &str) -> (r: String)
    ensures
        r@ == strip_unit(value@, seq!['s', 's']),
{
    strip_unit_exec(value, 's', 's')
}

/// A plain number: white space removed.
pub fn numeric_plain(value: &str) -> (r: String)
    ensures
        r@ == without_white_space(value@),
{
    remove_whitespace(value)
}

/// The index of the decimal point in a decimal text, or its length.
fn point_index(u: &Vec<char>) -> (r: usize)
    requires
        forall|i: int, j: int| 0 <= i < j < u.len() && u[i] == '.' ==> u[j] != '.',
    ensures
        r <= u.len(),
        r < u.len() ==> u@.contains('.') && u@.index_of('.') == r,
        r == u.len() ==> !u@.contains('.'),
{
    let mut i: usize = 0;
    while i < u.len()
        invariant
            i <= u.len(),
            forall|j: int| 0 <= j < i ==> u@[j] != '.',
            forall|a: int, b: int| 0 <= a < b < u.len() && u[a] == '.' ==> u[b] != '.',
        decreases u.len() - i,
    {
        if u[i] == '.' {
            proof {
                assert(u@[i as int] == '.');
                assert(u@.contains('.'));
                let k = u@.index_of('.');
                assert(u@[k] == '.');
                if k < i {
                    assert(u@[k] != '.');
                } else if k > i {
                    assert(u[i as int] == '.' && u[k] == '.');
                    assert(u[k] != '.');
                }
            }
            return i;
        }
        i = i + 1;
    }
    i
}

/// The mantissa digits (least significant first) and the scale of a
/// decimal text.
pub fn decimal_parts(value: &Vec<char>) -> (r: (Vec<u8>, usize))
    requires
        is_decimal_text(value@),
    ensures
        all_digits(r.0@),
        le_value(r.0@) == mantissa(value@),
        r.1 == scale(value@),
{
    let start: usize = if value.len() > 0 && value[0] == '-' { 1 } else { 0 };
    let mut u: Vec<char> = Vec::new();
    let mut i = start;
    while i < value.len()
        invariant
            start <= i <= value.len(),
            u@ == value@.subrange(start as int, i as int),
        decreases value.len() - i,
    {
        proof {
            assert(value@.subrange(start as int, i as int + 1) =~= u@.push(value@[i as int]));
        }
        u.push(value[i]);
        i = i + 1;
    }
    proof {
        assert(u@ =~= unsigned_text(value@));
    }
    let ghost us = u@;
    let p = point_index(&u);
    let mut digits: Vec<char> = Vec::new();
    let mut k: usize = 0;
    while k < u.len()
        invariant
            k <= u.len(),
            u@ == us,
            p <= u.len(),
            k <= p ==> digits@ == us.take(k as int),
            k > p ==> digits@ == us.take(p as int) + us.subrange(p as int + 1, k as int),
        decreases u.len() - k,
    {
        if k != p {
            proof {
                if k < p {
                    assert(us.take(k as int + 1) =~= digits@.push(us[k as int]));
                } else {
                    assert(us.take(p as int) + us.subrange(p as int + 1, k as int + 1) =~= digits@.push(us[k as int]));
                }
            }
            digits.push(u[k]);
        } else {
            proof {
                assert(us.take(p as int) + us.subrange(p as int + 1, k as int + 1) =~= digits@);
            }
        }
        k = k + 1;
    }
    let ghost full = int_digits(us) + frac_digits(us);
    proof {
        if p < u.len() {
            assert(digits@ =~= full);
        } else {
            assert(digits@ =~= us.take(p as int));
            assert(digits@ =~= full);
        }
        assert forall|j: int| 0 <= j < digits@.len() implies is_digit_char(digits@[j]) by {
            if p < u.len() {
                if j < p {
                    assert(digits@[j] == us[j]);
                } else {
                    assert(digits@[j] == us[j + 1]);
                    assert(us[j + 1] != '.');
                }
            } else {
                assert(digits@[j] == us[j]);
                assert(us[j] != '.');
            }
        }
    }
    let m = digits.len();
    let mut le: Vec<u8> = Vec::new();
    let mut t: usize = 0;
    while t < m
        invariant
            t <= m,
            m == digits.len(),
            forall|j: int| 0 <= j < m ==> is_digit_char(digits@[j]),
            le@ == le_digits_of(digits@).take(t as int),
        decreases m - t,
    {
        let c = digits[m - 1 - t];
        let d: u8 = ((c as u32) - ('0' as u32)) as u8;
        proof {
            assert(le_digits_of(digits@).take(t as int + 1) =~= le@.push(d));
        }
        le.push(d);
        t = t + 1;
    }
    proof {
        assert(le@ =~= le_digits_of(digits@));
        lemma_be_le(digits@);
    }
    let sc = if p < u.len() { u.len() - p - 1 } else { 0 };
    (le, sc)
}

/// `x` doubled `times` times.
fn double_times(x: &Vec<u8>, times: usize) -> (r: Vec<u8>)
    requires
        all_digits(x@),
    ensures
        all_digits(r@),
        le_value(r@) == le_value(x@) * pow_nat(2, times as nat),
{
    let mut v = x.clone();
    let mut i: usize = 0;
    proof {
        assert(pow_nat(2, 0) == 1);
        assert(le_value(x@) * 1 == le_value(x@));
    }
    while i < times
        invariant
            i <= times,
            all_digits(v@),
            le_value(v@) == le_value(x@) * pow_nat(2, i as nat),
        decreases times - i,
    {
        v = double(&v);
        proof {
            let a = le_value(x@);
            let p = pow_nat(2, i as nat);
            assert(pow_nat(2, (i + 1) as nat) == 2 * p);
            assert(2 * (a * p) == a * (2 * p)) by (nonlinear_arith);
        }
        i = i + 1;
    }
    v
}

/// Whether a decimal text reads as a zero double.
pub fn decimal_reads_as_zero(value: &Vec<char>) -> (r: bool)
    requires
        is_decimal_text(value@),
    ensures
        r == reads_as_zero(value@),
{
    let (m, k) = decimal_parts(value);
    let lhs = double_times(&m, 1075);
    let rhs = power_of_ten(k);
    value_le(&lhs, &rhs)
}

pub(crate) proof fn lemma_two_powers()
    ensures
        pow_nat(2, 54) == 18014398509481984,
        pow_nat(2, 48) == 281474976710656,
{
    reveal_with_fuel(pow_nat, 60);
}

/// The two bounds of the grind range, in the form the digit arithmetic
/// decides them.
proof fn lemma_grind_bounds(m: nat, pk: nat)
    ensures
        (m * pow_nat(2, 54) >= (pow_nat(2, 54) - 1) * pk) == (pk * 18014398509481983 <= m * pow_nat(2, 54)),
        (m * pow_nat(2, 48) <= (40 * pow_nat(2, 48) + 1) * pk) == (m * pow_nat(2, 48) <= pk * 11258999068426241),
{
    lemma_two_powers();
    assert((pow_nat(2, 54) - 1) * pk == pk * 18014398509481983) by (nonlinear_arith)
        requires
            pow_nat(2, 54) == 18014398509481984,
    ;
    assert((40 * pow_nat(2, 48) + 1) * pk == pk * 11258999068426241) by (nonlinear_arith)
        requires
            pow_nat(2, 48) == 281474976710656,
    ;
}

/// Whether a decimal text reads as a double within `[1, 40]`.
pub fn decimal_reads_as_grind_setting(value: &Vec<char>) -> (r: bool)
    requires
        is_decimal_text(value@),
    ensures
        r == reads_as_grind_setting(value@),
{
    if value[0] == '-' {
        return false;
    }
    let (m, k) = decimal_parts(value);
    proof {
        lemma_grind_bounds(le_value(m@), pow_nat(10, k as nat));
    }
    let low_lhs = double_times(&m, 54);
    let low_rhs = shift_up(&digits_from_u64(18014398509481983), k);
    let high_lhs = double_times(&m, 48);
    let high_rhs = shift_up(&digits_from_u64(11258999068426241), k);
    value_le(&low_rhs, &low_lhs) && value_le(&high_lhs, &high_rhs)
}

/// Fails unless `value` holds neither a tab nor a newline.
pub fn reject_tabs(field: &str, value: &str) -> (r: Result<(), AppError>)
    ensures
        r is Ok <==> !value@.contains('\t') && !value@.contains('\n'),
        r matches Err(e) ==> e.0@ == field@ + " cannot contain tabs or newlines"@,
{
    if contains_char(value, '\t') || contains_char(value, '\n') {
        return Err(AppError::new(concat(field, " cannot contain tabs or newlines")));
    }
    Ok(())
}

/// Fails unless `value` is a decimal number.
pub fn require_number(field: &str, value: &str) -> (r: Result<(), AppError>)
    ensures
        r is Ok <==> is_decimal_text(value@),
        r matches Err(e) ==> e.0@ == field@ + " must be numeric"@,
{
    if !is_number(value) {
        return Err(AppError::new(concat(field, " must be numeric")));
    }
    Ok(())
}

/// Fails with `message` unless `value` is a decimal number.
pub fn require_number_with_message(value: &str, message: &str) -> (r: Result<(), AppError>)
    ensures
        r is Ok <==> is_decimal_text(value@),
        r matches Err(e) ==> e.0@ == message@,
{
    if !is_number(value) {
        return Err(AppError::new(owned(message)));
    }
    Ok(())
}

/// Fails unless `value` is a number that reads as a grinder setting from 1
/// to 40.
pub fn require_grind_setting(value: &str) -> (r: Result<(), AppError>)
    ensures
        r is Ok <==> is_decimal_text(value@) && reads_as_grind_setting(value@),
        r matches Err(e) ==> e.0@ == (if is_decimal_text(value@) {
            "grind must be between 1 and 40"@
        } else {
            "grind"@ + " must be numeric"@
        }),
{
    require_number("grind", value)?;
    let c = chars_of(value);
    if !decimal_reads_as_grind_setting(&c) {
        return Err(AppError::new(owned("grind must be between 1 and 40")));
    }
    Ok(())
}

/// Every character is one of `'0'..='9'`.
pub open spec fn all_digit_chars(t: Seq<char>) -> bool {
    forall|i: int| 0 <= i < t.len() ==> is_digit_char(#[trigger] t[i])
}

/// The value `str::parse::<usize>` reads from the text: an optional `+`,
/// then one or more digits, with the value fitting in `usize`.
pub open spec fn usize_text_value(s: Seq<char>) -> Option<nat> {
    let t = if s.len() > 0 && s[0] == '+' {
        s.skip(1)
    } else {
        s
    };
    if t.len() > 0 && all_digit_chars(t) && be_value(t) <= usize::MAX {
        Some(be_value(t))
    } else {
        None
    }
}

/// A digit text is worth at least as much as any of its prefixes.
proof fn lemma_be_value_prefix(s: Seq<char>, k: int)
    requires
        0 <= k <= s.len(),
    ensures
        be_value(s) >= be_value(s.take(k)),
    decreases s.len(),
{
    if k < s.len() {
        lemma_be_value_prefix(s.drop_last(), k);
        assert(s.drop_last().take(k) =~= s.take(k));
    } else {
        assert(s.take(k) =~= s);
    }
}

/// Reads a `usize` as `str::parse` does.
pub fn parse_usize(value: &str) -> (r: Option<usize>)
    ensures
        r matches Some(v) ==> usize_text_value(value@) == Some(v as nat),
        r is None ==> usize_text_value(value@) is None,
{
    let c = chars_of(value);
    let start: usize = if c.len() > 0 && c[0] == '+' { 1 } else { 0 };
    let ghost t = if value@.len() > 0 && value@[0] == '+' {
        value@.skip(1)
    } else {
        value@
    };
    proof {
        assert(t =~= c@.skip(start as int));
    }
    if start == c.len() {
        return None;
    }
    let mut acc: usize = 0;
    let mut i = start;
    proof {
        assert(t.take(0) =~= Seq::<char>::empty());
    }
    while i < c.len()
        invariant
            start <= i <= c.len(),
            c@ == value@,
            t == (if value@.len() > 0 && value@[0] == '+' {
                value@.skip(1)
            } else {
                value@
            }),
            t.len() > 0,
            t == c@.skip(start as int),
            forall|j: int| 0 <= j < i - start ==> is_digit_char(t[j]),
            acc == be_value(t.take(i - start)),
        decreases c.len() - i,
    {
        let ch = c[i];
        proof {
            assert(t[i - start] == ch);
        }
        if !is_digit(ch) {
            proof {
                assert(!is_digit_char(t[i - start]));
                assert(!all_digit_chars(t));
            }
            return None;
        }
        let d: usize = ((ch as u32) - ('0' as u32)) as usize;
        let ghost next = t.take(i - start + 1);
        proof {
            assert(next.drop_last() =~= t.take(i - start));
            assert(next.last() == ch);
            assert(be_value(next) == acc * 10 + d);
        }
        if acc > (usize::MAX - d) / 10 {
            proof {
                assert(acc * 10 + d > usize::MAX) by (nonlinear_arith)
                    requires
                        acc > (usize::MAX - d) / 10,
                        d <= 9,
                ;
                lemma_be_value_prefix(t, i - start + 1);
                assert(be_value(t) > usize::MAX);
                assert(!(be_value(t) <= usize::MAX));
            }
            return None;
        }
        proof {
            assert(acc * 10 + d <= usize::MAX) by (nonlinear_arith)
                requires
                    acc <= (usize::MAX - d) / 10,
                    d <= 9,
            ;
        }
        acc = acc * 10 + d;
        i = i + 1;
    }
    proof {
        assert(t.take(i - start) =~= t);
    }
    Some(acc)
}

} // verus!
