//! Time bases and the conversion of timestamps between them.
//!
//! A time base is the positive rational number of seconds that one timestamp
//! unit lasts. Converting a timestamp from one base to another keeps the
//! instant it denotes and rounds to the nearest unit of the target base, a
//! tie going to the even neighbour.

use vstd::prelude::*;
use crate::error::{Error, ErrorKind};
use vstd::arithmetic::div_mod::lemma_fundamental_div_mod;
use vstd::arithmetic::div_mod::lemma_div_is_ordered;
use vstd::arithmetic::div_mod::lemma_fundamental_div_mod_converse;

verus! {

/// The mathematical value of a time base: one unit lasts `num / den` seconds.
pub struct Ratio {
    pub num: int,
    pub den: int,
}

impl Ratio {
    /// Both parts are strictly positive.
    pub open spec fn positive(self) -> bool {
        self.num > 0 && self.den > 0
    }

    /// `self` and `other` denote the same duration.
    pub open spec fn same_as(self, other: Ratio) -> bool {
        self.num * other.den == self.den * other.num
    }

    /// One unit of `self` lasts at least as long as one unit of `other`.
    pub open spec fn at_least(self, other: Ratio) -> bool {
        self.num * other.den >= self.den * other.num
    }
}

/// The integer nearest to `n / d`; of two equally near integers, the even one.
pub open spec fn round_half_even(n: int, d: int) -> int
    recommends
        d > 0,
{
    let q = n / d;
    let r = n % d;
    if 2 * r < d || (2 * r == d && q % 2 == 0) {
        q
    } else {
        q + 1
    }
}

/// The timestamp `t`, counted in units of `from`, expressed in units of `to`.
pub open spec fn rescaled(t: int, from: Ratio, to: Ratio) -> int
    recommends
        from.positive(),
        to.positive(),
{
    round_half_even(t * (from.num * to.den), from.den * to.num)
}

/// `v` as a 64-bit timestamp, where it is one.
pub open spec fn as_timestamp(v: int) -> Option<i64> {
    if i64::MIN <= v <= i64::MAX {
        Some(v as i64)
    } else {
        None
    }
}

/// An optional timestamp carried from `from` to `to`: absent when it was
/// absent, or when the converted value is no 64-bit timestamp.
pub open spec fn rescaled_ts(pts: Option<i64>, from: Ratio, to: Ratio) -> Option<i64> {
    match pts {
        Some(t) => as_timestamp(rescaled(t as int, from, to)),
        None => None,
    }
}

/// A time base: a positive rational number of seconds per timestamp unit.
#[derive(Clone, Copy, Debug)]
pub struct TimeBase {
    num: i32,
    den: i32,
}

impl View for TimeBase {
    type V = Ratio;

    closed spec fn view(&self) -> Ratio {
        Ratio { num: self.num as int, den: self.den as int }
    }
}

impl TimeBase {
    /// Every time base is positive.
    #[verifier::type_invariant]
    pub open spec fn valid(self) -> bool {
        self@.positive()
    }

    /// The time base `num / den`, where both are strictly positive.
    pub fn new(num: i32, den: i32) -> (r: Option<TimeBase>)
        ensures
            r.is_some() <==> (num > 0 && den > 0),
            r matches Some(tb) ==> tb@ == (Ratio { num: num as int, den: den as int }),
    {
        if num > 0 && den > 0 {
            Some(TimeBase { num, den })
        } else {
            None
        }
    }

    /// The time base `num / den` that a stage of the pipeline reports. One
    /// that is not positive is a failure of that stage.
    pub fn reported(num: i32, den: i32, stage: ErrorKind) -> (r: Result<TimeBase, Error>)
        ensures
            r.is_ok() <==> (num > 0 && den > 0),
            r matches Ok(tb) ==> tb@ == (Ratio { num: num as int, den: den as int }),
            r matches Err(e) ==> e.kind == stage && e.cause@ == "the time base is not positive"@,
    {
        match TimeBase::new(num, den) {
            Some(tb) => Ok(tb),
            None => Err(Error::new(stage, "the time base is not positive")),
        }
    }

    /// The numerator.
    pub fn num(&self) -> (n: i32)
        ensures
            n == self@.num,
            n > 0,
            self@.positive(),
    {
        proof {
            use_type_invariant(self);
        }
        self.num
    }

    /// The denominator.
    pub fn den(&self) -> (d: i32)
        ensures
            d == self@.den,
            d > 0,
            self@.positive(),
    {
        proof {
            use_type_invariant(self);
        }
        self.den
    }

    /// Whether both time bases denote the same duration.
    pub fn same_as(&self, other: &TimeBase) -> (b: bool)
        ensures
            b == self@.same_as(other@),
    {
        proof {
            use_type_invariant(self);
            use_type_invariant(other);
        }
        let left: i64 = product(self.num, other.den);
        let right: i64 = product(self.den, other.num);
        left == right
    }
}

/// The product of two positive 32-bit numbers.
fn product(a: i32, b: i32) -> (p: i64)
    requires
        a > 0,
        b > 0,
    ensures
        p == a * b,
        0 < p < 0x4000_0000_0000_0000,
{
    assert(0 < a * b < 0x4000_0000_0000_0000) by (nonlinear_arith)
        requires
            0 < a < 0x8000_0000,
            0 < b < 0x8000_0000,
    ;
    (a as i64) * (b as i64)
}

/// Converts the timestamp `t` from units of `from` to units of `to`.
///
/// The result is absent exactly when the converted value does not fit in 64
/// bits.
pub fn rescale(t: i64, from: &TimeBase, to: &TimeBase) -> (r: Option<i64>)
    ensures
        r == as_timestamp(rescaled(t as int, from@, to@)),
{
    let p: u128 = product(from.num(), to.den()) as u128;
    let q: u128 = product(from.den(), to.num()) as u128;
    let negative: bool = t < 0;
    let mag: u128 = if negative {
        (-(t as i128)) as u128
    } else {
        t as u128
    };
    assert(mag * p <= 0x8000_0000_0000_0000 * 0x4000_0000_0000_0000) by (nonlinear_arith)
        requires
            mag <= 0x8000_0000_0000_0000,
            p < 0x4000_0000_0000_0000,
    ;
    let n: u128 = mag * p;
    let floor: u128 = n / q;
    let rest: u128 = n % q;
    let up: bool = 2 * rest > q || (2 * rest == q && floor % 2 == 1);
    let m: u128 = if up {
        floor + 1
    } else {
        floor
    };
    proof {
        lemma_fundamental_div_mod(n as int, q as int);
        assert(floor <= n) by (nonlinear_arith)
            requires
                n == q * floor + rest,
                q > 0,
                floor >= 0,
                rest >= 0,
        ;
        assert(m == round_half_even(n as int, q as int));
        if negative {
            assert(t * (from@.num * to@.den) == -(n as int)) by (nonlinear_arith)
                requires
                    mag == -(t as int),
                    n == mag * p,
                    p == from@.num * to@.den,
            ;
            lemma_round_negated(n as int, q as int);
        } else {
            assert(t * (from@.num * to@.den) == n as int) by (nonlinear_arith)
                requires
                    mag == t as int,
                    n == mag * p,
                    p == from@.num * to@.den,
            ;
        }
    }
    if negative {
        if m <= 0x8000_0000_0000_0000 {
            Some((-(m as i128)) as i64)
        } else {
            None
        }
    } else {
        if m <= 0x7fff_ffff_ffff_ffff {
            Some(m as i64)
        } else {
            None
        }
    }
}

/// Converts an optional timestamp from units of `from` to units of `to`.
///
/// A missing timestamp stays missing; one whose converted value does not fit
/// in 64 bits becomes missing.
pub fn rescale_ts(pts: Option<i64>, from: &TimeBase, to: &TimeBase) -> (r: Option<i64>)
    ensures
        r == rescaled_ts(pts, from@, to@),
{
    match pts {
        Some(t) => rescale(t, from, to),
        None => None,
    }
}

/// The rounded quotient lies within half a unit of the exact quotient.
pub proof fn lemma_round_is_nearest(n: int, d: int)
    requires
        d > 0,
    ensures
        2 * (round_half_even(n, d) * d - n) <= d,
        2 * (n - round_half_even(n, d) * d) <= d,
{
    let q = n / d;
    let r = n % d;
    lemma_fundamental_div_mod(n, d);
    assert(n == d * q + r);
    assert((q + 1) * d == d * q + d) by (nonlinear_arith);
    assert(q * d == d * q) by (nonlinear_arith);
}

/// An integer strictly within half a unit of the exact quotient is the
/// rounded quotient.
pub proof fn lemma_round_unique(n: int, d: int, k: int)
    requires
        d > 0,
        2 * (k * d - n) < d,
        2 * (n - k * d) < d,
    ensures
        round_half_even(n, d) == k,
{
    let y = round_half_even(n, d);
    lemma_round_is_nearest(n, d);
    assert(y == k) by (nonlinear_arith)
        requires
            d > 0,
            2 * (k * d - n) < d,
            2 * (n - k * d) < d,
            2 * (y * d - n) <= d,
            2 * (n - y * d) <= d,
    ;
}

/// An exact quotient is its own rounding.
pub proof fn lemma_round_exact(k: int, d: int)
    requires
        d > 0,
    ensures
        round_half_even(k * d, d) == k,
{
    lemma_round_unique(k * d, d, k);
}

/// Rounding is symmetric about zero.
pub proof fn lemma_round_negated(n: int, d: int)
    requires
        d > 0,
    ensures
        round_half_even(-n, d) == -round_half_even(n, d),
{
    let q = n / d;
    let r = n % d;
    lemma_fundamental_div_mod(n, d);
    assert(n == d * q + r);
    if r == 0 {
        assert(-n == (-q) * d + 0) by (nonlinear_arith)
            requires
                n == d * q + r,
                r == 0,
        ;
        lemma_fundamental_div_mod_converse(-n, d, -q, 0);
    } else {
        assert(-n == (-q - 1) * d + (d - r)) by (nonlinear_arith)
            requires
                n == d * q + r,
        ;
        lemma_fundamental_div_mod_converse(-n, d, -q - 1, d - r);
        assert((-q - 1) % 2 == 0 <==> q % 2 != 0);
    }
}

/// Rounding keeps the order of the numerators.
pub proof fn lemma_round_monotonic(n1: int, n2: int, d: int)
    requires
        d > 0,
        n1 <= n2,
    ensures
        round_half_even(n1, d) <= round_half_even(n2, d),
{
    let q1 = n1 / d;
    let q2 = n2 / d;
    let r1 = n1 % d;
    let r2 = n2 % d;
    lemma_fundamental_div_mod(n1, d);
    lemma_fundamental_div_mod(n2, d);
    lemma_div_is_ordered(n1, n2, d);
    if q1 == q2 {
        assert(r1 <= r2);
    }
}

/// Converting keeps the order of timestamps: of two timestamps in one base,
/// the later one is not earlier in any other base.
pub proof fn lemma_rescale_monotonic(t1: int, t2: int, from: Ratio, to: Ratio)
    requires
        from.positive(),
        to.positive(),
        t1 <= t2,
    ensures
        rescaled(t1, from, to) <= rescaled(t2, from, to),
{
    let p = from.num * to.den;
    let q = from.den * to.num;
    assert(p > 0 && q > 0) by (nonlinear_arith)
        requires
            from.num > 0,
            from.den > 0,
            to.num > 0,
            to.den > 0,
            p == from.num * to.den,
            q == from.den * to.num,
    ;
    assert(t1 * p <= t2 * p) by (nonlinear_arith)
        requires
            t1 <= t2,
            p > 0,
    ;
    lemma_round_monotonic(t1 * p, t2 * p, q);
}

/// Converting between two bases of the same duration changes nothing; in
/// particular a timestamp converted to the base it is already in stays as it
/// is, however often that is repeated.
pub proof fn lemma_rescale_same_base(t: int, from: Ratio, to: Ratio)
    requires
        from.positive(),
        to.positive(),
        from.same_as(to),
    ensures
        rescaled(t, from, to) == t,
{
    let p = from.num * to.den;
    assert(p > 0) by (nonlinear_arith)
        requires
            from.num > 0,
            to.den > 0,
            p == from.num * to.den,
    ;
    lemma_round_exact(t, p);
}

/// There and back: converting a timestamp to another base and back moves it
/// by no more than half a unit plus half the length of a unit of the other
/// base, counted in units of its own base.
pub proof fn lemma_round_trip_bound(t: int, a: Ratio, b: Ratio)
    requires
        a.positive(),
        b.positive(),
    ensures
        ({
            let back = rescaled(rescaled(t, a, b), b, a);
            let p = a.num * b.den;
            let q = a.den * b.num;
            &&& 2 * p * (back - t) <= p + q
            &&& 2 * p * (t - back) <= p + q
        }),
{
    let p = a.num * b.den;
    let q = a.den * b.num;
    lemma_cross_products(a, b);
    let there = rescaled(t, a, b);
    assert(there == round_half_even(t * p, q));
    let back = rescaled(there, b, a);
    assert(back == round_half_even(there * q, p));
    lemma_round_is_nearest(t * p, q);
    lemma_round_is_nearest(there * q, p);
    assert(2 * p * (back - t) <= p + q && 2 * p * (t - back) <= p + q) by (nonlinear_arith)
        requires
            2 * (there * q - t * p) <= q,
            2 * (t * p - there * q) <= q,
            2 * (back * p - there * q) <= p,
            2 * (there * q - back * p) <= p,
    ;
}

/// There and back is exact when the other base is at least as fine: a unit
/// of `a` lasts at least as long as a unit of `b`. This holds in particular
/// when a unit of `a` is a whole number of units of `b`.
pub proof fn lemma_round_trip_exact(t: int, a: Ratio, b: Ratio)
    requires
        a.positive(),
        b.positive(),
        a.at_least(b),
    ensures
        rescaled(rescaled(t, a, b), b, a) == t,
{
    let p = a.num * b.den;
    let q = a.den * b.num;
    lemma_cross_products(a, b);
    let there = rescaled(t, a, b);
    assert(there == round_half_even(t * p, q));
    assert(rescaled(there, b, a) == round_half_even(there * q, p));
    if p == q {
        lemma_round_exact(t, p);
        assert(there == t);
    } else {
        lemma_round_is_nearest(t * p, q);
        lemma_round_unique(there * q, p, t);
    }
}

/// There and back is exact when a unit of `a` is `k` whole units of `b`.
pub proof fn lemma_round_trip_exact_for_multiples(t: int, a: Ratio, b: Ratio, k: int)
    requires
        a.positive(),
        b.positive(),
        k >= 1,
        a.num * b.den == k * (a.den * b.num),
    ensures
        rescaled(rescaled(t, a, b), b, a) == t,
{
    lemma_cross_products(a, b);
    assert(k * (a.den * b.num) >= a.den * b.num) by (nonlinear_arith)
        requires
            k >= 1,
            a.den * b.num > 0,
    ;
    lemma_round_trip_exact(t, a, b);
}

/// There and back is exact whenever the way there lost nothing: the
/// timestamp denotes a whole number of units of the other base.
pub proof fn lemma_round_trip_exact_on_whole_units(t: int, a: Ratio, b: Ratio)
    requires
        a.positive(),
        b.positive(),
        (t * (a.num * b.den)) % (a.den * b.num) == 0,
    ensures
        rescaled(rescaled(t, a, b), b, a) == t,
{
    let p = a.num * b.den;
    let q = a.den * b.num;
    lemma_cross_products(a, b);
    let k = (t * p) / q;
    lemma_fundamental_div_mod(t * p, q);
    assert(t * p == k * q) by (nonlinear_arith)
        requires
            t * p == q * k + 0,
    ;
    lemma_round_exact(k, q);
    assert(rescaled(t, a, b) == k);
    assert(rescaled(k, b, a) == round_half_even(k * q, p));
    lemma_round_exact(t, p);
}

/// There and back moves a timestamp by at most one unit when the other base
/// is at least as fine.
pub proof fn lemma_round_trip_within_one(t: int, a: Ratio, b: Ratio)
    requires
        a.positive(),
        b.positive(),
        a.at_least(b),
    ensures
        t - 1 <= rescaled(rescaled(t, a, b), b, a) <= t + 1,
{
    lemma_round_trip_exact(t, a, b);
}

/// The cross products that `rescaled` works with are positive, and those of
/// the way back are those of the way there, swapped.
proof fn lemma_cross_products(a: Ratio, b: Ratio)
    requires
        a.positive(),
        b.positive(),
    ensures
        a.num * b.den > 0,
        a.den * b.num > 0,
        b.num * a.den == a.den * b.num,
        b.den * a.num == a.num * b.den,
{
    assert(a.num * b.den > 0 && a.den * b.num > 0 && b.num * a.den == a.den * b.num && b.den
        * a.num == a.num * b.den) by (nonlinear_arith)
        requires
            a.num > 0,
            a.den > 0,
            b.num > 0,
            b.den > 0,
    ;
}

} // verus!
