//! Rational time bases and exact conversion of timestamps between them.
use vstd::prelude::*;
use vstd::arithmetic::div_mod::{lemma_mod_pos_bound, lemma_div_is_ordered, lemma_div_pos_is_pos, lemma_fundamental_div_mod};
use vstd::arithmetic::mul::{lemma_mul_is_commutative, lemma_mul_is_associative, lemma_mul_is_distributive_sub_other_way, lemma_mul_inequality, lemma_mul_strictly_positive};

verus! {

/// A time base: one timestamp tick lasts `num / den` seconds.
#[derive(Clone, Copy, Debug, PartialEq, Eq, Structural)]
pub struct Rational {
    pub num: i32,
    pub den: i32,
}

/// Both parts of the time base are positive.
pub open spec fn positive(q: Rational) -> bool {
    q.num > 0 && q.den > 0
}

pub open spec fn abs(x: int) -> int {
    if x < 0 { -x } else { x }
}

/// `n / d` rounded to the nearest integer, halves away from zero.
pub open spec fn round_div(n: int, d: int) -> int {
    if n >= 0 {
        (n + d / 2) / d
    } else {
        -((-n + d / 2) / d)
    }
}

/// The exact value of `a` ticks of `b` counted in ticks of `c`, rounded to the nearest tick.
pub open spec fn rescaled(a: int, b: Rational, c: Rational) -> int {
    round_div(a * b.num * c.den, c.num * b.den)
}

pub open spec fn fits_i64(x: int) -> bool {
    i64::MIN <= x <= i64::MAX
}

/// Converts `a` ticks of time base `b` into ticks of time base `c`, rounding to
/// the nearest tick (halves away from zero) with exact integer arithmetic.
/// Gives `None` when a time base is not positive or the result leaves `i64`.
pub fn rescale_q(a: i64, b: Rational, c: Rational) -> (r: Option<i64>)
    ensures
        r == if positive(b) && positive(c) && fits_i64(rescaled(a as int, b, c)) {
            Some(rescaled(a as int, b, c) as i64)
        } else {
            None::<i64>
        },
{
    if b.num <= 0 || b.den <= 0 || c.num <= 0 || c.den <= 0 {
        return None;
    }
    let neg: bool = a < 0;
    let mag: u128 = if neg { (-(a as i128)) as u128 } else { a as u128 };
    let bn: u128 = b.num as u128;
    let cd: u128 = c.den as u128;
    let cn: u128 = c.num as u128;
    let bd: u128 = b.den as u128;
    assert(mag * bn <= 0x8000_0000_0000_0000 * 0x8000_0000 && mag * bn * cd
        <= 0x8000_0000_0000_0000 * 0x8000_0000 * 0x8000_0000) by (nonlinear_arith)
        requires
            mag <= 0x8000_0000_0000_0000,
            bn <= 0x8000_0000,
            cd <= 0x8000_0000,
    ;
    assert(0 < cn * bd <= 0x8000_0000 * 0x8000_0000) by (nonlinear_arith)
        requires
            0 < cn <= 0x8000_0000,
            0 < bd <= 0x8000_0000,
    ;
    let d: u128 = cn * bd;
    let mb: u128 = mag * bn;
    let n: u128 = mb * cd;
    let q: u128 = (n + d / 2) / d;
    proof {
        let ai = a as int;
        let ni = ai * b.num * c.den;
        assert(d as int == c.num * b.den);
        if neg {
            assert(ni == -(mag * bn * cd) && mag * bn * cd > 0) by (nonlinear_arith)
                requires
                    ni == ai * b.num * c.den,
                    mag == -ai,
                    mag > 0,
                    bn == b.num,
                    cd == c.den,
                    bn > 0,
                    cd > 0,
            ;
            assert(rescaled(ai, b, c) == -(q as int));
        } else {
            assert(ni == mag * bn * cd) by (nonlinear_arith)
                requires
                    ni == ai * b.num * c.den,
                    mag == ai,
                    bn == b.num,
                    cd == c.den,
            ;
            assert(ni >= 0);
            assert(rescaled(ai, b, c) == q as int);
        }
    }
    if neg {
        if q > 0x8000_0000_0000_0000 {
            None
        } else {
            Some((-(q as i128)) as i64)
        }
    } else {
        if q > 0x7fff_ffff_ffff_ffff {
            None
        } else {
            Some(q as i64)
        }
    }
}

/// The rounded quotient lies within half a unit of the exact one.
pub proof fn lemma_round_div_close(n: int, d: int)
    requires
        d > 0,
    ensures
        2 * abs(round_div(n, d) * d - n) <= d,
{
    lemma_fundamental_div_mod(d, 2);
    lemma_mod_pos_bound(d, 2);
    let m = if n >= 0 { n + d / 2 } else { -n + d / 2 };
    lemma_fundamental_div_mod(m, d);
    lemma_mod_pos_bound(m, d);
    let q = m / d;
    lemma_mul_is_commutative(d, q);
    if n < 0 {
        assert(round_div(n, d) * d == -(q * d)) by (nonlinear_arith)
            requires
                round_div(n, d) == -q,
        ;
    }
}

/// No time at all is no time in any time base.
pub proof fn lemma_rescaled_zero(b: Rational, c: Rational)
    requires
        positive(b),
        positive(c),
    ensures
        rescaled(0, b, c) == 0,
{
    lemma_mul_strictly_positive(c.num as int, b.den as int);
    let d = c.num * b.den;
    assert(0 * b.num * c.den == 0);
    vstd::arithmetic::div_mod::lemma_basic_div(d / 2, d);
}

/// Rounding the quotient keeps the order of the numerators.
pub proof fn lemma_round_div_monotonic(n1: int, n2: int, d: int)
    requires
        d > 0,
        n1 <= n2,
    ensures
        round_div(n1, d) <= round_div(n2, d),
{
    if n1 >= 0 {
        lemma_div_is_ordered(n1 + d / 2, n2 + d / 2, d);
    } else if n2 < 0 {
        lemma_div_is_ordered(-n2 + d / 2, -n1 + d / 2, d);
    } else {
        lemma_div_pos_is_pos(-n1 + d / 2, d);
        lemma_div_pos_is_pos(n2 + d / 2, d);
    }
}

/// Converting timestamps between two positive time bases never reverses their order.
pub proof fn lemma_rescale_monotonic(a1: int, a2: int, b: Rational, c: Rational)
    requires
        positive(b),
        positive(c),
        a1 <= a2,
    ensures
        rescaled(a1, b, c) <= rescaled(a2, b, c),
{
    let k = b.num * c.den;
    lemma_mul_strictly_positive(b.num as int, c.den as int);
    lemma_mul_strictly_positive(c.num as int, b.den as int);
    lemma_mul_inequality(a1, a2, k);
    lemma_mul_is_associative(a1, b.num as int, c.den as int);
    lemma_mul_is_associative(a2, b.num as int, c.den as int);
    lemma_round_div_monotonic(a1 * b.num * c.den, a2 * b.num * c.den, c.num * b.den);
}

/// A converted timestamp is the exact rational value to within half a tick of
/// the target time base.
pub proof fn lemma_rescale_close(a: int, b: Rational, c: Rational)
    requires
        positive(b),
        positive(c),
    ensures
        2 * abs(rescaled(a, b, c) * (c.num * b.den) - a * b.num * c.den) <= c.num * b.den,
{
    lemma_mul_strictly_positive(c.num as int, b.den as int);
    lemma_round_div_close(a * b.num * c.den, c.num * b.den);
}

/// Converting a timestamp from `b` to `c` and back to `b` lands within the
/// rounding of both steps: `2 * |back - a| * (b.num * c.den)` is at most
/// `c.num * b.den + b.num * c.den`. When `c` is at least as fine as `b` this
/// gives `a` back exactly.
pub proof fn lemma_rescale_round_trip(a: int, b: Rational, c: Rational)
    requires
        positive(b),
        positive(c),
    ensures
        2 * abs(rescaled(rescaled(a, b, c), c, b) - a) * (b.num * c.den) <= c.num * b.den + b.num
            * c.den,
{
    let d1 = c.num * b.den;
    let d2 = b.num * c.den;
    let y = rescaled(a, b, c);
    let z = rescaled(y, c, b);
    lemma_mul_strictly_positive(c.num as int, b.den as int);
    lemma_mul_strictly_positive(b.num as int, c.den as int);
    lemma_rescale_close(a, b, c);
    lemma_rescale_close(y, c, b);
    lemma_mul_is_associative(a, b.num as int, c.den as int);
    lemma_mul_is_associative(y, c.num as int, b.den as int);
    lemma_mul_is_distributive_sub_other_way(d2, z, a);
    assert(y * c.num * b.den == y * d1);
    assert(a * b.num * c.den == a * d2);
    assert(2 * abs(z * d2 - a * d2) <= d1 + d2);
    lemma_mul_is_associative(2, abs(z - a), d2);
    assert(abs(z - a) * d2 == abs(z * d2 - a * d2)) by (nonlinear_arith)
        requires
            (z - a) * d2 == z * d2 - a * d2,
            d2 > 0,
    ;
}

/// Timestamps converted from `b` to `c` and back keep their order.
pub proof fn lemma_round_trip_monotonic(a1: int, a2: int, b: Rational, c: Rational)
    requires
        positive(b),
        positive(c),
        a1 <= a2,
    ensures
        rescaled(rescaled(a1, b, c), c, b) <= rescaled(rescaled(a2, b, c), c, b),
{
    lemma_rescale_monotonic(a1, a2, b, c);
    lemma_rescale_monotonic(rescaled(a1, b, c), rescaled(a2, b, c), c, b);
}

} // verus!
