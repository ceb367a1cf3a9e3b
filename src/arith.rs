//! Nonlinear arithmetic facts used by the pool calculations.

use vstd::arithmetic::div_mod::{
    lemma_div_by_multiple, lemma_div_is_ordered, lemma_div_is_ordered_by_denominator,
    lemma_fundamental_div_mod, lemma_mod_pos_bound,
};
use vstd::arithmetic::mul::{lemma_mul_inequality, lemma_mul_is_commutative};
use vstd::prelude::*;

verus! {

/// Ten to the power `d`.
pub open spec fn pow10(d: nat) -> int
    decreases d,
{
    if d == 0 {
        1
    } else {
        10 * pow10((d - 1) as nat)
    }
}

/// Powers of ten are positive and grow with the exponent.
pub proof fn lemma_pow10_grows(i: nat, j: nat)
    requires
        i <= j,
    ensures
        1 <= pow10(i) <= pow10(j),
    decreases j,
{
    if j > i {
        lemma_pow10_grows(i, (j - 1) as nat);
    } else if i > 0 {
        lemma_pow10_grows((i - 1) as nat, (i - 1) as nat);
    }
}

/// A product of two bounded non-negative factors is bounded by the product of the bounds.
pub proof fn lemma_mul_le(a: int, b: int, ma: int, mb: int)
    requires
        0 <= a <= ma,
        0 <= b <= mb,
    ensures
        0 <= a * b <= ma * mb,
{
    assert(0 <= a * b <= ma * mb) by (nonlinear_arith)
        requires
            0 <= a <= ma,
            0 <= b <= mb,
    ;
}

/// Scaling `a` by `b / d` with `b >= d` does not make it smaller.
pub proof fn lemma_scale_ge(a: int, b: int, d: int)
    requires
        0 <= a,
        0 < d <= b,
    ensures
        a * b / d >= a,
        b * a / d >= a,
{
    lemma_mul_inequality(d, b, a);
    lemma_mul_is_commutative(a, b);
    lemma_mul_is_commutative(a, d);
    lemma_div_by_multiple(a, d);
    lemma_div_is_ordered(a * d, a * b, d);
}

/// Scaling `a` by `b / d` with `b <= d` does not make it larger.
pub proof fn lemma_scale_le(a: int, b: int, d: int)
    requires
        0 <= a,
        0 <= b <= d,
        0 < d,
    ensures
        0 <= a * b / d <= a,
        0 <= b * a / d <= a,
{
    lemma_mul_inequality(b, d, a);
    lemma_mul_is_commutative(a, b);
    lemma_mul_is_commutative(a, d);
    lemma_div_by_multiple(a, d);
    lemma_div_is_ordered(a * b, a * d, d);
    lemma_mul_le(a, b, a, d);
    lemma_div_is_ordered(0, a * b, d);
}

/// Dividing `a * b` by something at least `b` leaves at most `a`.
pub proof fn lemma_div_larger(a: int, b: int, c: int)
    requires
        0 <= a,
        0 < b <= c,
    ensures
        0 <= a * b / c <= a,
{
    lemma_mul_le(a, b, a, b);
    lemma_div_is_ordered_by_denominator(a * b, b, c);
    lemma_div_by_multiple(a, b);
    lemma_div_is_ordered(0, a * b, c);
}

/// Floor division brackets its dividend: `q * d <= a < q * d + d` for `q = a / d`.
pub proof fn lemma_div_bounds(a: int, d: int)
    requires
        0 <= a,
        0 < d,
    ensures
        (a / d) * d <= a < (a / d) * d + d,
        a - (a / d) * d == a % d,
        0 <= a / d,
{
    lemma_fundamental_div_mod(a, d);
    lemma_mod_pos_bound(a, d);
    lemma_mul_is_commutative(d, a / d);
    lemma_div_is_ordered(0, a, d);
}

/// Scaling `x` up by `(t + n) / t` and back down by `t / (t + n)`, each factor
/// held to precision `p` and each step rounded down, never ends above `x`, and
/// ends short of it by less than `(x + x1) / p + 2`, where `x1` is the value
/// in between.
pub proof fn lemma_scale_round_trip(x: int, t: int, n: int, p: int)
    requires
        0 <= x,
        0 < t,
        0 <= n,
        0 < p,
    ensures
        ({
            let r = (t + n) * p / t;
            let x1 = x * r / p;
            let r2 = t * p / (t + n);
            let x2 = x1 * r2 / p;
            &&& 0 <= x2 <= x
            &&& (x - x2) * p < x + x1 + 2 * p
        }),
{
    let u = t + n;
    let r = u * p / t;
    lemma_mul_le(u, p, u, p);
    lemma_div_bounds(u * p, t);
    let x1 = x * r / p;
    lemma_mul_le(x, r, x, r);
    lemma_div_bounds(x * r, p);
    let r2 = t * p / u;
    lemma_mul_le(t, p, t, p);
    lemma_div_bounds(t * p, u);
    let x2 = x1 * r2 / p;
    lemma_mul_le(x1, r2, x1, r2);
    lemma_div_bounds(x1 * r2, p);

    // upper bound: x2 * u <= x1 * t <= x * u
    assert(x2 * u <= x1 * t) by (nonlinear_arith)
        requires
            x2 * p <= x1 * r2,
            r2 * u <= t * p,
            0 <= x1,
            0 <= x2,
            0 < p,
            0 < u,
    ;
    assert(x1 * t <= x * u) by (nonlinear_arith)
        requires
            x1 * p <= x * r,
            r * t <= u * p,
            0 <= x,
            0 < p,
            0 < t,
    ;
    assert(x2 <= x) by (nonlinear_arith)
        requires
            x2 * u <= x * u,
            0 < u,
    ;

    // lower bound
    assert(x2 * p * u > x1 * t * p - x1 * u - p * u) by (nonlinear_arith)
        requires
            x2 * p > x1 * r2 - p,
            r2 * u > t * p - u,
            0 <= x1,
            0 < u,
            0 < p,
    ;
    assert(x1 * t * p > x * u * p - x * t - p * t) by (nonlinear_arith)
        requires
            x1 * p > x * r - p,
            r * t > u * p - t,
            0 <= x,
            0 < t,
            0 < p,
    ;
    assert((x - x2) * p < x + x1 + 2 * p) by (nonlinear_arith)
        requires
            x2 * p * u > x1 * t * p - x1 * u - p * u,
            x1 * t * p > x * u * p - x * t - p * t,
            0 <= x,
            0 <= x1,
            0 < t <= u,
            0 < p,
    ;
}

} // verus!
