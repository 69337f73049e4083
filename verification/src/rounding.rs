//! Facts about rounded division and rounded square roots, on which the
//! error bounds of the scalar operations rest.

use crate::scalar::abs;
use crate::scalar::lemma_sqrt_floor_exists;
use crate::scalar::round_quotient;
use crate::scalar::sqrt_floor;
use crate::scalar::sqrt_nearest;
use vstd::arithmetic::div_mod::lemma_div_is_ordered;
use vstd::arithmetic::div_mod::lemma_fundamental_div_mod;
use vstd::arithmetic::div_mod::lemma_fundamental_div_mod_converse;
use vstd::arithmetic::div_mod::lemma_mod_pos_bound;
use vstd::prelude::*;

verus! {

/// For a non-negative numerator and a positive denominator, rounding to the
/// nearest is rounding down after adding half the denominator.
pub proof fn lemma_round_quotient_as_floor(n: int, d: int)
    requires
        0 <= n,
        0 < d,
    ensures
        round_quotient(n, d) == (2 * n + d) / (2 * d),
{
    let q = n / d;
    let r = n % d;
    lemma_fundamental_div_mod(n, d);
    lemma_mod_pos_bound(n, d);
    assert(2 * (d * q) == (2 * d) * q) by (nonlinear_arith);
    if 2 * r >= d {
        assert((2 * d) * (q + 1) == (2 * d) * q + 2 * d) by (nonlinear_arith);
        lemma_fundamental_div_mod_converse(2 * n + d, 2 * d, q + 1, 2 * r - d);
    } else {
        lemma_fundamental_div_mod_converse(2 * n + d, 2 * d, q, 2 * r + d);
    }
}

/// The rounded quotient has the sign of the exact one, or is zero.
pub proof fn lemma_round_quotient_sign(n: int, d: int)
    requires
        0 < d,
    ensures
        n >= 0 ==> round_quotient(n, d) >= 0,
        n <= 0 ==> round_quotient(n, d) <= 0,
        round_quotient(-n, d) == -round_quotient(n, d),
{
    lemma_round_quotient_as_floor(abs(n), d);
    vstd::arithmetic::div_mod::lemma_div_pos_is_pos(2 * abs(n) + d, 2 * d);
    if n == 0 {
        vstd::arithmetic::div_mod::lemma_basic_div(d, 2 * d);
    }
}

/// Rounded division by a positive number keeps the order of numerators.
pub proof fn lemma_round_quotient_monotone(n1: int, n2: int, d: int)
    requires
        n1 <= n2,
        0 < d,
    ensures
        round_quotient(n1, d) <= round_quotient(n2, d),
{
    lemma_round_quotient_sign(n1, d);
    lemma_round_quotient_sign(n2, d);
    if 0 <= n1 {
        lemma_round_quotient_as_floor(n1, d);
        lemma_round_quotient_as_floor(n2, d);
        lemma_div_is_ordered(2 * n1 + d, 2 * n2 + d, 2 * d);
    } else if n2 < 0 {
        lemma_round_quotient_as_floor(-n1, d);
        lemma_round_quotient_as_floor(-n2, d);
        lemma_div_is_ordered(2 * (-n2) + d, 2 * (-n1) + d, 2 * d);
    }
}

/// A multiple of the denominator is divided without rounding.
pub proof fn lemma_round_quotient_exact(k: int, d: int)
    requires
        0 < d,
    ensures
        round_quotient(k * d, d) == k,
{
    let n = abs(k);
    assert(abs(k * d) == n * d) by (nonlinear_arith)
        requires
            n == abs(k),
            0 < d,
    ;
    assert(n * d == d * n) by (nonlinear_arith);
    vstd::arithmetic::div_mod::lemma_div_multiples_vanish(n, d);
    vstd::arithmetic::div_mod::lemma_mod_multiples_basic(n, d);
    assert((k * d < 0) == (k < 0)) by (nonlinear_arith)
        requires
            0 < d,
    ;
}

/// The rounded quotient times the denominator misses the numerator by at
/// most half the denominator.
pub proof fn lemma_round_quotient_error(n: int, d: int)
    requires
        d != 0,
    ensures
        2 * abs(round_quotient(n, d) * d - n) <= abs(d),
{
    let an = abs(n);
    let ad = abs(d);
    let q = an / ad;
    let r = an % ad;
    lemma_fundamental_div_mod(an, ad);
    lemma_mod_pos_bound(an, ad);
    let m = if 2 * r >= ad {
        q + 1
    } else {
        q
    };
    assert(ad * (q + 1) == ad * q + ad) by (nonlinear_arith);
    assert(2 * abs(m * ad - an) <= ad) by {
        assert(m * ad == ad * m) by (nonlinear_arith);
    }
    let rq = round_quotient(n, d);
    assert(abs(rq * d - n) == abs(m * ad - an)) by (nonlinear_arith)
        requires
            d != 0,
            ad == abs(d),
            an == abs(n),
            rq == if (n < 0) != (d < 0) {
                -m
            } else {
                m
            },
    ;
}

/// The rounded square root squares back to within its own size.
pub proof fn lemma_sqrt_nearest_error(x: int)
    requires
        0 <= x,
    ensures
        0 <= sqrt_nearest(x),
        abs(sqrt_nearest(x) * sqrt_nearest(x) - x) <= sqrt_nearest(x),
{
    lemma_sqrt_floor_exists(x);
    let f = sqrt_floor(x);
    assert((f + 1) * (f + 1) == f * f + 2 * f + 1) by (nonlinear_arith);
}

} // verus!
