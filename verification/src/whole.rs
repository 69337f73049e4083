//! Whole numbers among the scalars: on them the operations are exact as long
//! as the results stay in range.

use crate::rounding::lemma_round_quotient_error;
use crate::rounding::lemma_round_quotient_exact;
use crate::scalar::abs;
use crate::scalar::round_quotient;
use crate::scalar::Scalar;
use crate::scalar::SCALE;
use vstd::prelude::*;

verus! {

/// Largest whole number that a scalar can hold.
pub open spec fn whole_limit() -> int {
    9_000_000_000
}

impl Scalar {
    /// The value is a whole number.
    pub open spec fn is_whole(self) -> bool {
        (self.raw as int) % (SCALE as int) == 0
    }

    /// The whole part of the value, rounded down.
    pub open spec fn units(self) -> int {
        (self.raw as int) / (SCALE as int)
    }

    /// The value is a whole number of magnitude at most `bound`.
    pub open spec fn whole_within(self, bound: int) -> bool {
        self.is_whole() && -bound <= self.units() <= bound
    }
}

/// A whole scalar is its number of units times the scale.
pub proof fn lemma_whole_raw(a: Scalar)
    requires
        a.is_whole(),
    ensures
        a.raw == a.units() * SCALE,
{
    vstd::arithmetic::div_mod::lemma_fundamental_div_mod(a.raw as int, SCALE as int);
    assert(SCALE * a.units() == a.units() * SCALE) by (nonlinear_arith);
}

/// A multiple of the scale is a whole scalar with that many units.
pub proof fn lemma_whole_from_units(a: Scalar, k: int)
    requires
        a.raw == k * SCALE,
    ensures
        a.is_whole(),
        a.units() == k,
{
    vstd::arithmetic::div_mod::lemma_fundamental_div_mod_converse(a.raw as int, SCALE as int, k, 0);
    assert(k * SCALE == SCALE * k) by (nonlinear_arith);
}

/// The product of whole scalars is whole and exact while it stays in range.
pub proof fn lemma_whole_mul(a: Scalar, b: Scalar, bound: int)
    requires
        a.is_whole(),
        b.is_whole(),
        -bound <= a.units() * b.units() <= bound,
        bound <= whole_limit(),
    ensures
        a.spec_mul(b).whole_within(bound),
        a.spec_mul(b).units() == a.units() * b.units(),
{
    reveal(Scalar::spec_mul);
    lemma_whole_raw(a);
    lemma_whole_raw(b);
    let k = a.units() * b.units();
    assert(a.raw * b.raw == (k * SCALE) * SCALE) by (nonlinear_arith)
        requires
            a.raw == a.units() * SCALE,
            b.raw == b.units() * SCALE,
            k == a.units() * b.units(),
    ;
    lemma_round_quotient_exact(k * SCALE, SCALE as int);
    assert(-9_000_000_000_000_000_000 <= k * SCALE <= 9_000_000_000_000_000_000)
        by (nonlinear_arith)
        requires
            -9_000_000_000 <= k <= 9_000_000_000,
            SCALE == 1_000_000_000,
    ;
    lemma_whole_from_units(a.spec_mul(b), k);
}

/// A whole scalar times any scalar is the exact multiple, clamped.
pub proof fn lemma_whole_times(a: Scalar, x: Scalar)
    requires
        a.is_whole(),
    ensures
        a.spec_mul(x) == Scalar::of(a.units() * x.raw),
{
    reveal(Scalar::spec_mul);
    lemma_whole_raw(a);
    let k = a.units() * x.raw;
    assert(a.raw * x.raw == k * SCALE) by (nonlinear_arith)
        requires
            a.raw == a.units() * SCALE,
            k == a.units() * x.raw,
    ;
    lemma_round_quotient_exact(k, SCALE as int);
}

/// The sum of whole scalars is whole and exact while it stays in range.
pub proof fn lemma_whole_add(a: Scalar, b: Scalar, bound: int)
    requires
        a.is_whole(),
        b.is_whole(),
        -bound <= a.units() + b.units() <= bound,
        bound <= whole_limit(),
    ensures
        a.spec_add(b).whole_within(bound),
        a.spec_add(b).units() == a.units() + b.units(),
{
    lemma_whole_raw(a);
    lemma_whole_raw(b);
    let k = a.units() + b.units();
    assert(a.raw + b.raw == k * SCALE) by (nonlinear_arith)
        requires
            a.raw == a.units() * SCALE,
            b.raw == b.units() * SCALE,
            k == a.units() + b.units(),
    ;
    assert(-9_000_000_000_000_000_000 <= k * SCALE <= 9_000_000_000_000_000_000)
        by (nonlinear_arith)
        requires
            -9_000_000_000 <= k <= 9_000_000_000,
            SCALE == 1_000_000_000,
    ;
    lemma_whole_from_units(a.spec_add(b), k);
}

/// The negation of a whole scalar is whole and exact.
pub proof fn lemma_whole_neg(a: Scalar, bound: int)
    requires
        a.whole_within(bound),
        bound <= whole_limit(),
    ensures
        a.spec_neg().whole_within(bound),
        a.spec_neg().units() == -a.units(),
{
    lemma_whole_raw(a);
    let k = -a.units();
    assert(-a.raw == k * SCALE) by (nonlinear_arith)
        requires
            a.raw == a.units() * SCALE,
            k == -a.units(),
    ;
    assert(-9_000_000_000_000_000_000 <= k * SCALE <= 9_000_000_000_000_000_000)
        by (nonlinear_arith)
        requires
            -9_000_000_000 <= k <= 9_000_000_000,
            SCALE == 1_000_000_000,
    ;
    lemma_whole_from_units(a.spec_neg(), k);
}

/// Zero and one are whole.
pub proof fn lemma_whole_constants()
    ensures
        Scalar::spec_zero().whole_within(0),
        Scalar::spec_one().whole_within(1),
        Scalar::spec_zero().units() == 0,
        Scalar::spec_one().units() == 1,
{
    lemma_whole_from_units(Scalar::spec_zero(), 0);
    lemma_whole_from_units(Scalar::spec_one(), 1);
}

/// The quotient of a whole scalar by a non-zero whole scalar: times the
/// units of the divisor it misses the dividend by at most half the divisor,
/// and it stays in range.
pub proof fn lemma_whole_div(c: Scalar, d: Scalar, bound: int)
    requires
        c.whole_within(bound),
        0 <= bound < whole_limit(),
        d.is_whole(),
        d.units() != 0,
    ensures
        2 * abs(c.spec_div(d).raw * d.units() - c.units() * SCALE) <= abs(d.units()),
        abs(c.spec_div(d).raw as int) <= bound * SCALE + 1,
{
    reveal(Scalar::spec_div);
    lemma_whole_raw(c);
    lemma_whole_raw(d);
    let scale = SCALE as int;
    let cu = c.units();
    let du = d.units();
    let n = c.raw * scale;
    let q = round_quotient(n, d.raw as int);
    assert(d.raw != 0) by (nonlinear_arith)
        requires
            d.raw == du * scale,
            du != 0,
            scale > 0,
    ;
    lemma_round_quotient_error(n, d.raw as int);
    // 2 |q d - n| <= |d| with d = du S and n = cu S S.
    assert(q * d.raw - n == (q * du - cu * scale) * scale) by (nonlinear_arith)
        requires
            d.raw == du * scale,
            n == c.raw * scale,
            c.raw == cu * scale,
    ;
    assert(abs(d.raw as int) == abs(du) * scale) by (nonlinear_arith)
        requires
            d.raw == du * scale,
            scale > 0,
    ;
    let e = q * du - cu * scale;
    assert(abs(e * scale) == abs(e) * scale) by (nonlinear_arith)
        requires
            scale > 0,
    ;
    assert(2 * abs(e) <= abs(du)) by (nonlinear_arith)
        requires
            2 * (abs(e) * scale) <= abs(du) * scale,
            scale > 0,
    ;
    // |q| <= |cu| S + 1.
    assert(abs(q) <= bound * scale + 1) by (nonlinear_arith)
        requires
            e == q * du - cu * scale,
            2 * abs(e) <= abs(du),
            du != 0,
            -bound <= cu <= bound,
            scale > 0,
            0 <= bound,
    ;
    assert(bound * scale + 1 <= 9_000_000_000_000_000_000) by (nonlinear_arith)
        requires
            0 <= bound < 9_000_000_000,
            scale == 1_000_000_000,
    ;
}

/// If the product of `y` with a non-zero `d` is at most `bound` times `d` in
/// magnitude, then `y` is at most `bound`.
pub proof fn lemma_cancel_factor(d: int, y: int, bound: int)
    requires
        d != 0,
        0 <= bound,
        abs(d * y) <= bound * abs(d),
    ensures
        abs(y) <= bound,
{
    assert(abs(d * y) == abs(d) * abs(y)) by (nonlinear_arith);
    assert(abs(y) <= bound) by (nonlinear_arith)
        requires
            abs(d) * abs(y) <= bound * abs(d),
            abs(d) > 0,
    ;
}

/// One term of a row of a matrix times a column of its inverse: the entry
/// `k` times a quotient `q` that misses `c s / d` by half a unit.
pub proof fn lemma_term_error(k: int, q: int, c: int, d: int, s: int, bound: int)
    requires
        -bound <= k <= bound,
        0 <= bound,
        2 * abs(q * d - c * s) <= abs(d),
    ensures
        2 * abs((k * q) * d - (k * c) * s) <= bound * abs(d),
{
    let e = q * d - c * s;
    assert((k * q) * d - (k * c) * s == k * e) by (nonlinear_arith)
        requires
            e == q * d - c * s,
    ;
    assert(abs(k * e) == abs(k) * abs(e)) by (nonlinear_arith);
    assert(2 * (abs(k) * abs(e)) <= bound * abs(d)) by (nonlinear_arith)
        requires
            abs(k) <= bound,
            2 * abs(e) <= abs(d),
            0 <= abs(k),
            0 <= abs(e),
    ;
}

/// A row of a matrix of small whole numbers times a column of quotients by
/// its determinant `d`: the sum misses `delta` times the scale by little,
/// where `delta` is one on the diagonal and zero off it. The entries are
/// `k`, the quotients `q`, and `c` the cofactors that were divided.
pub proof fn lemma_row_error(
    d: int,
    delta: int,
    k0: int,
    q0: int,
    c0: int,
    k1: int,
    q1: int,
    c1: int,
    k2: int,
    q2: int,
    c2: int,
    k3: int,
    q3: int,
    c3: int,
)
    requires
        d != 0,
        -100 <= k0 <= 100,
        -100 <= k1 <= 100,
        -100 <= k2 <= 100,
        -100 <= k3 <= 100,
        2 * abs(q0 * d - c0 * SCALE) <= abs(d),
        2 * abs(q1 * d - c1 * SCALE) <= abs(d),
        2 * abs(q2 * d - c2 * SCALE) <= abs(d),
        2 * abs(q3 * d - c3 * SCALE) <= abs(d),
        k0 * c0 + k1 * c1 + k2 * c2 + k3 * c3 == delta * d,
    ensures
        abs(k0 * q0 + k1 * q1 + k2 * q2 + k3 * q3 - delta * SCALE) <= 200,
{
    let s = SCALE as int;
    lemma_term_error(k0, q0, c0, d, s, 100);
    lemma_term_error(k1, q1, c1, d, s, 100);
    lemma_term_error(k2, q2, c2, d, s, 100);
    lemma_term_error(k3, q3, c3, d, s, 100);
    let p0 = k0 * q0;
    let p1 = k1 * q1;
    let p2 = k2 * q2;
    let p3 = k3 * q3;
    let r0 = k0 * c0;
    let r1 = k1 * c1;
    let r2 = k2 * c2;
    let r3 = k3 * c3;
    let y = p0 + p1 + p2 + p3 - delta * s;
    assert(d * y == (p0 * d - r0 * s) + (p1 * d - r1 * s) + (p2 * d - r2 * s) + (p3 * d - r3 * s))
        by (nonlinear_arith)
        requires
            y == p0 + p1 + p2 + p3 - delta * s,
            r0 + r1 + r2 + r3 == delta * d,
    ;
    lemma_cancel_factor(d, y, 200);
}

} // verus!
