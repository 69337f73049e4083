//! Integer arithmetic behind the length of a normalized tuple.
//!
//! Throughout, `s` is the scale, `x` a component, `m` the rounded magnitude
//! and `c` the component divided by it; all are raw values.

use crate::rounding::lemma_round_quotient_error;
use crate::rounding::lemma_round_quotient_sign;
use crate::scalar::abs;
use crate::scalar::round_quotient;
use crate::scalar::Scalar;
use crate::scalar::SCALE;
use crate::whole::lemma_cancel_factor;
use vstd::prelude::*;

verus! {

/// A component is hardly larger than the magnitude, given that its square
/// is at most the square of the magnitude and a little more.
pub proof fn lemma_component_bound(x: int, m: int, s: int)
    requires
        s == 1_000_000_000,
        10 * m >= s,
        x * x <= m * m + m + 2 * s,
    ensures
        abs(x) <= m + 11,
{
    if abs(x) >= m + 12 {
        assert(x * x >= (m + 12) * (m + 12)) by (nonlinear_arith)
            requires
                abs(x) >= m + 12,
                m >= 0,
        ;
        assert((m + 12) * (m + 12) == m * m + 24 * m + 144) by (nonlinear_arith);
    }
}

/// A component divided by the magnitude is hardly larger than one.
pub proof fn lemma_quotient_bound(x: int, m: int, c: int, s: int)
    requires
        s == 1_000_000_000,
        10 * m >= s,
        abs(x) <= m + 11,
        2 * abs(c * m - x * s) <= m,
    ensures
        abs(c) <= s + 112,
{
    if abs(c) >= s + 113 {
        assert(abs(c * m) >= (s + 113) * m) by (nonlinear_arith)
            requires
                abs(c) >= s + 113,
                m > 0,
        ;
        assert(abs(x * s) <= (m + 11) * s) by (nonlinear_arith)
            requires
                abs(x) <= m + 11,
                s > 0,
        ;
        assert((s + 113) * m == s * m + 113 * m) by (nonlinear_arith);
        assert((m + 11) * s == s * m + 11 * s) by (nonlinear_arith);
    }
}

/// The square of a component divided by the magnitude, times the square of
/// the magnitude, is close to the square of the component times the square
/// of the scale.
pub proof fn lemma_square_gap(x: int, m: int, c: int, s: int)
    requires
        s == 1_000_000_000,
        10 * m >= s,
        abs(x) <= m + 11,
        2 * abs(c * m - x * s) <= m,
    ensures
        abs((c * c) * (m * m) - (s * s) * (x * x)) <= s * (m * m) + 111 * (m * m),
{
    let e = c * m - x * s;
    let xs = x * s;
    assert((c * c) * (m * m) == (c * m) * (c * m)) by (nonlinear_arith);
    assert((s * s) * (x * x) == xs * xs) by (nonlinear_arith)
        requires
            xs == x * s,
    ;
    assert((c * m) * (c * m) - xs * xs == 2 * (xs * e) + e * e) by (nonlinear_arith)
        requires
            e == c * m - xs,
    ;
    // 2 |xs e| <= (m + 11) s m, and e e <= m m.
    assert(abs(xs) <= (m + 11) * s) by (nonlinear_arith)
        requires
            xs == x * s,
            abs(x) <= m + 11,
            s > 0,
    ;
    assert(2 * abs(xs * e) <= ((m + 11) * s) * m) by (nonlinear_arith)
        requires
            abs(xs) <= (m + 11) * s,
            2 * abs(e) <= m,
            m >= 0,
    ;
    assert(e * e <= m * m) by (nonlinear_arith)
        requires
            2 * abs(e) <= m,
    ;
    assert(e * e >= 0) by (nonlinear_arith);
    assert(((m + 11) * s) * m == s * (m * m) + 11 * (s * m)) by (nonlinear_arith);
    assert(11 * (s * m) <= 110 * (m * m)) by (nonlinear_arith)
        requires
            s <= 10 * m,
            m >= 0,
    ;
}

/// The sum of the squares of the four components is close to the square of
/// the magnitude, and so no component is much larger than the magnitude.
pub proof fn lemma_components_bounded(
    x0: int,
    x1: int,
    x2: int,
    x3: int,
    p0: int,
    p1: int,
    p2: int,
    p3: int,
    m: int,
    s: int,
)
    requires
        s == 1_000_000_000,
        2 * abs(p0 * s - x0 * x0) <= s,
        2 * abs(p1 * s - x1 * x1) <= s,
        2 * abs(p2 * s - x2 * x2) <= s,
        2 * abs(p3 * s - x3 * x3) <= s,
        abs(m * m - (p0 + p1 + p2 + p3) * s) <= m,
        10 * m >= s,
    ensures
        abs(m * m - (x0 * x0 + x1 * x1 + x2 * x2 + x3 * x3)) <= m + 2 * s,
        abs(x0) <= m + 11,
        abs(x1) <= m + 11,
        abs(x2) <= m + 11,
        abs(x3) <= m + 11,
{
    assert((p0 + p1 + p2 + p3) * s == p0 * s + p1 * s + p2 * s + p3 * s) by (nonlinear_arith);
    assert(x0 * x0 >= 0) by (nonlinear_arith);
    assert(x1 * x1 >= 0) by (nonlinear_arith);
    assert(x2 * x2 >= 0) by (nonlinear_arith);
    assert(x3 * x3 >= 0) by (nonlinear_arith);
    lemma_component_bound(x0, m, s);
    lemma_component_bound(x1, m, s);
    lemma_component_bound(x2, m, s);
    lemma_component_bound(x3, m, s);
}

/// The rounded squares of the components of a tuple divided by its
/// magnitude add up to one, within 217 raw units. `p` are the rounded
/// squares of the components `x`, `m` the rounded root of their sum, `c` the
/// rounded quotients of the components by `m`, and `r` the rounded squares
/// of those.
pub proof fn lemma_unit_square_sum(
    x0: int,
    x1: int,
    x2: int,
    x3: int,
    p0: int,
    p1: int,
    p2: int,
    p3: int,
    m: int,
    c0: int,
    c1: int,
    c2: int,
    c3: int,
    r0: int,
    r1: int,
    r2: int,
    r3: int,
    s: int,
)
    requires
        s == 1_000_000_000,
        2 * abs(p0 * s - x0 * x0) <= s,
        2 * abs(p1 * s - x1 * x1) <= s,
        2 * abs(p2 * s - x2 * x2) <= s,
        2 * abs(p3 * s - x3 * x3) <= s,
        abs(m * m - (p0 + p1 + p2 + p3) * s) <= m,
        10 * m >= s,
        2 * abs(c0 * m - x0 * s) <= m,
        2 * abs(c1 * m - x1 * s) <= m,
        2 * abs(c2 * m - x2 * s) <= m,
        2 * abs(c3 * m - x3 * s) <= m,
        2 * abs(r0 * s - c0 * c0) <= s,
        2 * abs(r1 * s - c1 * c1) <= s,
        2 * abs(r2 * s - c2 * c2) <= s,
        2 * abs(r3 * s - c3 * c3) <= s,
    ensures
        abs(r0 + r1 + r2 + r3 - s) <= 217,
{
    lemma_components_bounded(x0, x1, x2, x3, p0, p1, p2, p3, m, s);
    let q = x0 * x0 + x1 * x1 + x2 * x2 + x3 * x3;
    let c = c0 * c0 + c1 * c1 + c2 * c2 + c3 * c3;
    let mm = m * m;
    let ss = s * s;
    lemma_square_gap(x0, m, c0, s);
    lemma_square_gap(x1, m, c1, s);
    lemma_square_gap(x2, m, c2, s);
    lemma_square_gap(x3, m, c3, s);
    assert(c * mm == (c0 * c0) * mm + (c1 * c1) * mm + (c2 * c2) * mm + (c3 * c3) * mm)
        by (nonlinear_arith)
        requires
            c == c0 * c0 + c1 * c1 + c2 * c2 + c3 * c3,
    ;
    assert(ss * q == ss * (x0 * x0) + ss * (x1 * x1) + ss * (x2 * x2) + ss * (x3 * x3))
        by (nonlinear_arith)
        requires
            q == x0 * x0 + x1 * x1 + x2 * x2 + x3 * x3,
    ;
    let gap = s * mm + 111 * mm;
    assert(abs(c * mm - ss * q) <= 4 * gap);
    // The squares of the components against the square of the magnitude.
    assert(abs(ss * q - ss * mm) <= ss * (m + 2 * s)) by (nonlinear_arith)
        requires
            abs(mm - q) <= m + 2 * s,
            ss >= 0,
            ss == s * s,
    ;
    assert(ss * (m + 2 * s) <= 210 * (s * mm)) by (nonlinear_arith)
        requires
            ss == s * s,
            mm == m * m,
            0 < s <= 10 * m,
    ;
    assert(444 * mm <= s * mm) by (nonlinear_arith)
        requires
            mm >= 0,
            s >= 444,
    ;
    assert(mm > 0) by (nonlinear_arith)
        requires
            mm == m * m,
            m > 0,
    ;
    let y = c - ss;
    assert(mm * y == c * mm - ss * mm) by (nonlinear_arith)
        requires
            y == c - ss,
    ;
    assert(abs(mm * y) <= (215 * s) * abs(mm)) by (nonlinear_arith)
        requires
            abs(mm * y) <= 4 * (s * mm + 111 * mm) + 210 * (s * mm),
            444 * mm <= s * mm,
            mm > 0,
    ;
    lemma_cancel_factor(mm, y, 215 * s);
    // The rounded squares of the quotients.
    let d = r0 + r1 + r2 + r3;
    assert(d * s == r0 * s + r1 * s + r2 * s + r3 * s) by (nonlinear_arith)
        requires
            d == r0 + r1 + r2 + r3,
    ;
    assert(abs(d * s - c) <= 2 * s);
    let z = d - s;
    assert(s * z == d * s - ss) by (nonlinear_arith)
        requires
            z == d - s,
            ss == s * s,
    ;
    assert(abs(s * z) <= 217 * abs(s));
    lemma_cancel_factor(s, z, 217);
}

/// The rounded root of a number close to one is as close to one.
pub proof fn lemma_root_near_one(d: int, n: int, s: int)
    requires
        s == 1_000_000_000,
        abs(d - s) <= 217,
        0 <= n,
        abs(n * n - d * s) <= n,
    ensures
        abs(n - s) <= 217,
{
    let z = n - s;
    assert((n + s) * z == n * n - s * s) by (nonlinear_arith)
        requires
            z == n - s,
    ;
    assert(abs(d * s - s * s) <= 217 * s) by (nonlinear_arith)
        requires
            abs(d - s) <= 217,
            s > 0,
    ;
    assert(abs((n + s) * z) <= 217 * abs(n + s));
    lemma_cancel_factor(n + s, z, 217);
}

/// Largest raw magnitude of a component for which the length of a tuple is
/// certain to stay in range: ten thousand.
pub open spec fn component_limit() -> int {
    10_000_000_000_000
}

/// The square of a scalar of bounded magnitude is not clamped, and misses
/// the exact square by at most half a raw unit.
pub proof fn lemma_square_rounded(x: Scalar, limit: int)
    requires
        abs(x.raw as int) <= limit <= component_limit(),
    ensures
        0 <= x.spec_mul(x).raw,
        2 * abs(x.spec_mul(x).raw * SCALE - x.raw * x.raw) <= SCALE,
        x.spec_mul(x).raw * SCALE <= limit * limit + SCALE,
{
    reveal(Scalar::spec_mul);
    let s = SCALE as int;
    let n = x.raw * x.raw;
    let q = round_quotient(n, s);
    assert(0 <= n <= limit * limit) by (nonlinear_arith)
        requires
            n == x.raw * x.raw,
            abs(x.raw as int) <= limit,
    ;
    lemma_round_quotient_error(n, s);
    lemma_round_quotient_sign(n, s);
    assert(limit * limit <= 100_000_000_000_000_000_000_000_000) by (nonlinear_arith)
        requires
            0 <= limit <= 10_000_000_000_000,
    ;
    assert(q <= 9_000_000_000_000_000_000) by (nonlinear_arith)
        requires
            q * s <= 100_000_000_000_000_000_000_000_000 + s,
            s == 1_000_000_000,
    ;
}

/// The quotient of a bounded scalar by one that is at least a tenth is not
/// clamped, and times the divisor misses the dividend by at most half the
/// divisor.
pub proof fn lemma_quotient_rounded(x: Scalar, m: Scalar)
    requires
        abs(x.raw as int) <= component_limit(),
        10 * m.raw >= SCALE,
    ensures
        2 * abs(x.spec_div(m).raw * m.raw - x.raw * SCALE) <= m.raw,
{
    reveal(Scalar::spec_div);
    let s = SCALE as int;
    let n = x.raw * s;
    let q = round_quotient(n, m.raw as int);
    lemma_round_quotient_error(n, m.raw as int);
    assert(abs(n) <= 10_000_000_000_000_000_000_000) by (nonlinear_arith)
        requires
            n == x.raw * s,
            abs(x.raw as int) <= 10_000_000_000_000,
            s == 1_000_000_000,
    ;
    assert(abs(q) <= 200_000_000_000_000) by (nonlinear_arith)
        requires
            2 * abs(q * m.raw - n) <= m.raw,
            abs(n) <= 10_000_000_000_000_000_000_000,
            m.raw >= 100_000_000,
    ;
}

/// The root of a positive scalar squares back to within its own size.
pub proof fn lemma_root_rounded(d: Scalar)
    requires
        d.raw > 0,
    ensures
        0 <= d.spec_sqrt().raw,
        abs(d.spec_sqrt().raw * d.spec_sqrt().raw - d.raw * SCALE) <= d.spec_sqrt().raw,
{
    reveal(Scalar::spec_sqrt);
    assert(0 < d.raw * SCALE < 0x4000_0000_0000_0000_0000_0000) by (nonlinear_arith)
        requires
            0 < d.raw <= 0x7fff_ffff_ffff_ffff,
            SCALE == 1_000_000_000,
    ;
    crate::scalar::lemma_sqrt_nearest_bounds(d.raw * SCALE);
    crate::rounding::lemma_sqrt_nearest_error(d.raw * SCALE);
}

/// Only a positive scalar has a positive root.
pub proof fn lemma_root_positive(d: Scalar)
    requires
        d.spec_sqrt().raw > 0,
    ensures
        d.raw > 0,
{
    reveal(Scalar::spec_sqrt);
}

} // verus!
