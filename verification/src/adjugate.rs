//! The adjugate identity over the integers: a row of a matrix times the
//! cofactors of a row gives the determinant when the rows are the same, and
//! zero when they differ.

use vstd::prelude::*;

verus! {

/// Determinant of the rows `(a, b)` and `(c, d)`.
pub open spec fn det2(a: int, b: int, c: int, d: int) -> int {
    a * d - c * b
}

/// Determinant of three rows, expanded along the first column.
pub open spec fn det3(
    a0: int,
    a1: int,
    a2: int,
    b0: int,
    b1: int,
    b2: int,
    c0: int,
    c1: int,
    c2: int,
) -> int {
    a0 * det2(b1, b2, c1, c2) - b0 * det2(a1, a2, c1, c2) + c0 * det2(a1, a2, b1, b2)
}

/// A row `x` against the cofactors of the first of three rows, whose other
/// two are `b` and `c`.
pub open spec fn expand3(
    x0: int, x1: int, x2: int, b0: int, b1: int, b2: int, c0: int, c1: int, c2: int,
) -> int {
    x0 * det2(b1, b2, c1, c2) - x1 * det2(b0, b2, c0, c2) + x2 * det2(b0, b1, c0, c1)
}

/// A factor times a 2x2 determinant, written out.
pub proof fn lemma_times_det2(x: int, a: int, b: int, c: int, d: int)
    ensures
        x * det2(a, b, c, d) == x * a * d - x * c * b,
{
    assert(x * (a * d - c * b) == x * a * d - x * c * b) by (nonlinear_arith);
}

/// Expanding along a row gives the determinant, with the sign of the row's
/// position; expanding with another row's entries gives zero.
pub proof fn lemma_expand3(
    a0: int, a1: int, a2: int, b0: int, b1: int, b2: int, c0: int, c1: int, c2: int,
)
    ensures
        expand3(a0, a1, a2, b0, b1, b2, c0, c1, c2) == det3(a0, a1, a2, b0, b1, b2, c0, c1, c2),
        expand3(b0, b1, b2, a0, a1, a2, c0, c1, c2) == -det3(a0, a1, a2, b0, b1, b2, c0, c1, c2),
        expand3(c0, c1, c2, a0, a1, a2, b0, b1, b2) == det3(a0, a1, a2, b0, b1, b2, c0, c1, c2),
        expand3(b0, b1, b2, b0, b1, b2, c0, c1, c2) == 0,
        expand3(c0, c1, c2, b0, b1, b2, c0, c1, c2) == 0,
{
    // The determinant, term by term.
    lemma_times_det2(a0, b1, b2, c1, c2);
    lemma_times_det2(b0, a1, a2, c1, c2);
    lemma_times_det2(c0, a1, a2, b1, b2);
    let d = det3(a0, a1, a2, b0, b1, b2, c0, c1, c2);
    assert(d == (a0 * b1 * c2 - a0 * c1 * b2) - (b0 * a1 * c2 - b0 * c1 * a2) + (c0 * a1 * b2 - c0
        * b1 * a2));
    // Along the first row.
    lemma_times_det2(a1, b0, b2, c0, c2);
    lemma_times_det2(a2, b0, b1, c0, c1);
    let e1 = expand3(a0, a1, a2, b0, b1, b2, c0, c1, c2);
    assert(e1 == (a0 * b1 * c2 - a0 * c1 * b2) - (a1 * b0 * c2 - a1 * c0 * b2) + (a2 * b0 * c1 - a2
        * c0 * b1));
    assert(e1 == d) by (nonlinear_arith)
        requires
            d == (a0 * b1 * c2 - a0 * c1 * b2) - (b0 * a1 * c2 - b0 * c1 * a2) + (c0 * a1 * b2 - c0
                * b1 * a2),
            e1 == (a0 * b1 * c2 - a0 * c1 * b2) - (a1 * b0 * c2 - a1 * c0 * b2) + (a2 * b0 * c1
                - a2 * c0 * b1),
    ;
    // Along the second row.
    lemma_times_det2(b0, a1, a2, c1, c2);
    lemma_times_det2(b1, a0, a2, c0, c2);
    lemma_times_det2(b2, a0, a1, c0, c1);
    let e2 = expand3(b0, b1, b2, a0, a1, a2, c0, c1, c2);
    assert(e2 == (b0 * a1 * c2 - b0 * c1 * a2) - (b1 * a0 * c2 - b1 * c0 * a2) + (b2 * a0 * c1 - b2
        * c0 * a1));
    assert(e2 == -d) by (nonlinear_arith)
        requires
            d == (a0 * b1 * c2 - a0 * c1 * b2) - (b0 * a1 * c2 - b0 * c1 * a2) + (c0 * a1 * b2 - c0
                * b1 * a2),
            e2 == (b0 * a1 * c2 - b0 * c1 * a2) - (b1 * a0 * c2 - b1 * c0 * a2) + (b2 * a0 * c1
                - b2 * c0 * a1),
    ;
    // Along the third row.
    lemma_times_det2(c1, a0, a2, b0, b2);
    lemma_times_det2(c2, a0, a1, b0, b1);
    let e3 = expand3(c0, c1, c2, a0, a1, a2, b0, b1, b2);
    assert(e3 == (c0 * a1 * b2 - c0 * b1 * a2) - (c1 * a0 * b2 - c1 * b0 * a2) + (c2 * a0 * b1 - c2
        * b0 * a1));
    assert(e3 == d) by (nonlinear_arith)
        requires
            d == (a0 * b1 * c2 - a0 * c1 * b2) - (b0 * a1 * c2 - b0 * c1 * a2) + (c0 * a1 * b2 - c0
                * b1 * a2),
            e3 == (c0 * a1 * b2 - c0 * b1 * a2) - (c1 * a0 * b2 - c1 * b0 * a2) + (c2 * a0 * b1
                - c2 * b0 * a1),
    ;
    assert(expand3(b0, b1, b2, b0, b1, b2, c0, c1, c2) == 0) by (nonlinear_arith)
        requires
            expand3(b0, b1, b2, b0, b1, b2, c0, c1, c2) == b0 * (b1 * c2 - c1 * b2) - b1 * (b0 * c2
                - c0 * b2) + b2 * (b0 * c1 - c0 * b1),
    ;
    assert(expand3(c0, c1, c2, b0, b1, b2, c0, c1, c2) == 0) by (nonlinear_arith)
        requires
            expand3(c0, c1, c2, b0, b1, b2, c0, c1, c2) == c0 * (b1 * c2 - c1 * b2) - c1 * (b0 * c2
                - c0 * b2) + c2 * (b0 * c1 - c0 * b1),
    ;
}

/// Determinant of four rows, expanded along the first column.
pub open spec fn det4(
    a0: int,
    a1: int,
    a2: int,
    a3: int,
    b0: int,
    b1: int,
    b2: int,
    b3: int,
    c0: int,
    c1: int,
    c2: int,
    c3: int,
    d0: int,
    d1: int,
    d2: int,
    d3: int,
) -> int {
    a0 * det3(b1, b2, b3, c1, c2, c3, d1, d2, d3)
        - b0 * det3(a1, a2, a3, c1, c2, c3, d1, d2, d3)
        + c0 * det3(a1, a2, a3, b1, b2, b3, d1, d2, d3)
        - d0 * det3(a1, a2, a3, b1, b2, b3, c1, c2, c3)
}

/// A row `x` against the cofactors of the first of four rows, whose other
/// three are `b`, `c` and `d`.
pub open spec fn expand4(
    x0: int,
    x1: int,
    x2: int,
    x3: int,
    b0: int,
    b1: int,
    b2: int,
    b3: int,
    c0: int,
    c1: int,
    c2: int,
    c3: int,
    d0: int,
    d1: int,
    d2: int,
    d3: int,
) -> int {
    x0 * det3(b1, b2, b3, c1, c2, c3, d1, d2, d3)
        - x1 * det3(b0, b2, b3, c0, c2, c3, d0, d2, d3)
        + x2 * det3(b0, b1, b3, c0, c1, c3, d0, d1, d3)
        - x3 * det3(b0, b1, b2, c0, c1, c2, d0, d1, d2)
}

/// The sum that arises when a row is expanded against cofactors that
/// contain the same row: its terms cancel in pairs.
pub proof fn lemma_repeated_cancel(
    x0: int,
    x1: int,
    x2: int,
    x3: int,
    m01: int,
    m02: int,
    m03: int,
    m12: int,
    m13: int,
    m23: int,
)
    ensures
        x0 * (x1 * m23 - x2 * m13 + x3 * m12)
            - x1 * (x0 * m23 - x2 * m03 + x3 * m02)
            + x2 * (x0 * m13 - x1 * m03 + x3 * m01)
            - x3 * (x0 * m12 - x1 * m02 + x2 * m01) == 0,
{
    let t0 = x0 * (x1 * m23 - x2 * m13 + x3 * m12);
    let t1 = x1 * (x0 * m23 - x2 * m03 + x3 * m02);
    let t2 = x2 * (x0 * m13 - x1 * m03 + x3 * m01);
    let t3 = x3 * (x0 * m12 - x1 * m02 + x2 * m01);
    assert(t0 == x0 * x1 * m23 - x0 * x2 * m13 + x0 * x3 * m12) by (nonlinear_arith)
        requires
            t0 == x0 * (x1 * m23 - x2 * m13 + x3 * m12),
    ;
    assert(t1 == x1 * x0 * m23 - x1 * x2 * m03 + x1 * x3 * m02) by (nonlinear_arith)
        requires
            t1 == x1 * (x0 * m23 - x2 * m03 + x3 * m02),
    ;
    assert(t2 == x2 * x0 * m13 - x2 * x1 * m03 + x2 * x3 * m01) by (nonlinear_arith)
        requires
            t2 == x2 * (x0 * m13 - x1 * m03 + x3 * m01),
    ;
    assert(t3 == x3 * x0 * m12 - x3 * x1 * m02 + x3 * x2 * m01) by (nonlinear_arith)
        requires
            t3 == x3 * (x0 * m12 - x1 * m02 + x2 * m01),
    ;
    assert(t0 - t1 + t2 - t3 == 0) by (nonlinear_arith)
        requires
            t0 == x0 * x1 * m23 - x0 * x2 * m13 + x0 * x3 * m12,
            t1 == x1 * x0 * m23 - x1 * x2 * m03 + x1 * x3 * m02,
            t2 == x2 * x0 * m13 - x2 * x1 * m03 + x2 * x3 * m01,
            t3 == x3 * x0 * m12 - x3 * x1 * m02 + x3 * x2 * m01,
    ;
}

/// A double sum over rows and columns may be taken in either order.
pub proof fn lemma_exchange(
    x1: int,
    x2: int,
    x3: int,
    y0: int,
    y1: int,
    y2: int,
    n01: int,
    n02: int,
    n03: int,
    n11: int,
    n12: int,
    n13: int,
    n21: int,
    n22: int,
    n23: int,
)
    ensures
        x1 * (y0 * n01 - y1 * n11 + y2 * n21)
            - x2 * (y0 * n02 - y1 * n12 + y2 * n22)
            + x3 * (y0 * n03 - y1 * n13 + y2 * n23)
            == y0 * (x1 * n01 - x2 * n02 + x3 * n03)
            - y1 * (x1 * n11 - x2 * n12 + x3 * n13)
            + y2 * (x1 * n21 - x2 * n22 + x3 * n23),
{
    let s1 = x1 * (y0 * n01 - y1 * n11 + y2 * n21);
    let s2 = x2 * (y0 * n02 - y1 * n12 + y2 * n22);
    let s3 = x3 * (y0 * n03 - y1 * n13 + y2 * n23);
    let t0 = y0 * (x1 * n01 - x2 * n02 + x3 * n03);
    let t1 = y1 * (x1 * n11 - x2 * n12 + x3 * n13);
    let t2 = y2 * (x1 * n21 - x2 * n22 + x3 * n23);
    assert(s1 == x1 * y0 * n01 - x1 * y1 * n11 + x1 * y2 * n21) by (nonlinear_arith)
        requires
            s1 == x1 * (y0 * n01 - y1 * n11 + y2 * n21),
    ;
    assert(s2 == x2 * y0 * n02 - x2 * y1 * n12 + x2 * y2 * n22) by (nonlinear_arith)
        requires
            s2 == x2 * (y0 * n02 - y1 * n12 + y2 * n22),
    ;
    assert(s3 == x3 * y0 * n03 - x3 * y1 * n13 + x3 * y2 * n23) by (nonlinear_arith)
        requires
            s3 == x3 * (y0 * n03 - y1 * n13 + y2 * n23),
    ;
    assert(t0 == y0 * x1 * n01 - y0 * x2 * n02 + y0 * x3 * n03) by (nonlinear_arith)
        requires
            t0 == y0 * (x1 * n01 - x2 * n02 + x3 * n03),
    ;
    assert(t1 == y1 * x1 * n11 - y1 * x2 * n12 + y1 * x3 * n13) by (nonlinear_arith)
        requires
            t1 == y1 * (x1 * n11 - x2 * n12 + x3 * n13),
    ;
    assert(t2 == y2 * x1 * n21 - y2 * x2 * n22 + y2 * x3 * n23) by (nonlinear_arith)
        requires
            t2 == y2 * (x1 * n21 - x2 * n22 + x3 * n23),
    ;
    assert(s1 - s2 + s3 == t0 - t1 + t2) by (nonlinear_arith)
        requires
            s1 == x1 * y0 * n01 - x1 * y1 * n11 + x1 * y2 * n21,
            s2 == x2 * y0 * n02 - x2 * y1 * n12 + x2 * y2 * n22,
            s3 == x3 * y0 * n03 - x3 * y1 * n13 + x3 * y2 * n23,
            t0 == y0 * x1 * n01 - y0 * x2 * n02 + y0 * x3 * n03,
            t1 == y1 * x1 * n11 - y1 * x2 * n12 + y1 * x3 * n13,
            t2 == y2 * x1 * n21 - y2 * x2 * n22 + y2 * x3 * n23,
    ;
}

} // verus!
