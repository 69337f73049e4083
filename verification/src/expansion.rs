//! The determinant of four rows of integers, expanded along any of them.

use crate::adjugate::det2;
use crate::adjugate::det3;
use crate::adjugate::det4;
use crate::adjugate::expand4;
use crate::adjugate::lemma_exchange;
use crate::adjugate::lemma_expand3;
use crate::adjugate::lemma_repeated_cancel;
use vstd::prelude::*;

verus! {

/// A row expanded against the cofactors of a matrix that contains the row
/// gives zero.
pub proof fn lemma_expand4_repeated(
    b0: int,
    b1: int,
    b2: int,
    b3: int,
    c0: int,
    c1: int,
    c2: int,
    c3: int,
    d0: int,
    d1: int,
    d2: int,
    d3: int,
)
    ensures
        expand4(b0, b1, b2, b3, b0, b1, b2, b3, c0, c1, c2, c3, d0, d1, d2, d3) == 0,
        expand4(c0, c1, c2, c3, b0, b1, b2, b3, c0, c1, c2, c3, d0, d1, d2, d3) == 0,
        expand4(d0, d1, d2, d3, b0, b1, b2, b3, c0, c1, c2, c3, d0, d1, d2, d3) == 0,
{
    lemma_expand3(b1, b2, b3, c1, c2, c3, d1, d2, d3);
    lemma_expand3(b0, b2, b3, c0, c2, c3, d0, d2, d3);
    lemma_expand3(b0, b1, b3, c0, c1, c3, d0, d1, d3);
    lemma_expand3(b0, b1, b2, c0, c1, c2, d0, d1, d2);
    assert(expand4(b0, b1, b2, b3, b0, b1, b2, b3, c0, c1, c2, c3, d0, d1, d2, d3) == 0) by {
        let m01 = det2(c0, c1, d0, d1);
        let m02 = det2(c0, c2, d0, d2);
        let m03 = det2(c0, c3, d0, d3);
        let m12 = det2(c1, c2, d1, d2);
        let m13 = det2(c1, c3, d1, d3);
        let m23 = det2(c2, c3, d2, d3);
        lemma_repeated_cancel(b0, b1, b2, b3, m01, m02, m03, m12, m13, m23);
        let e0 = b1 * m23 - b2 * m13 + b3 * m12;
        assert(det3(b1, b2, b3, c1, c2, c3, d1, d2, d3) == e0);
        let e1 = b0 * m23 - b2 * m03 + b3 * m02;
        assert(det3(b0, b2, b3, c0, c2, c3, d0, d2, d3) == e1);
        let e2 = b0 * m13 - b1 * m03 + b3 * m01;
        assert(det3(b0, b1, b3, c0, c1, c3, d0, d1, d3) == e2);
        let e3 = b0 * m12 - b1 * m02 + b2 * m01;
        assert(det3(b0, b1, b2, c0, c1, c2, d0, d1, d2) == e3);
    }
    assert(expand4(c0, c1, c2, c3, b0, b1, b2, b3, c0, c1, c2, c3, d0, d1, d2, d3) == 0) by {
        let m01 = det2(b0, b1, d0, d1);
        let m02 = det2(b0, b2, d0, d2);
        let m03 = det2(b0, b3, d0, d3);
        let m12 = det2(b1, b2, d1, d2);
        let m13 = det2(b1, b3, d1, d3);
        let m23 = det2(b2, b3, d2, d3);
        lemma_repeated_cancel(c0, c1, c2, c3, m01, m02, m03, m12, m13, m23);
        let e0 = c1 * m23 - c2 * m13 + c3 * m12;
        assert(det3(b1, b2, b3, c1, c2, c3, d1, d2, d3) == -e0);
        assert(c0 * (-e0) == -(c0 * e0)) by (nonlinear_arith);
        let e1 = c0 * m23 - c2 * m03 + c3 * m02;
        assert(det3(b0, b2, b3, c0, c2, c3, d0, d2, d3) == -e1);
        assert(c1 * (-e1) == -(c1 * e1)) by (nonlinear_arith);
        let e2 = c0 * m13 - c1 * m03 + c3 * m01;
        assert(det3(b0, b1, b3, c0, c1, c3, d0, d1, d3) == -e2);
        assert(c2 * (-e2) == -(c2 * e2)) by (nonlinear_arith);
        let e3 = c0 * m12 - c1 * m02 + c2 * m01;
        assert(det3(b0, b1, b2, c0, c1, c2, d0, d1, d2) == -e3);
        assert(c3 * (-e3) == -(c3 * e3)) by (nonlinear_arith);
    }
    assert(expand4(d0, d1, d2, d3, b0, b1, b2, b3, c0, c1, c2, c3, d0, d1, d2, d3) == 0) by {
        let m01 = det2(b0, b1, c0, c1);
        let m02 = det2(b0, b2, c0, c2);
        let m03 = det2(b0, b3, c0, c3);
        let m12 = det2(b1, b2, c1, c2);
        let m13 = det2(b1, b3, c1, c3);
        let m23 = det2(b2, b3, c2, c3);
        lemma_repeated_cancel(d0, d1, d2, d3, m01, m02, m03, m12, m13, m23);
        let e0 = d1 * m23 - d2 * m13 + d3 * m12;
        assert(det3(b1, b2, b3, c1, c2, c3, d1, d2, d3) == e0);
        let e1 = d0 * m23 - d2 * m03 + d3 * m02;
        assert(det3(b0, b2, b3, c0, c2, c3, d0, d2, d3) == e1);
        let e2 = d0 * m13 - d1 * m03 + d3 * m01;
        assert(det3(b0, b1, b3, c0, c1, c3, d0, d1, d3) == e2);
        let e3 = d0 * m12 - d1 * m02 + d2 * m01;
        assert(det3(b0, b1, b2, c0, c1, c2, d0, d1, d2) == e3);
    }
}

/// Expanding along any row gives the determinant, with the sign of the
/// row's position.
pub proof fn lemma_expand4_rows(
    a0: int,
    a1: int,
    a2: int,
    a3: int,
    b0: int,
    b1: int,
    b2: int,
    b3: int,
    c0: int,
    c1: int,
    c2: int,
    c3: int,
    d0: int,
    d1: int,
    d2: int,
    d3: int,
)
    ensures
        expand4(a0, a1, a2, a3, b0, b1, b2, b3, c0, c1, c2, c3, d0, d1, d2, d3)
            == det4(a0, a1, a2, a3, b0, b1, b2, b3, c0, c1, c2, c3, d0, d1, d2, d3),
        expand4(b0, b1, b2, b3, a0, a1, a2, a3, c0, c1, c2, c3, d0, d1, d2, d3)
            == -det4(a0, a1, a2, a3, b0, b1, b2, b3, c0, c1, c2, c3, d0, d1, d2, d3),
        expand4(c0, c1, c2, c3, a0, a1, a2, a3, b0, b1, b2, b3, d0, d1, d2, d3)
            == det4(a0, a1, a2, a3, b0, b1, b2, b3, c0, c1, c2, c3, d0, d1, d2, d3),
        expand4(d0, d1, d2, d3, a0, a1, a2, a3, b0, b1, b2, b3, c0, c1, c2, c3)
            == -det4(a0, a1, a2, a3, b0, b1, b2, b3, c0, c1, c2, c3, d0, d1, d2, d3),
{
    let det = det4(a0, a1, a2, a3, b0, b1, b2, b3, c0, c1, c2, c3, d0, d1, d2, d3);
    assert(expand4(a0, a1, a2, a3, b0, b1, b2, b3, c0, c1, c2, c3, d0, d1, d2, d3) == det) by {
        let n01 = det2(c2, c3, d2, d3);
        let n02 = det2(c1, c3, d1, d3);
        let n03 = det2(c1, c2, d1, d2);
        let n11 = det2(b2, b3, d2, d3);
        let n12 = det2(b1, b3, d1, d3);
        let n13 = det2(b1, b2, d1, d2);
        let n21 = det2(b2, b3, c2, c3);
        let n22 = det2(b1, b3, c1, c3);
        let n23 = det2(b1, b2, c1, c2);
        lemma_exchange(a1, a2, a3, b0, c0, d0, n01, n02, n03, n11, n12, n13, n21, n22, n23);
        let e0 = det3(b1, b2, b3, c1, c2, c3, d1, d2, d3);
        let e1 = det3(b0, b2, b3, c0, c2, c3, d0, d2, d3);
        let e2 = det3(b0, b1, b3, c0, c1, c3, d0, d1, d3);
        let e3 = det3(b0, b1, b2, c0, c1, c2, d0, d1, d2);
        assert(e1 == b0 * n01 - c0 * n11 + d0 * n21);
        assert(e2 == b0 * n02 - c0 * n12 + d0 * n22);
        assert(e3 == b0 * n03 - c0 * n13 + d0 * n23);
        lemma_expand3(a1, a2, a3, c1, c2, c3, d1, d2, d3);
        let g0 = a1 * n01 - a2 * n02 + a3 * n03;
        let f0 = det3(a1, a2, a3, c1, c2, c3, d1, d2, d3);
        assert(f0 == g0);
        lemma_expand3(a1, a2, a3, b1, b2, b3, d1, d2, d3);
        let g1 = a1 * n11 - a2 * n12 + a3 * n13;
        let f1 = det3(a1, a2, a3, b1, b2, b3, d1, d2, d3);
        assert(f1 == g1);
        lemma_expand3(a1, a2, a3, b1, b2, b3, c1, c2, c3);
        let g2 = a1 * n21 - a2 * n22 + a3 * n23;
        let f2 = det3(a1, a2, a3, b1, b2, b3, c1, c2, c3);
        assert(f2 == g2);
        assert(expand4(a0, a1, a2, a3, b0, b1, b2, b3, c0, c1, c2, c3, d0, d1, d2, d3)
            == a0 * e0 - a1 * e1 + a2 * e2 - a3 * e3);
        assert(det == a0 * e0 - b0 * f0 + c0 * f1 - d0 * f2);
    }
    assert(expand4(b0, b1, b2, b3, a0, a1, a2, a3, c0, c1, c2, c3, d0, d1, d2, d3) == -det) by {
        let n01 = det2(c2, c3, d2, d3);
        let n02 = det2(c1, c3, d1, d3);
        let n03 = det2(c1, c2, d1, d2);
        let n11 = det2(a2, a3, d2, d3);
        let n12 = det2(a1, a3, d1, d3);
        let n13 = det2(a1, a2, d1, d2);
        let n21 = det2(a2, a3, c2, c3);
        let n22 = det2(a1, a3, c1, c3);
        let n23 = det2(a1, a2, c1, c2);
        lemma_exchange(b1, b2, b3, a0, c0, d0, n01, n02, n03, n11, n12, n13, n21, n22, n23);
        let e0 = det3(a1, a2, a3, c1, c2, c3, d1, d2, d3);
        let e1 = det3(a0, a2, a3, c0, c2, c3, d0, d2, d3);
        let e2 = det3(a0, a1, a3, c0, c1, c3, d0, d1, d3);
        let e3 = det3(a0, a1, a2, c0, c1, c2, d0, d1, d2);
        assert(e1 == a0 * n01 - c0 * n11 + d0 * n21);
        assert(e2 == a0 * n02 - c0 * n12 + d0 * n22);
        assert(e3 == a0 * n03 - c0 * n13 + d0 * n23);
        lemma_expand3(b1, b2, b3, c1, c2, c3, d1, d2, d3);
        let g0 = b1 * n01 - b2 * n02 + b3 * n03;
        let f0 = det3(b1, b2, b3, c1, c2, c3, d1, d2, d3);
        assert(f0 == g0);
        lemma_expand3(a1, a2, a3, b1, b2, b3, d1, d2, d3);
        let g1 = b1 * n11 - b2 * n12 + b3 * n13;
        let f1 = det3(a1, a2, a3, b1, b2, b3, d1, d2, d3);
        assert(f1 == -g1);
        assert(c0 * (-g1) == -(c0 * g1)) by (nonlinear_arith);
        lemma_expand3(a1, a2, a3, b1, b2, b3, c1, c2, c3);
        let g2 = b1 * n21 - b2 * n22 + b3 * n23;
        let f2 = det3(a1, a2, a3, b1, b2, b3, c1, c2, c3);
        assert(f2 == -g2);
        assert(d0 * (-g2) == -(d0 * g2)) by (nonlinear_arith);
        assert(expand4(b0, b1, b2, b3, a0, a1, a2, a3, c0, c1, c2, c3, d0, d1, d2, d3)
            == b0 * e0 - b1 * e1 + b2 * e2 - b3 * e3);
        assert(det == a0 * f0 - b0 * e0 + c0 * f1 - d0 * f2);
    }
    assert(expand4(c0, c1, c2, c3, a0, a1, a2, a3, b0, b1, b2, b3, d0, d1, d2, d3) == det) by {
        let n01 = det2(b2, b3, d2, d3);
        let n02 = det2(b1, b3, d1, d3);
        let n03 = det2(b1, b2, d1, d2);
        let n11 = det2(a2, a3, d2, d3);
        let n12 = det2(a1, a3, d1, d3);
        let n13 = det2(a1, a2, d1, d2);
        let n21 = det2(a2, a3, b2, b3);
        let n22 = det2(a1, a3, b1, b3);
        let n23 = det2(a1, a2, b1, b2);
        lemma_exchange(c1, c2, c3, a0, b0, d0, n01, n02, n03, n11, n12, n13, n21, n22, n23);
        let e0 = det3(a1, a2, a3, b1, b2, b3, d1, d2, d3);
        let e1 = det3(a0, a2, a3, b0, b2, b3, d0, d2, d3);
        let e2 = det3(a0, a1, a3, b0, b1, b3, d0, d1, d3);
        let e3 = det3(a0, a1, a2, b0, b1, b2, d0, d1, d2);
        assert(e1 == a0 * n01 - b0 * n11 + d0 * n21);
        assert(e2 == a0 * n02 - b0 * n12 + d0 * n22);
        assert(e3 == a0 * n03 - b0 * n13 + d0 * n23);
        lemma_expand3(b1, b2, b3, c1, c2, c3, d1, d2, d3);
        let g0 = c1 * n01 - c2 * n02 + c3 * n03;
        let f0 = det3(b1, b2, b3, c1, c2, c3, d1, d2, d3);
        assert(f0 == -g0);
        assert(a0 * (-g0) == -(a0 * g0)) by (nonlinear_arith);
        lemma_expand3(a1, a2, a3, c1, c2, c3, d1, d2, d3);
        let g1 = c1 * n11 - c2 * n12 + c3 * n13;
        let f1 = det3(a1, a2, a3, c1, c2, c3, d1, d2, d3);
        assert(f1 == -g1);
        assert(b0 * (-g1) == -(b0 * g1)) by (nonlinear_arith);
        lemma_expand3(a1, a2, a3, b1, b2, b3, c1, c2, c3);
        let g2 = c1 * n21 - c2 * n22 + c3 * n23;
        let f2 = det3(a1, a2, a3, b1, b2, b3, c1, c2, c3);
        assert(f2 == g2);
        assert(expand4(c0, c1, c2, c3, a0, a1, a2, a3, b0, b1, b2, b3, d0, d1, d2, d3)
            == c0 * e0 - c1 * e1 + c2 * e2 - c3 * e3);
        assert(det == a0 * f0 - b0 * f1 + c0 * e0 - d0 * f2);
    }
    assert(expand4(d0, d1, d2, d3, a0, a1, a2, a3, b0, b1, b2, b3, c0, c1, c2, c3) == -det) by {
        let n01 = det2(b2, b3, c2, c3);
        let n02 = det2(b1, b3, c1, c3);
        let n03 = det2(b1, b2, c1, c2);
        let n11 = det2(a2, a3, c2, c3);
        let n12 = det2(a1, a3, c1, c3);
        let n13 = det2(a1, a2, c1, c2);
        let n21 = det2(a2, a3, b2, b3);
        let n22 = det2(a1, a3, b1, b3);
        let n23 = det2(a1, a2, b1, b2);
        lemma_exchange(d1, d2, d3, a0, b0, c0, n01, n02, n03, n11, n12, n13, n21, n22, n23);
        let e0 = det3(a1, a2, a3, b1, b2, b3, c1, c2, c3);
        let e1 = det3(a0, a2, a3, b0, b2, b3, c0, c2, c3);
        let e2 = det3(a0, a1, a3, b0, b1, b3, c0, c1, c3);
        let e3 = det3(a0, a1, a2, b0, b1, b2, c0, c1, c2);
        assert(e1 == a0 * n01 - b0 * n11 + c0 * n21);
        assert(e2 == a0 * n02 - b0 * n12 + c0 * n22);
        assert(e3 == a0 * n03 - b0 * n13 + c0 * n23);
        lemma_expand3(b1, b2, b3, c1, c2, c3, d1, d2, d3);
        let g0 = d1 * n01 - d2 * n02 + d3 * n03;
        let f0 = det3(b1, b2, b3, c1, c2, c3, d1, d2, d3);
        assert(f0 == g0);
        lemma_expand3(a1, a2, a3, c1, c2, c3, d1, d2, d3);
        let g1 = d1 * n11 - d2 * n12 + d3 * n13;
        let f1 = det3(a1, a2, a3, c1, c2, c3, d1, d2, d3);
        assert(f1 == g1);
        lemma_expand3(a1, a2, a3, b1, b2, b3, d1, d2, d3);
        let g2 = d1 * n21 - d2 * n22 + d3 * n23;
        let f2 = det3(a1, a2, a3, b1, b2, b3, d1, d2, d3);
        assert(f2 == g2);
        assert(expand4(d0, d1, d2, d3, a0, a1, a2, a3, b0, b1, b2, b3, c0, c1, c2, c3)
            == d0 * e0 - d1 * e1 + d2 * e2 - d3 * e3);
        assert(det == a0 * f0 - b0 * f1 + c0 * f2 - d0 * e0);
    }
}

} // verus!
