//! Matrices of whole numbers: their cofactors and determinants are exact,
//! and equal those of the integer matrices that they stand for.

use crate::adjugate::det2;
use crate::adjugate::det3;
use crate::adjugate::det4;
use crate::adjugate::expand4;
use crate::adjugate::lemma_expand3;
use crate::matrix2::Matrix2;
use crate::matrix3::skip3;
use crate::matrix3::Matrix3;
use crate::matrix4::skip4;
use crate::matrix4::Matrix4;
use crate::expansion::lemma_expand4_repeated;
use crate::expansion::lemma_expand4_rows;
use crate::scalar::Scalar;
use crate::whole::lemma_whole_add;
use crate::whole::lemma_whole_constants;
use crate::whole::lemma_whole_mul;
use crate::whole::lemma_whole_neg;
use vstd::prelude::*;

verus! {

/// Largest magnitude of an entry for which the determinant of a matrix of
/// up to four rows is certain to stay in range.
pub open spec fn entry_limit() -> int {
    100
}

impl Matrix2 {
    /// Every entry is a whole number of magnitude at most `bound`.
    pub open spec fn whole_within(self, bound: int) -> bool {
        forall|i: int, j: int|
            0 <= i < 2 && 0 <= j < 2 ==> (#[trigger] self.at(i, j)).whole_within(bound)
    }

    /// The entry in row `i`, column `j`, as an integer.
    pub open spec fn units(self, i: int, j: int) -> int {
        self.at(i, j).units()
    }

    /// The cofactor of the integer matrix.
    pub open spec fn int_cofactor(self, row: int, col: int) -> int {
        if (row + col) % 2 == 0 {
            self.units(1 - row, 1 - col)
        } else {
            -self.units(1 - row, 1 - col)
        }
    }

    /// The determinant of the integer matrix, expanded along the first
    /// column.
    pub open spec fn int_determinant(self) -> int {
        self.units(0, 0) * self.int_cofactor(0, 0) + self.units(1, 0) * self.int_cofactor(1, 0)
    }

    /// The cofactors of a matrix of whole numbers are those of the integer
    /// matrix.
    pub proof fn lemma_exact_cofactor(self, row: int, col: int, bound: int)
        requires
            self.whole_within(bound),
            0 <= bound <= entry_limit(),
            0 <= row < 2,
            0 <= col < 2,
        ensures
            self.spec_cofactor(row, col).whole_within(bound),
            self.spec_cofactor(row, col).units() == self.int_cofactor(row, col),
    {
        let minor = self.at(1 - row, 1 - col);
        assert(minor.whole_within(bound));
        lemma_whole_neg(minor, bound);
    }

    /// The determinant of a matrix of whole numbers is that of the integer
    /// matrix.
    pub proof fn lemma_exact_determinant(self, bound: int)
        requires
            self.whole_within(bound),
            0 <= bound <= entry_limit(),
        ensures
            self.spec_determinant().whole_within(2 * bound * bound),
            self.spec_determinant().units() == self.int_determinant(),
    {
        reveal_with_fuel(Matrix2::spec_expansion, 3);
        lemma_whole_constants();
        self.lemma_exact_cofactor(0, 0, bound);
        self.lemma_exact_cofactor(1, 0, bound);
        let a = self.at(0, 0);
        let b = self.at(1, 0);
        let ca = self.spec_cofactor(0, 0);
        let cb = self.spec_cofactor(1, 0);
        assert(a.whole_within(bound) && b.whole_within(bound));
        let bb = bound * bound;
        assert(0 <= bb <= 10_000) by (nonlinear_arith)
            requires
                0 <= bound <= 100,
                bb == bound * bound,
        ;
        assert(-bb <= a.units() * ca.units() <= bb) by (nonlinear_arith)
            requires
                -bound <= a.units() <= bound,
                -bound <= ca.units() <= bound,
                bb == bound * bound,
        ;
        assert(-bb <= b.units() * cb.units() <= bb) by (nonlinear_arith)
            requires
                -bound <= b.units() <= bound,
                -bound <= cb.units() <= bound,
                bb == bound * bound,
        ;
        lemma_whole_mul(a, ca, bb);
        lemma_whole_mul(b, cb, bb);
        let first = Scalar::spec_zero().spec_add(a.spec_mul(ca));
        lemma_whole_add(Scalar::spec_zero(), a.spec_mul(ca), bb);
        lemma_whole_add(first, b.spec_mul(cb), 2 * bb);
        assert(2 * bound * bound == 2 * bb) by (nonlinear_arith)
            requires
                bb == bound * bound,
        ;
    }
}

impl Matrix2 {
    /// The determinant of the integer matrix as a polynomial of its entries.
    pub proof fn lemma_int_determinant(self)
        ensures
            self.int_determinant() == det2(
                self.units(0, 0),
                self.units(0, 1),
                self.units(1, 0),
                self.units(1, 1),
            ),
    {
        assert(self.units(1, 0) * (-self.units(0, 1)) == -(self.units(1, 0) * self.units(0, 1)))
            by (nonlinear_arith);
    }
}

impl Matrix3 {
    /// Every entry is a whole number of magnitude at most `bound`.
    pub open spec fn whole_within(self, bound: int) -> bool {
        forall|i: int, j: int|
            0 <= i < 3 && 0 <= j < 3 ==> (#[trigger] self.at(i, j)).whole_within(bound)
    }

    /// The entry in row `i`, column `j`, as an integer.
    pub open spec fn units(self, i: int, j: int) -> int {
        self.at(i, j).units()
    }

    /// The cofactor of the integer matrix.
    pub open spec fn int_cofactor(self, row: int, col: int) -> int {
        if (row + col) % 2 == 0 {
            self.spec_submatrix(row, col).int_determinant()
        } else {
            -self.spec_submatrix(row, col).int_determinant()
        }
    }

    /// The determinant of the integer matrix, expanded along the first
    /// column.
    pub open spec fn int_determinant(self) -> int {
        self.units(0, 0) * self.int_cofactor(0, 0) + self.units(1, 0) * self.int_cofactor(1, 0)
            + self.units(2, 0) * self.int_cofactor(2, 0)
    }

    /// The cofactors of a matrix of small whole numbers are those of the
    /// integer matrix.
    pub proof fn lemma_exact_cofactor(self, row: int, col: int)
        requires
            self.whole_within(entry_limit()),
            0 <= row < 3,
            0 <= col < 3,
        ensures
            self.spec_cofactor(row, col).whole_within(20_000),
            self.spec_cofactor(row, col).units() == self.int_cofactor(row, col),
    {
        reveal(Matrix3::spec_minor);
        let sub = self.spec_submatrix(row, col);
        assert forall|i: int, j: int| 0 <= i < 2 && 0 <= j < 2 implies (#[trigger] sub.at(
            i,
            j,
        )).whole_within(entry_limit()) by {
            assert(sub.at(i, j) == self.at(skip3(i, row), skip3(j, col)));
        }
        sub.lemma_exact_determinant(entry_limit());
        lemma_whole_neg(sub.spec_determinant(), 20_000);
    }

    /// The determinant of a matrix of small whole numbers is that of the
    /// integer matrix.
    pub proof fn lemma_exact_determinant(self)
        requires
            self.whole_within(entry_limit()),
        ensures
            self.spec_determinant().whole_within(6_000_000),
            self.spec_determinant().units() == self.int_determinant(),
    {
        reveal_with_fuel(Matrix3::spec_expansion, 4);
        lemma_whole_constants();
        self.lemma_exact_cofactor(0, 0);
        self.lemma_exact_cofactor(1, 0);
        self.lemma_exact_cofactor(2, 0);
        let a = self.at(0, 0);
        let b = self.at(1, 0);
        let c = self.at(2, 0);
        let ca = self.spec_cofactor(0, 0);
        let cb = self.spec_cofactor(1, 0);
        let cc = self.spec_cofactor(2, 0);
        assert(a.whole_within(100) && b.whole_within(100) && c.whole_within(100));
        lemma_product_bound(a.units(), 100, ca.units(), 20_000);
        lemma_product_bound(b.units(), 100, cb.units(), 20_000);
        lemma_product_bound(c.units(), 100, cc.units(), 20_000);
        lemma_whole_mul(a, ca, 2_000_000);
        lemma_whole_mul(b, cb, 2_000_000);
        lemma_whole_mul(c, cc, 2_000_000);
        let s1 = Scalar::spec_zero().spec_add(a.spec_mul(ca));
        lemma_whole_add(Scalar::spec_zero(), a.spec_mul(ca), 2_000_000);
        let s2 = s1.spec_add(b.spec_mul(cb));
        lemma_whole_add(s1, b.spec_mul(cb), 4_000_000);
        lemma_whole_add(s2, c.spec_mul(cc), 6_000_000);
    }

    /// The determinant of the integer matrix as a polynomial of its entries.
    pub proof fn lemma_int_determinant(self)
        ensures
            self.int_determinant() == det3(
                self.units(0, 0),
                self.units(0, 1),
                self.units(0, 2),
                self.units(1, 0),
                self.units(1, 1),
                self.units(1, 2),
                self.units(2, 0),
                self.units(2, 1),
                self.units(2, 2),
            ),
    {
        self.lemma_int_cofactor(0, 0);
        self.lemma_int_cofactor(1, 0);
        self.lemma_int_cofactor(2, 0);
        let b = self.units(1, 0);
        let x = self.spec_submatrix(1, 0).int_determinant();
        assert(b * (-x) == -(b * x)) by (nonlinear_arith);
    }

    /// A cofactor of the integer matrix as a polynomial of its entries.
    pub proof fn lemma_int_cofactor(self, row: int, col: int)
        requires
            0 <= row < 3,
            0 <= col < 3,
        ensures
            self.spec_submatrix(row, col).int_determinant() == det2(
                self.units(skip3(0, row), skip3(0, col)),
                self.units(skip3(0, row), skip3(1, col)),
                self.units(skip3(1, row), skip3(0, col)),
                self.units(skip3(1, row), skip3(1, col)),
            ),
    {
        let sub = self.spec_submatrix(row, col);
        sub.lemma_int_determinant();
        assert(sub.at(0, 0) == self.at(skip3(0, row), skip3(0, col)));
        assert(sub.at(0, 1) == self.at(skip3(0, row), skip3(1, col)));
        assert(sub.at(1, 0) == self.at(skip3(1, row), skip3(0, col)));
        assert(sub.at(1, 1) == self.at(skip3(1, row), skip3(1, col)));
    }

    /// Row `i` against the cofactors of row `j`: the determinant when the
    /// rows are the same, zero when they differ.
    pub proof fn lemma_adjugate(self, i: int, j: int)
        requires
            0 <= i < 3,
            0 <= j < 3,
        ensures
            self.units(i, 0) * self.int_cofactor(j, 0) + self.units(i, 1) * self.int_cofactor(j, 1)
                + self.units(i, 2) * self.int_cofactor(j, 2) == if i == j {
                self.int_determinant()
            } else {
                0
            },
    {
        let a0 = self.units(0, 0);
        let a1 = self.units(0, 1);
        let a2 = self.units(0, 2);
        let b0 = self.units(1, 0);
        let b1 = self.units(1, 1);
        let b2 = self.units(1, 2);
        let c0 = self.units(2, 0);
        let c1 = self.units(2, 1);
        let c2 = self.units(2, 2);
        self.lemma_int_determinant();
        self.lemma_int_cofactor(j, 0);
        self.lemma_int_cofactor(j, 1);
        self.lemma_int_cofactor(j, 2);
        lemma_expand3(a0, a1, a2, b0, b1, b2, c0, c1, c2);
        lemma_expand3(b0, b1, b2, a0, a1, a2, c0, c1, c2);
        lemma_expand3(c0, c1, c2, a0, a1, a2, b0, b1, b2);
        let x0 = self.units(i, 0);
        let x1 = self.units(i, 1);
        let x2 = self.units(i, 2);
        let m0 = self.spec_submatrix(j, 0).int_determinant();
        let m1 = self.spec_submatrix(j, 1).int_determinant();
        let m2 = self.spec_submatrix(j, 2).int_determinant();
        assert(x0 * (-m0) == -(x0 * m0)) by (nonlinear_arith);
        assert(x1 * (-m1) == -(x1 * m1)) by (nonlinear_arith);
        assert(x2 * (-m2) == -(x2 * m2)) by (nonlinear_arith);
    }
}

impl Matrix4 {
    /// Every entry is a whole number of magnitude at most `bound`.
    pub open spec fn whole_within(self, bound: int) -> bool {
        forall|i: int, j: int|
            0 <= i < 4 && 0 <= j < 4 ==> (#[trigger] self.at(i, j)).whole_within(bound)
    }

    /// The entry in row `i`, column `j`, as an integer.
    pub open spec fn units(self, i: int, j: int) -> int {
        self.at(i, j).units()
    }

    /// The cofactor of the integer matrix.
    pub open spec fn int_cofactor(self, row: int, col: int) -> int {
        if (row + col) % 2 == 0 {
            self.spec_submatrix(row, col).int_determinant()
        } else {
            -self.spec_submatrix(row, col).int_determinant()
        }
    }

    /// The determinant of the integer matrix, expanded along the first
    /// column.
    pub open spec fn int_determinant(self) -> int {
        self.units(0, 0) * self.int_cofactor(0, 0) + self.units(1, 0) * self.int_cofactor(1, 0)
            + self.units(2, 0) * self.int_cofactor(2, 0) + self.units(3, 0) * self.int_cofactor(
            3,
            0,
        )
    }

    /// The cofactors of a matrix of small whole numbers are those of the
    /// integer matrix.
    pub proof fn lemma_exact_cofactor(self, row: int, col: int)
        requires
            self.whole_within(entry_limit()),
            0 <= row < 4,
            0 <= col < 4,
        ensures
            self.spec_cofactor(row, col).whole_within(6_000_000),
            self.spec_cofactor(row, col).units() == self.int_cofactor(row, col),
    {
        reveal(Matrix4::spec_minor);
        let sub = self.spec_submatrix(row, col);
        assert forall|i: int, j: int| 0 <= i < 3 && 0 <= j < 3 implies (#[trigger] sub.at(
            i,
            j,
        )).whole_within(entry_limit()) by {
            assert(sub.at(i, j) == self.at(skip4(i, row), skip4(j, col)));
        }
        sub.lemma_exact_determinant();
        lemma_whole_neg(sub.spec_determinant(), 6_000_000);
    }

    /// The determinant of a matrix of small whole numbers is that of the
    /// integer matrix.
    pub proof fn lemma_exact_determinant(self)
        requires
            self.whole_within(entry_limit()),
        ensures
            self.spec_determinant().whole_within(2_400_000_000),
            self.spec_determinant().units() == self.int_determinant(),
    {
        reveal_with_fuel(Matrix4::spec_expansion, 5);
        lemma_whole_constants();
        self.lemma_exact_cofactor(0, 0);
        self.lemma_exact_cofactor(1, 0);
        self.lemma_exact_cofactor(2, 0);
        self.lemma_exact_cofactor(3, 0);
        let a = self.at(0, 0);
        let b = self.at(1, 0);
        let c = self.at(2, 0);
        let d = self.at(3, 0);
        let ca = self.spec_cofactor(0, 0);
        let cb = self.spec_cofactor(1, 0);
        let cc = self.spec_cofactor(2, 0);
        let cd = self.spec_cofactor(3, 0);
        assert(a.whole_within(100) && b.whole_within(100) && c.whole_within(100) && d.whole_within(
            100,
        ));
        lemma_product_bound(a.units(), 100, ca.units(), 6_000_000);
        lemma_product_bound(b.units(), 100, cb.units(), 6_000_000);
        lemma_product_bound(c.units(), 100, cc.units(), 6_000_000);
        lemma_product_bound(d.units(), 100, cd.units(), 6_000_000);
        lemma_whole_mul(a, ca, 600_000_000);
        lemma_whole_mul(b, cb, 600_000_000);
        lemma_whole_mul(c, cc, 600_000_000);
        lemma_whole_mul(d, cd, 600_000_000);
        let s1 = Scalar::spec_zero().spec_add(a.spec_mul(ca));
        lemma_whole_add(Scalar::spec_zero(), a.spec_mul(ca), 600_000_000);
        let s2 = s1.spec_add(b.spec_mul(cb));
        lemma_whole_add(s1, b.spec_mul(cb), 1_200_000_000);
        let s3 = s2.spec_add(c.spec_mul(cc));
        lemma_whole_add(s2, c.spec_mul(cc), 1_800_000_000);
        lemma_whole_add(s3, d.spec_mul(cd), 2_400_000_000);
    }

    /// A minor of the integer matrix as a polynomial of its entries.
    pub proof fn lemma_int_minor(self, row: int, col: int)
        requires
            0 <= row < 4,
            0 <= col < 4,
        ensures
            self.spec_submatrix(row, col).int_determinant() == det3(
                self.units(skip4(0, row), skip4(0, col)),
                self.units(skip4(0, row), skip4(1, col)),
                self.units(skip4(0, row), skip4(2, col)),
                self.units(skip4(1, row), skip4(0, col)),
                self.units(skip4(1, row), skip4(1, col)),
                self.units(skip4(1, row), skip4(2, col)),
                self.units(skip4(2, row), skip4(0, col)),
                self.units(skip4(2, row), skip4(1, col)),
                self.units(skip4(2, row), skip4(2, col)),
            ),
    {
        let sub = self.spec_submatrix(row, col);
        sub.lemma_int_determinant();
        assert forall|i: int, j: int| 0 <= i < 3 && 0 <= j < 3 implies #[trigger] sub.units(i, j)
            == self.units(skip4(i, row), skip4(j, col)) by {
            assert(sub.at(i, j) == self.at(skip4(i, row), skip4(j, col)));
        }
    }

    /// The determinant of the integer matrix as a polynomial of its entries.
    pub proof fn lemma_int_determinant(self)
        ensures
            self.int_determinant() == det4(
                self.units(0, 0),
                self.units(0, 1),
                self.units(0, 2),
                self.units(0, 3),
                self.units(1, 0),
                self.units(1, 1),
                self.units(1, 2),
                self.units(1, 3),
                self.units(2, 0),
                self.units(2, 1),
                self.units(2, 2),
                self.units(2, 3),
                self.units(3, 0),
                self.units(3, 1),
                self.units(3, 2),
                self.units(3, 3),
            ),
    {
        self.lemma_int_minor(0, 0);
        self.lemma_int_minor(1, 0);
        self.lemma_int_minor(2, 0);
        self.lemma_int_minor(3, 0);
        let b = self.units(1, 0);
        let x = self.spec_submatrix(1, 0).int_determinant();
        assert(b * (-x) == -(b * x)) by (nonlinear_arith);
        let d = self.units(3, 0);
        let y = self.spec_submatrix(3, 0).int_determinant();
        assert(d * (-y) == -(d * y)) by (nonlinear_arith);
    }

    /// Row `i` against the cofactors of row `j`: the determinant when the
    /// rows are the same, zero when they differ.
    pub proof fn lemma_adjugate(self, i: int, j: int)
        requires
            0 <= i < 4,
            0 <= j < 4,
        ensures
            self.units(i, 0) * self.int_cofactor(j, 0) + self.units(i, 1) * self.int_cofactor(j, 1)
                + self.units(i, 2) * self.int_cofactor(j, 2) + self.units(i, 3)
                * self.int_cofactor(j, 3) == if i == j {
                self.int_determinant()
            } else {
                0
            },
    {
        let a0 = self.units(0, 0);
        let a1 = self.units(0, 1);
        let a2 = self.units(0, 2);
        let a3 = self.units(0, 3);
        let b0 = self.units(1, 0);
        let b1 = self.units(1, 1);
        let b2 = self.units(1, 2);
        let b3 = self.units(1, 3);
        let c0 = self.units(2, 0);
        let c1 = self.units(2, 1);
        let c2 = self.units(2, 2);
        let c3 = self.units(2, 3);
        let d0 = self.units(3, 0);
        let d1 = self.units(3, 1);
        let d2 = self.units(3, 2);
        let d3 = self.units(3, 3);
        self.lemma_int_determinant();
        self.lemma_int_minor(j, 0);
        self.lemma_int_minor(j, 1);
        self.lemma_int_minor(j, 2);
        self.lemma_int_minor(j, 3);
        lemma_expand4_rows(a0, a1, a2, a3, b0, b1, b2, b3, c0, c1, c2, c3, d0, d1, d2, d3);
        let x0 = self.units(i, 0);
        let x1 = self.units(i, 1);
        let x2 = self.units(i, 2);
        let x3 = self.units(i, 3);
        let m0 = self.spec_submatrix(j, 0).int_determinant();
        let m1 = self.spec_submatrix(j, 1).int_determinant();
        let m2 = self.spec_submatrix(j, 2).int_determinant();
        let m3 = self.spec_submatrix(j, 3).int_determinant();
        assert(x0 * (-m0) == -(x0 * m0)) by (nonlinear_arith);
        assert(x1 * (-m1) == -(x1 * m1)) by (nonlinear_arith);
        assert(x2 * (-m2) == -(x2 * m2)) by (nonlinear_arith);
        assert(x3 * (-m3) == -(x3 * m3)) by (nonlinear_arith);
        if j == 0 {
            lemma_expand4_repeated(b0, b1, b2, b3, c0, c1, c2, c3, d0, d1, d2, d3);
            assert(x0 * m0 - x1 * m1 + x2 * m2 - x3 * m3 == expand4(
                x0, x1, x2, x3, b0, b1, b2, b3, c0, c1, c2, c3, d0, d1, d2, d3,
            ));
        } else if j == 1 {
            lemma_expand4_repeated(a0, a1, a2, a3, c0, c1, c2, c3, d0, d1, d2, d3);
            assert(x0 * m0 - x1 * m1 + x2 * m2 - x3 * m3 == expand4(
                x0, x1, x2, x3, a0, a1, a2, a3, c0, c1, c2, c3, d0, d1, d2, d3,
            ));
        } else if j == 2 {
            lemma_expand4_repeated(a0, a1, a2, a3, b0, b1, b2, b3, d0, d1, d2, d3);
            assert(x0 * m0 - x1 * m1 + x2 * m2 - x3 * m3 == expand4(
                x0, x1, x2, x3, a0, a1, a2, a3, b0, b1, b2, b3, d0, d1, d2, d3,
            ));
        } else {
            lemma_expand4_repeated(a0, a1, a2, a3, b0, b1, b2, b3, c0, c1, c2, c3);
            assert(x0 * m0 - x1 * m1 + x2 * m2 - x3 * m3 == expand4(
                x0, x1, x2, x3, a0, a1, a2, a3, b0, b1, b2, b3, c0, c1, c2, c3,
            ));
        }
    }
}

/// The product of two bounded integers is bounded by the product of the
/// bounds.
pub proof fn lemma_product_bound(x: int, bx: int, y: int, by: int)
    requires
        -bx <= x <= bx,
        -by <= y <= by,
    ensures
        -(bx * by) <= x * y <= bx * by,
{
    assert(-(bx * by) <= x * y <= bx * by) by (nonlinear_arith)
        requires
            -bx <= x <= bx,
            -by <= y <= by,
    ;
}

} // verus!
