//! Two-by-two matrices.

use crate::scalar::Scalar;
use crate::tuple2::Tuple2;
use vstd::prelude::*;
use vstd::std_specs::cmp::PartialEqSpecImpl;
use vstd::std_specs::ops::MulSpecImpl;

verus! {

/// A 2x2 matrix, stored by rows.
#[derive(Debug, Clone, Copy)]
pub struct Matrix2 {
    pub data: [Tuple2; 2],
}

impl Matrix2 {
    /// Every entry is inside the symmetric range.
    pub open spec fn wf(self) -> bool {
        forall|i: int| 0 <= i < 2 ==> (#[trigger] self.data[i]).wf()
    }

    /// The entry in row `i`, column `j`.
    pub open spec fn at(self, i: int, j: int) -> Scalar {
        self.data[i].component(j)
    }

    /// Column `j` as a tuple.
    pub open spec fn col(self, j: int) -> Tuple2 {
        Tuple2 { x: self.at(0, j), y: self.at(1, j) }
    }

    /// The matrix of zeros.
    pub open spec fn spec_zeroes() -> Matrix2 {
        Matrix2 { data: [Tuple2::spec_zero(), Tuple2::spec_zero()] }
    }

    /// The identity: ones on the diagonal, zeros elsewhere.
    pub open spec fn spec_eye() -> Matrix2 {
        Matrix2 { data: [Tuple2::spec_unit(0), Tuple2::spec_unit(1)] }
    }

    /// Rows and columns exchanged.
    pub open spec fn spec_transpose(self) -> Matrix2 {
        Matrix2 { data: [self.col(0), self.col(1)] }
    }

    /// Matrix product: entry `(i, j)` is row `i` of `self` dotted with
    /// column `j` of `rhs`.
    pub open spec fn spec_mul(self, rhs: Matrix2) -> Matrix2 {
        Matrix2 { data: [self.spec_mul_row(0, rhs), self.spec_mul_row(1, rhs)] }
    }

    /// Row `i` of the product with `rhs`.
    pub open spec fn spec_mul_row(self, i: int, rhs: Matrix2) -> Tuple2 {
        Tuple2 { x: self.data[i].spec_dot(rhs.col(0)), y: self.data[i].spec_dot(rhs.col(1)) }
    }

    /// Product with a column tuple: component `i` is row `i` dotted with
    /// `rhs`.
    pub open spec fn spec_mul_tuple(self, rhs: Tuple2) -> Tuple2 {
        Tuple2 { x: self.data[0].spec_dot(rhs), y: self.data[1].spec_dot(rhs) }
    }

    /// What is left when `row` and `col` are removed: one entry.
    pub open spec fn spec_submatrix(self, row: int, col: int) -> Scalar {
        self.at(1 - row, 1 - col)
    }

    /// Determinant of the submatrix; here the submatrix itself.
    pub open spec fn spec_minor(self, row: int, col: int) -> Scalar {
        self.spec_submatrix(row, col)
    }

    /// The minor, negated when `row + col` is odd.
    pub open spec fn spec_cofactor(self, row: int, col: int) -> Scalar {
        if (row + col) % 2 == 0 {
            self.spec_minor(row, col)
        } else {
            self.spec_minor(row, col).spec_neg()
        }
    }

    /// Sum over the first `k` rows of the first-column entry times its
    /// cofactor.
    pub open spec fn spec_expansion(self, k: nat) -> Scalar
        decreases k,
    {
        if k == 0 {
            Scalar::spec_zero()
        } else {
            self.spec_expansion((k - 1) as nat).spec_add(
                self.at(k - 1, 0).spec_mul(self.spec_cofactor(k - 1, 0)),
            )
        }
    }

    /// Cofactor expansion along the first column.
    pub open spec fn spec_determinant(self) -> Scalar {
        self.spec_expansion(2)
    }

    /// The determinant is not exactly zero.
    pub open spec fn spec_is_invertible(self) -> bool {
        self.spec_determinant() != Scalar::spec_zero()
    }

    /// Row `i` of the adjugate divided by `d`: entry `j` is the cofactor
    /// `(j, i)` over `d`.
    pub open spec fn spec_inverse_row(self, i: int, d: Scalar) -> Tuple2 {
        Tuple2 { x: self.spec_cofactor(0, i).spec_div(d), y: self.spec_cofactor(1, i).spec_div(d) }
    }

    /// The transposed cofactor matrix divided by the determinant; nothing
    /// when the determinant is zero.
    pub open spec fn spec_inverse(self) -> Option<Matrix2> {
        if self.spec_is_invertible() {
            let d = self.spec_determinant();
            Some(Matrix2 { data: [self.spec_inverse_row(0, d), self.spec_inverse_row(1, d)] })
        } else {
            None
        }
    }

    /// Every pair of matching entries is equal within the tolerance.
    pub open spec fn approx_eq(self, rhs: Matrix2) -> bool {
        forall|i: int| 0 <= i < 2 ==> (#[trigger] self.data[i]).approx_eq(rhs.data[i])
    }

    /// Matrices with the same entries are the same matrix.
    pub proof fn lemma_eq_by_entries(self, other: Matrix2)
        requires
            forall|i: int, j: int|
                0 <= i < 2 && 0 <= j < 2 ==> #[trigger] self.at(i, j) == other.at(i, j),
        ensures
            self == other,
    {
        assert forall|i: int| 0 <= i < 2 implies self.data[i] == other.data[i] by {
            assert(self.at(i, 0) == other.at(i, 0));
            assert(self.at(i, 1) == other.at(i, 1));
        }
        assert(self.data =~= other.data);
    }

    /// The matrix with the rows of `data`.
    pub fn from_array(data: [[Scalar; 2]; 2]) -> (r: Matrix2)
        ensures
            forall|i: int, j: int| 0 <= i < 2 && 0 <= j < 2 ==> r.at(i, j) == data[i][j],
    {
        Matrix2 { data: [Tuple2::from_array(data[0]), Tuple2::from_array(data[1])] }
    }

    /// The matrix of zeros.
    pub fn zeroes() -> (r: Matrix2)
        ensures
            r == Matrix2::spec_zeroes(),
    {
        let zero = Tuple2::default();
        let r = Matrix2 { data: [zero, zero] };
        assert(r.data =~= Matrix2::spec_zeroes().data);
        r
    }

    /// The identity matrix.
    pub fn eye() -> (r: Matrix2)
        ensures
            r == Matrix2::spec_eye(),
    {
        let mut m = Matrix2::zeroes();
        for i in 0..2usize
            invariant
                forall|a: int, b: int|
                    0 <= a < 2 && 0 <= b < 2 ==> m.at(a, b) == if a == b && a < i {
                        Scalar::spec_one()
                    } else {
                        Scalar::spec_zero()
                    },
        {
            m.set(i, i, Scalar::one());
        }
        proof {
            m.lemma_eq_by_entries(Matrix2::spec_eye());
        }
        m
    }

    /// Numbers of rows and of columns.
    pub fn dim() -> (r: (usize, usize))
        ensures
            r == (2usize, 2usize),
    {
        (2, 2)
    }

    /// Number of rows.
    pub fn rows() -> (r: usize)
        ensures
            r == 2,
    {
        2
    }

    /// Number of columns.
    pub fn cols() -> (r: usize)
        ensures
            r == 2,
    {
        2
    }

    /// Replaces the entry in row `row`, column `col`.
    pub fn set(&mut self, row: usize, col: usize, value: Scalar)
        requires
            row < 2,
            col < 2,
        ensures
            forall|i: int, j: int|
                0 <= i < 2 && 0 <= j < 2 ==> final(self).at(i, j) == if i == row && j == col {
                    value
                } else {
                    old(self).at(i, j)
                },
    {
        self.data[row].set(col, value);
    }

    /// The matrix with rows and columns exchanged.
    pub fn transpose(&self) -> (r: Matrix2)
        ensures
            r == self.spec_transpose(),
    {
        let mut result = Matrix2::zeroes();
        for i in 0..2usize
            invariant
                forall|a: int, b: int|
                    0 <= a < i && 0 <= b < 2 ==> result.at(b, a) == self.at(a, b),
        {
            for j in 0..2usize
                invariant
                    0 <= i < 2,
                    forall|a: int, b: int|
                        0 <= a < i && 0 <= b < 2 ==> result.at(b, a) == self.at(a, b),
                    forall|b: int| 0 <= b < j ==> result.at(b, i as int) == self.at(i as int, b),
            {
                result.set(j, i, self[(i, j)]);
            }
        }
        proof {
            result.lemma_eq_by_entries(self.spec_transpose());
        }
        result
    }

    /// The entry that remains when `row` and `col` are removed.
    pub fn submatrix(&self, row: usize, col: usize) -> (r: Scalar)
        requires
            row < 2,
            col < 2,
        ensures
            r == self.spec_submatrix(row as int, col as int),
    {
        self[(1 - row, 1 - col)]
    }

    /// The entry that remains when `row` and `col` are removed.
    pub fn minor(&self, row: usize, col: usize) -> (r: Scalar)
        requires
            row < 2,
            col < 2,
        ensures
            r == self.spec_minor(row as int, col as int),
    {
        self.submatrix(row, col)
    }

    /// The minor, negated when `row + col` is odd.
    pub fn cofactor(&self, row: usize, col: usize) -> (r: Scalar)
        requires
            row < 2,
            col < 2,
        ensures
            r == self.spec_cofactor(row as int, col as int),
    {
        let minor = self.minor(row, col);
        if (row + col) % 2 == 0 {
            minor
        } else {
            core::ops::Neg::neg(minor)
        }
    }

    /// The determinant, by cofactor expansion along the first column.
    pub fn determinant(&self) -> (r: Scalar)
        ensures
            r == self.spec_determinant(),
    {
        let mut result = Scalar::zero();
        for i in 0..2usize
            invariant
                result == self.spec_expansion(i as nat),
        {
            result = result + self[(i, 0)] * self.cofactor(i, 0);
        }
        result
    }

    /// Whether the determinant is not exactly zero.
    pub fn is_invertible(&self) -> (r: bool)
        ensures
            r == self.spec_is_invertible(),
    {
        self.determinant().raw != 0
    }

    /// The inverse: the transposed cofactors over the determinant; nothing
    /// when the determinant is exactly zero.
    pub fn inverse(&self) -> (r: Option<Matrix2>)
        ensures
            r == self.spec_inverse(),
    {
        if !self.is_invertible() {
            return None;
        }
        let mut result = Matrix2::zeroes();
        let determinant = self.determinant();
        for i in 0..2usize
            invariant
                determinant == self.spec_determinant(),
                forall|a: int, b: int|
                    0 <= a < i && 0 <= b < 2 ==> result.at(b, a) == self.spec_cofactor(
                        a,
                        b,
                    ).spec_div(determinant),
        {
            for j in 0..2usize
                invariant
                    0 <= i < 2,
                    determinant == self.spec_determinant(),
                    forall|a: int, b: int|
                        0 <= a < i && 0 <= b < 2 ==> result.at(b, a) == self.spec_cofactor(
                            a,
                            b,
                        ).spec_div(determinant),
                    forall|b: int|
                        0 <= b < j ==> result.at(b, i as int) == self.spec_cofactor(
                            i as int,
                            b,
                        ).spec_div(determinant),
            {
                result.set(j, i, self.cofactor(i, j) / determinant);
            }
        }
        proof {
            result.lemma_eq_by_entries(self.spec_inverse().unwrap());
        }
        Some(result)
    }
}

impl Default for Matrix2 {
    fn default() -> (r: Matrix2)
        ensures
            r == Matrix2::spec_zeroes(),
    {
        Matrix2::zeroes()
    }
}

impl core::ops::Index<(usize, usize)> for Matrix2 {
    type Output = Scalar;

    fn index(&self, index: (usize, usize)) -> (r: &Scalar)
        ensures
            *r == self.at(index.0 as int, index.1 as int),
    {
        &self.data[index.0][index.1]
    }
}

impl vstd::std_specs::core::IndexSpecImpl<(usize, usize)> for Matrix2 {
    open spec fn index_req(&self, index: &(usize, usize)) -> bool {
        index.0 < 2 && index.1 < 2
    }
}

impl core::ops::IndexMut<(usize, usize)> for Matrix2 {
    fn index_mut(&mut self, index: (usize, usize)) -> (r: &mut Scalar)
        requires
            index.0 < 2,
            index.1 < 2,
        ensures
            *r == old(self).at(index.0 as int, index.1 as int),
            final(self).data@ == old(self).data@.update(
                index.0 as int,
                old(self).data[index.0 as int].with_component(index.1 as int, *final(r)),
            ),
    {
        core::ops::IndexMut::index_mut(&mut self.data[index.0], index.1)
    }
}

impl PartialEq for Matrix2 {
    fn eq(&self, other: &Matrix2) -> (r: bool) {
        self.data[0] == other.data[0] && self.data[1] == other.data[1]
    }
}

impl PartialEqSpecImpl for Matrix2 {
    open spec fn obeys_eq_spec() -> bool {
        true
    }

    open spec fn eq_spec(&self, other: &Matrix2) -> bool {
        self.approx_eq(*other)
    }
}

impl core::ops::Mul<Tuple2> for Matrix2 {
    type Output = Tuple2;

    fn mul(self, rhs: Tuple2) -> (r: Tuple2) {
        let mut result = Tuple2::default();
        for i in 0..2usize
            invariant
                i >= 1 ==> result.x == self.data[0].spec_dot(rhs),
                i >= 2 ==> result.y == self.data[1].spec_dot(rhs),
        {
            result.set(i, self.data[i].dot(&rhs));
        }
        result
    }
}

impl MulSpecImpl<Tuple2> for Matrix2 {
    open spec fn obeys_mul_spec() -> bool {
        true
    }

    open spec fn mul_req(self, rhs: Tuple2) -> bool {
        true
    }

    open spec fn mul_spec(self, rhs: Tuple2) -> Tuple2 {
        self.spec_mul_tuple(rhs)
    }
}

impl core::ops::Mul<Matrix2> for Matrix2 {
    type Output = Matrix2;

    fn mul(self, rhs: Matrix2) -> (r: Matrix2) {
        let mut result = Matrix2::zeroes();
        let rhs_t = rhs.transpose();
        for i in 0..2usize
            invariant
                rhs_t == rhs.spec_transpose(),
                forall|a: int, b: int|
                    0 <= a < i && 0 <= b < 2 ==> result.at(a, b) == self.data[a].spec_dot(
                        rhs.col(b),
                    ),
        {
            for j in 0..2usize
                invariant
                    0 <= i < 2,
                    rhs_t == rhs.spec_transpose(),
                    forall|a: int, b: int|
                        0 <= a < i && 0 <= b < 2 ==> result.at(a, b) == self.data[a].spec_dot(
                            rhs.col(b),
                        ),
                    forall|b: int|
                        0 <= b < j ==> result.at(i as int, b) == self.data[i as int].spec_dot(
                            rhs.col(b),
                        ),
            {
                result.set(i, j, self.data[i].dot(&rhs_t.data[j]));
            }
        }
        proof {
            result.lemma_eq_by_entries(self.spec_mul(rhs));
        }
        result
    }
}

impl MulSpecImpl<Matrix2> for Matrix2 {
    open spec fn obeys_mul_spec() -> bool {
        true
    }

    open spec fn mul_req(self, rhs: Matrix2) -> bool {
        true
    }

    open spec fn mul_spec(self, rhs: Matrix2) -> Matrix2 {
        self.spec_mul(rhs)
    }
}

} // verus!
