//! Three-by-three matrices.

use crate::matrix2::Matrix2;
use crate::scalar::Scalar;
use crate::tuple2::Tuple2;
use crate::tuple3::Tuple3;
use vstd::prelude::*;
use vstd::std_specs::cmp::PartialEqSpecImpl;
use vstd::std_specs::ops::MulSpecImpl;

verus! {

/// A 3x3 matrix, stored by rows.
#[derive(Debug, Clone, Copy)]
pub struct Matrix3 {
    pub data: [Tuple3; 3],
}

/// Position `k` of a matrix that lost the row or column `removed`, as a
/// position of the matrix before the removal.
pub open spec fn skip3(k: int, removed: int) -> int {
    if k < removed {
        k
    } else {
        k + 1
    }
}

impl Matrix3 {
    /// Every entry is inside the symmetric range.
    pub open spec fn wf(self) -> bool {
        forall|i: int| 0 <= i < 3 ==> (#[trigger] self.data[i]).wf()
    }

    /// The entry in row `i`, column `j`.
    pub open spec fn at(self, i: int, j: int) -> Scalar {
        self.data[i].component(j)
    }

    /// Column `j` as a tuple.
    pub open spec fn col(self, j: int) -> Tuple3 {
        Tuple3 { x: self.at(0, j), y: self.at(1, j), z: self.at(2, j) }
    }

    /// The matrix of zeros.
    pub open spec fn spec_zeroes() -> Matrix3 {
        Matrix3 { data: [Tuple3::spec_zero(), Tuple3::spec_zero(), Tuple3::spec_zero()] }
    }

    /// The identity: ones on the diagonal, zeros elsewhere.
    pub open spec fn spec_eye() -> Matrix3 {
        Matrix3 { data: [Tuple3::spec_unit(0), Tuple3::spec_unit(1), Tuple3::spec_unit(2)] }
    }

    /// Rows and columns exchanged.
    pub open spec fn spec_transpose(self) -> Matrix3 {
        Matrix3 { data: [self.col(0), self.col(1), self.col(2)] }
    }

    /// Row `i` of the product with `rhs`.
    pub open spec fn spec_mul_row(self, i: int, rhs: Matrix3) -> Tuple3 {
        Tuple3 {
            x: self.data[i].spec_dot(rhs.col(0)),
            y: self.data[i].spec_dot(rhs.col(1)),
            z: self.data[i].spec_dot(rhs.col(2)),
        }
    }

    /// Matrix product: entry `(i, j)` is row `i` of `self` dotted with
    /// column `j` of `rhs`.
    pub open spec fn spec_mul(self, rhs: Matrix3) -> Matrix3 {
        Matrix3 {
            data: [
                self.spec_mul_row(0, rhs),
                self.spec_mul_row(1, rhs),
                self.spec_mul_row(2, rhs),
            ],
        }
    }

    /// Product with a column tuple: component `i` is row `i` dotted with
    /// `rhs`.
    pub open spec fn spec_mul_tuple(self, rhs: Tuple3) -> Tuple3 {
        Tuple3 {
            x: self.data[0].spec_dot(rhs),
            y: self.data[1].spec_dot(rhs),
            z: self.data[2].spec_dot(rhs),
        }
    }

    /// Row `i` of the submatrix without `row` and `col`.
    pub open spec fn spec_submatrix_row(self, i: int, row: int, col: int) -> Tuple2 {
        Tuple2 {
            x: self.at(skip3(i, row), skip3(0, col)),
            y: self.at(skip3(i, row), skip3(1, col)),
        }
    }

    /// The matrix without row `row` and column `col`.
    pub open spec fn spec_submatrix(self, row: int, col: int) -> Matrix2 {
        Matrix2 {
            data: [
                self.spec_submatrix_row(0, row, col),
                self.spec_submatrix_row(1, row, col),
            ],
        }
    }

    /// Determinant of the submatrix without `row` and `col`.
    #[verifier::opaque]
    pub open spec fn spec_minor(self, row: int, col: int) -> Scalar {
        self.spec_submatrix(row, col).spec_determinant()
    }

    /// The minor, negated when `row + col` is odd.
    pub open spec fn spec_cofactor(self, row: int, col: int) -> Scalar {
        if (row + col) % 2 == 0 {
            self.spec_minor(row, col)
        } else {
            self.spec_minor(row, col).spec_neg()
        }
    }

    /// Sum over the first `k` rows of the first-column entry times its
    /// cofactor.
    pub open spec fn spec_expansion(self, k: nat) -> Scalar
        decreases k,
    {
        if k == 0 {
            Scalar::spec_zero()
        } else {
            self.spec_expansion((k - 1) as nat).spec_add(
                self.at(k - 1, 0).spec_mul(self.spec_cofactor(k - 1, 0)),
            )
        }
    }

    /// Cofactor expansion along the first column.
    pub open spec fn spec_determinant(self) -> Scalar {
        self.spec_expansion(3)
    }

    /// The determinant is not exactly zero.
    pub open spec fn spec_is_invertible(self) -> bool {
        self.spec_determinant() != Scalar::spec_zero()
    }

    /// Row `i` of the adjugate divided by `d`: entry `j` is the cofactor
    /// `(j, i)` over `d`.
    pub open spec fn spec_inverse_row(self, i: int, d: Scalar) -> Tuple3 {
        Tuple3 {
            x: self.spec_cofactor(0, i).spec_div(d),
            y: self.spec_cofactor(1, i).spec_div(d),
            z: self.spec_cofactor(2, i).spec_div(d),
        }
    }

    /// The transposed cofactor matrix divided by the determinant; nothing
    /// when the determinant is zero.
    pub open spec fn spec_inverse(self) -> Option<Matrix3> {
        if self.spec_is_invertible() {
            let d = self.spec_determinant();
            Some(
                Matrix3 {
                    data: [
                        self.spec_inverse_row(0, d),
                        self.spec_inverse_row(1, d),
                        self.spec_inverse_row(2, d),
                    ],
                },
            )
        } else {
            None
        }
    }

    /// Every pair of matching entries is equal within the tolerance.
    pub open spec fn approx_eq(self, rhs: Matrix3) -> bool {
        forall|i: int| 0 <= i < 3 ==> (#[trigger] self.data[i]).approx_eq(rhs.data[i])
    }

    /// Matrices with the same entries are the same matrix.
    pub proof fn lemma_eq_by_entries(self, other: Matrix3)
        requires
            forall|i: int, j: int|
                0 <= i < 3 && 0 <= j < 3 ==> #[trigger] self.at(i, j) == other.at(i, j),
        ensures
            self == other,
    {
        assert forall|i: int| 0 <= i < 3 implies self.data[i] == other.data[i] by {
            assert(self.at(i, 0) == other.at(i, 0));
            assert(self.at(i, 1) == other.at(i, 1));
            assert(self.at(i, 2) == other.at(i, 2));
        }
        assert(self.data =~= other.data);
    }

    /// The matrix with the rows of `data`.
    pub fn from_array(data: [[Scalar; 3]; 3]) -> (r: Matrix3)
        ensures
            forall|i: int, j: int| 0 <= i < 3 && 0 <= j < 3 ==> r.at(i, j) == data[i][j],
    {
        Matrix3 {
            data: [
                Tuple3::from_array(data[0]),
                Tuple3::from_array(data[1]),
                Tuple3::from_array(data[2]),
            ],
        }
    }

    /// The matrix of zeros.
    pub fn zeroes() -> (r: Matrix3)
        ensures
            r == Matrix3::spec_zeroes(),
    {
        let zero = Tuple3::default();
        let r = Matrix3 { data: [zero, zero, zero] };
        assert(r.data =~= Matrix3::spec_zeroes().data);
        r
    }

    /// The identity matrix.
    pub fn eye() -> (r: Matrix3)
        ensures
            r == Matrix3::spec_eye(),
    {
        let mut m = Matrix3::zeroes();
        for i in 0..3usize
            invariant
                forall|a: int, b: int|
                    0 <= a < 3 && 0 <= b < 3 ==> m.at(a, b) == if a == b && a < i {
                        Scalar::spec_one()
                    } else {
                        Scalar::spec_zero()
                    },
        {
            m.set(i, i, Scalar::one());
        }
        proof {
            m.lemma_eq_by_entries(Matrix3::spec_eye());
        }
        m
    }

    /// Numbers of rows and of columns.
    pub fn dim() -> (r: (usize, usize))
        ensures
            r == (3usize, 3usize),
    {
        (3, 3)
    }

    /// Number of rows.
    pub fn rows() -> (r: usize)
        ensures
            r == 3,
    {
        3
    }

    /// Number of columns.
    pub fn cols() -> (r: usize)
        ensures
            r == 3,
    {
        3
    }

    /// Replaces the entry in row `row`, column `col`.
    pub fn set(&mut self, row: usize, col: usize, value: Scalar)
        requires
            row < 3,
            col < 3,
        ensures
            forall|i: int, j: int|
                0 <= i < 3 && 0 <= j < 3 ==> final(self).at(i, j) == if i == row && j == col {
                    value
                } else {
                    old(self).at(i, j)
                },
    {
        self.data[row].set(col, value);
    }

    /// The matrix with rows and columns exchanged.
    pub fn transpose(&self) -> (r: Matrix3)
        ensures
            r == self.spec_transpose(),
    {
        let mut result = Matrix3::zeroes();
        for i in 0..3usize
            invariant
                forall|a: int, b: int|
                    0 <= a < i && 0 <= b < 3 ==> result.at(b, a) == self.at(a, b),
        {
            for j in 0..3usize
                invariant
                    0 <= i < 3,
                    forall|a: int, b: int|
                        0 <= a < i && 0 <= b < 3 ==> result.at(b, a) == self.at(a, b),
                    forall|b: int| 0 <= b < j ==> result.at(b, i as int) == self.at(i as int, b),
            {
                result.set(j, i, self[(i, j)]);
            }
        }
        proof {
            result.lemma_eq_by_entries(self.spec_transpose());
        }
        result
    }

    /// The matrix without row `row` and column `col`.
    pub fn submatrix(&self, row: usize, col: usize) -> (r: Matrix2)
        requires
            row < 3,
            col < 3,
        ensures
            r == self.spec_submatrix(row as int, col as int),
    {
        let mut result = Matrix2::zeroes();
        for i in 0..3usize
            invariant
                row < 3,
                col < 3,
                forall|a: int, b: int|
                    0 <= a < 2 && 0 <= b < 2 && skip3(a, row as int) < i ==> result.at(a, b)
                        == self.at(skip3(a, row as int), skip3(b, col as int)),
        {
            if i != row {
                let res_i: usize = if i > row {
                    i - 1
                } else {
                    i
                };
                for j in 0..3usize
                    invariant
                        row < 3,
                        col < 3,
                        i < 3,
                        i != row,
                        res_i < 2,
                        skip3(res_i as int, row as int) == i,
                        forall|a: int, b: int|
                            0 <= a < 2 && 0 <= b < 2 && skip3(a, row as int) < i ==> result.at(
                                a,
                                b,
                            ) == self.at(skip3(a, row as int), skip3(b, col as int)),
                        forall|b: int|
                            0 <= b < 2 && skip3(b, col as int) < j ==> result.at(res_i as int, b)
                                == self.at(i as int, skip3(b, col as int)),
                {
                    if j != col {
                        let res_j: usize = if j > col {
                            j - 1
                        } else {
                            j
                        };
                        result.set(res_i, res_j, self[(i, j)]);
                    }
                }
            }
        }
        proof {
            result.lemma_eq_by_entries(self.spec_submatrix(row as int, col as int));
        }
        result
    }

    /// The determinant of the submatrix without `row` and `col`.
    pub fn minor(&self, row: usize, col: usize) -> (r: Scalar)
        requires
            row < 3,
            col < 3,
        ensures
            r == self.spec_minor(row as int, col as int),
    {
        reveal(Matrix3::spec_minor);
        self.submatrix(row, col).determinant()
    }

    /// The minor, negated when `row + col` is odd.
    pub fn cofactor(&self, row: usize, col: usize) -> (r: Scalar)
        requires
            row < 3,
            col < 3,
        ensures
            r == self.spec_cofactor(row as int, col as int),
    {
        let minor = self.minor(row, col);
        if (row + col) % 2 == 0 {
            minor
        } else {
            core::ops::Neg::neg(minor)
        }
    }

    /// The determinant, by cofactor expansion along the first column.
    pub fn determinant(&self) -> (r: Scalar)
        ensures
            r == self.spec_determinant(),
    {
        let mut result = Scalar::zero();
        for i in 0..3usize
            invariant
                result == self.spec_expansion(i as nat),
        {
            result = result + self[(i, 0)] * self.cofactor(i, 0);
        }
        result
    }

    /// Whether the determinant is not exactly zero.
    pub fn is_invertible(&self) -> (r: bool)
        ensures
            r == self.spec_is_invertible(),
    {
        self.determinant().raw != 0
    }

    /// The inverse: the transposed cofactors over the determinant; nothing
    /// when the determinant is exactly zero.
    pub fn inverse(&self) -> (r: Option<Matrix3>)
        ensures
            r == self.spec_inverse(),
    {
        if !self.is_invertible() {
            return None;
        }
        let mut result = Matrix3::zeroes();
        let determinant = self.determinant();
        for i in 0..3usize
            invariant
                determinant == self.spec_determinant(),
                forall|a: int, b: int|
                    0 <= a < i && 0 <= b < 3 ==> result.at(b, a) == self.spec_cofactor(
                        a,
                        b,
                    ).spec_div(determinant),
        {
            for j in 0..3usize
                invariant
                    0 <= i < 3,
                    determinant == self.spec_determinant(),
                    forall|a: int, b: int|
                        0 <= a < i && 0 <= b < 3 ==> result.at(b, a) == self.spec_cofactor(
                            a,
                            b,
                        ).spec_div(determinant),
                    forall|b: int|
                        0 <= b < j ==> result.at(b, i as int) == self.spec_cofactor(
                            i as int,
                            b,
                        ).spec_div(determinant),
            {
                result.set(j, i, self.cofactor(i, j) / determinant);
            }
        }
        proof {
            result.lemma_eq_by_entries(self.spec_inverse().unwrap());
        }
        Some(result)
    }
}

impl Default for Matrix3 {
    fn default() -> (r: Matrix3)
        ensures
            r == Matrix3::spec_zeroes(),
    {
        Matrix3::zeroes()
    }
}

impl core::ops::Index<(usize, usize)> for Matrix3 {
    type Output = Scalar;

    fn index(&self, index: (usize, usize)) -> (r: &Scalar)
        ensures
            *r == self.at(index.0 as int, index.1 as int),
    {
        &self.data[index.0][index.1]
    }
}

impl vstd::std_specs::core::IndexSpecImpl<(usize, usize)> for Matrix3 {
    open spec fn index_req(&self, index: &(usize, usize)) -> bool {
        index.0 < 3 && index.1 < 3
    }
}

impl core::ops::IndexMut<(usize, usize)> for Matrix3 {
    fn index_mut(&mut self, index: (usize, usize)) -> (r: &mut Scalar)
        requires
            index.0 < 3,
            index.1 < 3,
        ensures
            *r == old(self).at(index.0 as int, index.1 as int),
            final(self).data@ == old(self).data@.update(
                index.0 as int,
                old(self).data[index.0 as int].with_component(index.1 as int, *final(r)),
            ),
    {
        core::ops::IndexMut::index_mut(&mut self.data[index.0], index.1)
    }
}

impl PartialEq for Matrix3 {
    fn eq(&self, other: &Matrix3) -> (r: bool) {
        self.data[0] == other.data[0]
            && self.data[1] == other.data[1]
            && self.data[2] == other.data[2]
    }
}

impl PartialEqSpecImpl for Matrix3 {
    open spec fn obeys_eq_spec() -> bool {
        true
    }

    open spec fn eq_spec(&self, other: &Matrix3) -> bool {
        self.approx_eq(*other)
    }
}

impl core::ops::Mul<Tuple3> for Matrix3 {
    type Output = Tuple3;

    fn mul(self, rhs: Tuple3) -> (r: Tuple3) {
        let mut result = Tuple3::default();
        for i in 0..3usize
            invariant
                i >= 1 ==> result.x == self.data[0].spec_dot(rhs),
                i >= 2 ==> result.y == self.data[1].spec_dot(rhs),
                i >= 3 ==> result.z == self.data[2].spec_dot(rhs),
        {
            result.set(i, self.data[i].dot(&rhs));
        }
        result
    }
}

impl MulSpecImpl<Tuple3> for Matrix3 {
    open spec fn obeys_mul_spec() -> bool {
        true
    }

    open spec fn mul_req(self, rhs: Tuple3) -> bool {
        true
    }

    open spec fn mul_spec(self, rhs: Tuple3) -> Tuple3 {
        self.spec_mul_tuple(rhs)
    }
}

impl core::ops::Mul<Matrix3> for Matrix3 {
    type Output = Matrix3;

    fn mul(self, rhs: Matrix3) -> (r: Matrix3) {
        let mut result = Matrix3::zeroes();
        let rhs_t = rhs.transpose();
        for i in 0..3usize
            invariant
                rhs_t == rhs.spec_transpose(),
                forall|a: int, b: int|
                    0 <= a < i && 0 <= b < 3 ==> result.at(a, b) == self.data[a].spec_dot(
                        rhs.col(b),
                    ),
        {
            for j in 0..3usize
                invariant
                    0 <= i < 3,
                    rhs_t == rhs.spec_transpose(),
                    forall|a: int, b: int|
                        0 <= a < i && 0 <= b < 3 ==> result.at(a, b) == self.data[a].spec_dot(
                            rhs.col(b),
                        ),
                    forall|b: int|
                        0 <= b < j ==> result.at(i as int, b) == self.data[i as int].spec_dot(
                            rhs.col(b),
                        ),
            {
                result.set(i, j, self.data[i].dot(&rhs_t.data[j]));
            }
        }
        proof {
            result.lemma_eq_by_entries(self.spec_mul(rhs));
        }
        result
    }
}

impl MulSpecImpl<Matrix3> for Matrix3 {
    open spec fn obeys_mul_spec() -> bool {
        true
    }

    open spec fn mul_req(self, rhs: Matrix3) -> bool {
        true
    }

    open spec fn mul_spec(self, rhs: Matrix3) -> Matrix3 {
        self.spec_mul(rhs)
    }
}

} // verus!
