//! Four-by-four matrices.

use crate::matrix3::Matrix3;
use crate::scalar::Scalar;
use crate::tuple3::Tuple3;
use crate::tuple4::Tuple4;
use vstd::prelude::*;
use vstd::std_specs::cmp::PartialEqSpecImpl;
use vstd::std_specs::ops::MulSpecImpl;

verus! {

/// A 4x4 matrix, stored by rows.
#[derive(Debug, Clone, Copy)]
pub struct Matrix4 {
    pub data: [Tuple4; 4],
}

/// Position `k` of a matrix that lost the row or column `removed`, as a
/// position of the matrix before the removal.
pub open spec fn skip4(k: int, removed: int) -> int {
    if k < removed {
        k
    } else {
        k + 1
    }
}

impl Matrix4 {
    /// Every entry is inside the symmetric range.
    pub open spec fn wf(self) -> bool {
        forall|i: int| 0 <= i < 4 ==> (#[trigger] self.data[i]).wf()
    }

    /// The entry in row `i`, column `j`.
    pub open spec fn at(self, i: int, j: int) -> Scalar {
        self.data[i].component(j)
    }

    /// Column `j` as a tuple.
    pub open spec fn col(self, j: int) -> Tuple4 {
        Tuple4 { x: self.at(0, j), y: self.at(1, j), z: self.at(2, j), w: self.at(3, j) }
    }

    /// The matrix of zeros.
    pub open spec fn spec_zeroes() -> Matrix4 {
        Matrix4 { data: [
            Tuple4::spec_zero(), Tuple4::spec_zero(), Tuple4::spec_zero(), Tuple4::spec_zero(),
        ] }
    }

    /// The identity: ones on the diagonal, zeros elsewhere.
    pub open spec fn spec_eye() -> Matrix4 {
        Matrix4 { data: [
            Tuple4::spec_unit(0), Tuple4::spec_unit(1), Tuple4::spec_unit(2), Tuple4::spec_unit(3),
        ] }
    }

    /// Rows and columns exchanged.
    pub open spec fn spec_transpose(self) -> Matrix4 {
        Matrix4 { data: [self.col(0), self.col(1), self.col(2), self.col(3)] }
    }

    /// Row `i` of the product with `rhs`.
    pub open spec fn spec_mul_row(self, i: int, rhs: Matrix4) -> Tuple4 {
        Tuple4 {
            x: self.data[i].spec_dot(rhs.col(0)),
            y: self.data[i].spec_dot(rhs.col(1)),
            z: self.data[i].spec_dot(rhs.col(2)),
            w: self.data[i].spec_dot(rhs.col(3)),
        }
    }

    /// Matrix product: entry `(i, j)` is row `i` of `self` dotted with
    /// column `j` of `rhs`.
    pub open spec fn spec_mul(self, rhs: Matrix4) -> Matrix4 {
        Matrix4 {
            data: [
                self.spec_mul_row(0, rhs),
                self.spec_mul_row(1, rhs),
                self.spec_mul_row(2, rhs),
                self.spec_mul_row(3, rhs),
            ],
        }
    }

    /// Product with a column tuple: component `i` is row `i` dotted with
    /// `rhs`.
    pub open spec fn spec_mul_tuple(self, rhs: Tuple4) -> Tuple4 {
        Tuple4 {
            x: self.data[0].spec_dot(rhs),
            y: self.data[1].spec_dot(rhs),
            z: self.data[2].spec_dot(rhs),
            w: self.data[3].spec_dot(rhs),
        }
    }

    /// Row `i` of the submatrix without `row` and `col`.
    pub open spec fn spec_submatrix_row(self, i: int, row: int, col: int) -> Tuple3 {
        Tuple3 {
            x: self.at(skip4(i, row), skip4(0, col)),
            y: self.at(skip4(i, row), skip4(1, col)),
            z: self.at(skip4(i, row), skip4(2, col)),
        }
    }

    /// The matrix without row `row` and column `col`.
    pub open spec fn spec_submatrix(self, row: int, col: int) -> Matrix3 {
        Matrix3 {
            data: [
                self.spec_submatrix_row(0, row, col),
                self.spec_submatrix_row(1, row, col),
                self.spec_submatrix_row(2, row, col),
            ],
        }
    }

    /// Determinant of the submatrix without `row` and `col`.
    #[verifier::opaque]
    pub open spec fn spec_minor(self, row: int, col: int) -> Scalar {
        self.spec_submatrix(row, col).spec_determinant()
    }

    /// The minor, negated when `row + col` is odd.
    pub open spec fn spec_cofactor(self, row: int, col: int) -> Scalar {
        if (row + col) % 2 == 0 {
            self.spec_minor(row, col)
        } else {
            self.spec_minor(row, col).spec_neg()
        }
    }

    /// Sum over the first `k` rows of the first-column entry times its
    /// cofactor.
    pub open spec fn spec_expansion(self, k: nat) -> Scalar
        decreases k,
    {
        if k == 0 {
            Scalar::spec_zero()
        } else {
            self.spec_expansion((k - 1) as nat).spec_add(
                self.at(k - 1, 0).spec_mul(self.spec_cofactor(k - 1, 0)),
            )
        }
    }

    /// Cofactor expansion along the first column.
    pub open spec fn spec_determinant(self) -> Scalar {
        self.spec_expansion(4)
    }

    /// The determinant is not exactly zero.
    pub open spec fn spec_is_invertible(self) -> bool {
        self.spec_determinant() != Scalar::spec_zero()
    }

    /// Row `i` of the adjugate divided by `d`: entry `j` is the cofactor
    /// `(j, i)` over `d`.
    pub open spec fn spec_inverse_row(self, i: int, d: Scalar) -> Tuple4 {
        Tuple4 {
            x: self.spec_cofactor(0, i).spec_div(d),
            y: self.spec_cofactor(1, i).spec_div(d),
            z: self.spec_cofactor(2, i).spec_div(d),
            w: self.spec_cofactor(3, i).spec_div(d),
        }
    }

    /// The transposed cofactor matrix divided by the determinant; nothing
    /// when the determinant is zero.
    pub open spec fn spec_inverse(self) -> Option<Matrix4> {
        if self.spec_is_invertible() {
            let d = self.spec_determinant();
            Some(
                Matrix4 {
                    data: [
                        self.spec_inverse_row(0, d),
                        self.spec_inverse_row(1, d),
                        self.spec_inverse_row(2, d),
                        self.spec_inverse_row(3, d),
                    ],
                },
            )
        } else {
            None
        }
    }

    /// Every pair of matching entries is equal within the tolerance.
    pub open spec fn approx_eq(self, rhs: Matrix4) -> bool {
        forall|i: int| 0 <= i < 4 ==> (#[trigger] self.data[i]).approx_eq(rhs.data[i])
    }

    /// Matrices with the same entries are the same matrix.
    pub proof fn lemma_eq_by_entries(self, other: Matrix4)
        requires
            forall|i: int, j: int|
                0 <= i < 4 && 0 <= j < 4 ==> #[trigger] self.at(i, j) == other.at(i, j),
        ensures
            self == other,
    {
        assert forall|i: int| 0 <= i < 4 implies self.data[i] == other.data[i] by {
            assert(self.at(i, 0) == other.at(i, 0));
            assert(self.at(i, 1) == other.at(i, 1));
            assert(self.at(i, 2) == other.at(i, 2));
            assert(self.at(i, 3) == other.at(i, 3));
        }
        assert(self.data =~= other.data);
    }

    /// The matrix with the rows of `data`.
    pub fn from_array(data: [[Scalar; 4]; 4]) -> (r: Matrix4)
        ensures
            forall|i: int, j: int| 0 <= i < 4 && 0 <= j < 4 ==> r.at(i, j) == data[i][j],
    {
        Matrix4 {
            data: [
                Tuple4::from_array(data[0]),
                Tuple4::from_array(data[1]),
                Tuple4::from_array(data[2]),
                Tuple4::from_array(data[3]),
            ],
        }
    }

    /// The matrix of zeros.
    pub fn zeroes() -> (r: Matrix4)
        ensures
            r == Matrix4::spec_zeroes(),
    {
        let zero = Tuple4::default();
        let r = Matrix4 { data: [zero, zero, zero, zero] };
        assert(r.data =~= Matrix4::spec_zeroes().data);
        r
    }

    /// The identity matrix.
    pub fn eye() -> (r: Matrix4)
        ensures
            r == Matrix4::spec_eye(),
    {
        let mut m = Matrix4::zeroes();
        for i in 0..4usize
            invariant
                forall|a: int, b: int|
                    0 <= a < 4 && 0 <= b < 4 ==> m.at(a, b) == if a == b && a < i {
                        Scalar::spec_one()
                    } else {
                        Scalar::spec_zero()
                    },
        {
            m.set(i, i, Scalar::one());
        }
        proof {
            m.lemma_eq_by_entries(Matrix4::spec_eye());
        }
        m
    }

    /// Numbers of rows and of columns.
    pub fn dim() -> (r: (usize, usize))
        ensures
            r == (4usize, 4usize),
    {
        (4, 4)
    }

    /// Number of rows.
    pub fn rows() -> (r: usize)
        ensures
            r == 4,
    {
        4
    }

    /// Number of columns.
    pub fn cols() -> (r: usize)
        ensures
            r == 4,
    {
        4
    }

    /// Replaces the entry in row `row`, column `col`.
    pub fn set(&mut self, row: usize, col: usize, value: Scalar)
        requires
            row < 4,
            col < 4,
        ensures
            forall|i: int, j: int|
                0 <= i < 4 && 0 <= j < 4 ==> final(self).at(i, j) == if i == row && j == col {
                    value
                } else {
                    old(self).at(i, j)
                },
    {
        self.data[row].set(col, value);
    }

    /// The matrix with rows and columns exchanged.
    pub fn transpose(&self) -> (r: Matrix4)
        ensures
            r == self.spec_transpose(),
    {
        let mut result = Matrix4::zeroes();
        for i in 0..4usize
            invariant
                forall|a: int, b: int|
                    0 <= a < i && 0 <= b < 4 ==> result.at(b, a) == self.at(a, b),
        {
            for j in 0..4usize
                invariant
                    0 <= i < 4,
                    forall|a: int, b: int|
                        0 <= a < i && 0 <= b < 4 ==> result.at(b, a) == self.at(a, b),
                    forall|b: int| 0 <= b < j ==> result.at(b, i as int) == self.at(i as int, b),
            {
                result.set(j, i, self[(i, j)]);
            }
        }
        proof {
            result.lemma_eq_by_entries(self.spec_transpose());
        }
        result
    }

    /// The matrix without row `row` and column `col`.
    pub fn submatrix(&self, row: usize, col: usize) -> (r: Matrix3)
        requires
            row < 4,
            col < 4,
        ensures
            r == self.spec_submatrix(row as int, col as int),
    {
        let mut result = Matrix3::zeroes();
        for i in 0..4usize
            invariant
                row < 4,
                col < 4,
                forall|a: int, b: int|
                    0 <= a < 3 && 0 <= b < 3 && skip4(a, row as int) < i ==> result.at(a, b)
                        == self.at(skip4(a, row as int), skip4(b, col as int)),
        {
            if i != row {
                let res_i: usize = if i > row {
                    i - 1
                } else {
                    i
                };
                for j in 0..4usize
                    invariant
                        row < 4,
                        col < 4,
                        i < 4,
                        i != row,
                        res_i < 3,
                        skip4(res_i as int, row as int) == i,
                        forall|a: int, b: int|
                            0 <= a < 3 && 0 <= b < 3 && skip4(a, row as int) < i ==> result.at(
                                a,
                                b,
                            ) == self.at(skip4(a, row as int), skip4(b, col as int)),
                        forall|b: int|
                            0 <= b < 3 && skip4(b, col as int) < j ==> result.at(res_i as int, b)
                                == self.at(i as int, skip4(b, col as int)),
                {
                    if j != col {
                        let res_j: usize = if j > col {
                            j - 1
                        } else {
                            j
                        };
                        result.set(res_i, res_j, self[(i, j)]);
                    }
                }
            }
        }
        proof {
            result.lemma_eq_by_entries(self.spec_submatrix(row as int, col as int));
        }
        result
    }

    /// The determinant of the submatrix without `row` and `col`.
    pub fn minor(&self, row: usize, col: usize) -> (r: Scalar)
        requires
            row < 4,
            col < 4,
        ensures
            r == self.spec_minor(row as int, col as int),
    {
        reveal(Matrix4::spec_minor);
        self.submatrix(row, col).determinant()
    }

    /// The minor, negated when `row + col` is odd.
    pub fn cofactor(&self, row: usize, col: usize) -> (r: Scalar)
        requires
            row < 4,
            col < 4,
        ensures
            r == self.spec_cofactor(row as int, col as int),
    {
        let minor = self.minor(row, col);
        if (row + col) % 2 == 0 {
            minor
        } else {
            core::ops::Neg::neg(minor)
        }
    }

    /// The determinant, by cofactor expansion along the first column.
    pub fn determinant(&self) -> (r: Scalar)
        ensures
            r == self.spec_determinant(),
    {
        let mut result = Scalar::zero();
        for i in 0..4usize
            invariant
                result == self.spec_expansion(i as nat),
        {
            result = result + self[(i, 0)] * self.cofactor(i, 0);
        }
        result
    }

    /// Whether the determinant is not exactly zero.
    pub fn is_invertible(&self) -> (r: bool)
        ensures
            r == self.spec_is_invertible(),
    {
        self.determinant().raw != 0
    }

    /// The inverse: the transposed cofactors over the determinant; nothing
    /// when the determinant is exactly zero.
    pub fn inverse(&self) -> (r: Option<Matrix4>)
        ensures
            r == self.spec_inverse(),
    {
        if !self.is_invertible() {
            return None;
        }
        let mut result = Matrix4::zeroes();
        let determinant = self.determinant();
        for i in 0..4usize
            invariant
                determinant == self.spec_determinant(),
                forall|a: int, b: int|
                    0 <= a < i && 0 <= b < 4 ==> result.at(b, a) == self.spec_cofactor(
                        a,
                        b,
                    ).spec_div(determinant),
        {
            for j in 0..4usize
                invariant
                    0 <= i < 4,
                    determinant == self.spec_determinant(),
                    forall|a: int, b: int|
                        0 <= a < i && 0 <= b < 4 ==> result.at(b, a) == self.spec_cofactor(
                            a,
                            b,
                        ).spec_div(determinant),
                    forall|b: int|
                        0 <= b < j ==> result.at(b, i as int) == self.spec_cofactor(
                            i as int,
                            b,
                        ).spec_div(determinant),
            {
                result.set(j, i, self.cofactor(i, j) / determinant);
            }
        }
        proof {
            result.lemma_eq_by_entries(self.spec_inverse().unwrap());
        }
        Some(result)
    }
}

impl Default for Matrix4 {
    fn default() -> (r: Matrix4)
        ensures
            r == Matrix4::spec_zeroes(),
    {
        Matrix4::zeroes()
    }
}

impl core::ops::Index<(usize, usize)> for Matrix4 {
    type Output = Scalar;

    fn index(&self, index: (usize, usize)) -> (r: &Scalar)
        ensures
            *r == self.at(index.0 as int, index.1 as int),
    {
        &self.data[index.0][index.1]
    }
}

impl vstd::std_specs::core::IndexSpecImpl<(usize, usize)> for Matrix4 {
    open spec fn index_req(&self, index: &(usize, usize)) -> bool {
        index.0 < 4 && index.1 < 4
    }
}

impl core::ops::IndexMut<(usize, usize)> for Matrix4 {
    fn index_mut(&mut self, index: (usize, usize)) -> (r: &mut Scalar)
        requires
            index.0 < 4,
            index.1 < 4,
        ensures
            *r == old(self).at(index.0 as int, index.1 as int),
            final(self).data@ == old(self).data@.update(
                index.0 as int,
                old(self).data[index.0 as int].with_component(index.1 as int, *final(r)),
            ),
    {
        core::ops::IndexMut::index_mut(&mut self.data[index.0], index.1)
    }
}

impl PartialEq for Matrix4 {
    fn eq(&self, other: &Matrix4) -> (r: bool) {
        self.data[0] == other.data[0]
            && self.data[1] == other.data[1]
            && self.data[2] == other.data[2]
            && self.data[3] == other.data[3]
    }
}

impl PartialEqSpecImpl for Matrix4 {
    open spec fn obeys_eq_spec() -> bool {
        true
    }

    open spec fn eq_spec(&self, other: &Matrix4) -> bool {
        self.approx_eq(*other)
    }
}

impl core::ops::Mul<Tuple4> for Matrix4 {
    type Output = Tuple4;

    fn mul(self, rhs: Tuple4) -> (r: Tuple4) {
        let mut result = Tuple4::default();
        for i in 0..4usize
            invariant
                i >= 1 ==> result.x == self.data[0].spec_dot(rhs),
                i >= 2 ==> result.y == self.data[1].spec_dot(rhs),
                i >= 3 ==> result.z == self.data[2].spec_dot(rhs),
                i >= 4 ==> result.w == self.data[3].spec_dot(rhs),
        {
            result.set(i, self.data[i].dot(&rhs));
        }
        result
    }
}

impl MulSpecImpl<Tuple4> for Matrix4 {
    open spec fn obeys_mul_spec() -> bool {
        true
    }

    open spec fn mul_req(self, rhs: Tuple4) -> bool {
        true
    }

    open spec fn mul_spec(self, rhs: Tuple4) -> Tuple4 {
        self.spec_mul_tuple(rhs)
    }
}

impl core::ops::Mul<Matrix4> for Matrix4 {
    type Output = Matrix4;

    fn mul(self, rhs: Matrix4) -> (r: Matrix4) {
        let mut result = Matrix4::zeroes();
        let rhs_t = rhs.transpose();
        for i in 0..4usize
            invariant
                rhs_t == rhs.spec_transpose(),
                forall|a: int, b: int|
                    0 <= a < i && 0 <= b < 4 ==> result.at(a, b) == self.data[a].spec_dot(
                        rhs.col(b),
                    ),
        {
            for j in 0..4usize
                invariant
                    0 <= i < 4,
                    rhs_t == rhs.spec_transpose(),
                    forall|a: int, b: int|
                        0 <= a < i && 0 <= b < 4 ==> result.at(a, b) == self.data[a].spec_dot(
                            rhs.col(b),
                        ),
                    forall|b: int|
                        0 <= b < j ==> result.at(i as int, b) == self.data[i as int].spec_dot(
                            rhs.col(b),
                        ),
            {
                result.set(i, j, self.data[i].dot(&rhs_t.data[j]));
            }
        }
        proof {
            result.lemma_eq_by_entries(self.spec_mul(rhs));
        }
        result
    }
}

impl MulSpecImpl<Matrix4> for Matrix4 {
    open spec fn obeys_mul_spec() -> bool {
        true
    }

    open spec fn mul_req(self, rhs: Matrix4) -> bool {
        true
    }

    open spec fn mul_spec(self, rhs: Matrix4) -> Matrix4 {
        self.spec_mul(rhs)
    }
}

} // verus!
