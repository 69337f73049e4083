//! Affine transforms as 4x4 matrices, and their fluent composition.
//!
//! A rotation is given by the sine and cosine of its angle, so that no
//! trigonometry is needed here.

use crate::matrix4::Matrix4;
use crate::scalar::Scalar;
use crate::tuple4::Tuple4;
use vstd::prelude::*;

verus! {

/// The matrix with the four given rows.
pub open spec fn spec_rows(r0: Tuple4, r1: Tuple4, r2: Tuple4, r3: Tuple4) -> Matrix4 {
    Matrix4 { data: [r0, r1, r2, r3] }
}

/// The row `(x, y, z, w)`.
pub open spec fn spec_row(x: Scalar, y: Scalar, z: Scalar, w: Scalar) -> Tuple4 {
    Tuple4 { x, y, z, w }
}

/// Identity with `(x, y, z)` in the last column.
pub open spec fn spec_translation(x: Scalar, y: Scalar, z: Scalar) -> Matrix4 {
    let o = Scalar::spec_zero();
    let i = Scalar::spec_one();
    spec_rows(
        spec_row(i, o, o, x), spec_row(o, i, o, y), spec_row(o, o, i, z), spec_row(o, o, o, i),
    )
}

/// Diagonal matrix `(x, y, z, 1)`.
pub open spec fn spec_scaling(x: Scalar, y: Scalar, z: Scalar) -> Matrix4 {
    let o = Scalar::spec_zero();
    let i = Scalar::spec_one();
    spec_rows(
        spec_row(x, o, o, o), spec_row(o, y, o, o), spec_row(o, o, z, o), spec_row(o, o, o, i),
    )
}

/// Rotation about the x axis by the angle with the given sine and cosine.
pub open spec fn spec_rotation_x(sin: Scalar, cos: Scalar) -> Matrix4 {
    let o = Scalar::spec_zero();
    let i = Scalar::spec_one();
    spec_rows(
        spec_row(i, o, o, o),
        spec_row(o, cos, sin.spec_neg(), o),
        spec_row(o, sin, cos, o),
        spec_row(o, o, o, i),
    )
}

/// Rotation about the y axis by the angle with the given sine and cosine.
pub open spec fn spec_rotation_y(sin: Scalar, cos: Scalar) -> Matrix4 {
    let o = Scalar::spec_zero();
    let i = Scalar::spec_one();
    spec_rows(
        spec_row(cos, o, sin, o),
        spec_row(o, i, o, o),
        spec_row(sin.spec_neg(), o, cos, o),
        spec_row(o, o, o, i),
    )
}

/// Rotation about the z axis by the angle with the given sine and cosine.
pub open spec fn spec_rotation_z(sin: Scalar, cos: Scalar) -> Matrix4 {
    let o = Scalar::spec_zero();
    let i = Scalar::spec_one();
    spec_rows(
        spec_row(cos, sin.spec_neg(), o, o),
        spec_row(sin, cos, o, o),
        spec_row(o, o, i, o),
        spec_row(o, o, o, i),
    )
}

/// Shear: each coordinate moves in proportion to the two others.
pub open spec fn spec_shearing(
    xy: Scalar,
    xz: Scalar,
    yx: Scalar,
    yz: Scalar,
    zx: Scalar,
    zy: Scalar,
) -> Matrix4 {
    let o = Scalar::spec_zero();
    let i = Scalar::spec_one();
    spec_rows(
        spec_row(i, xy, xz, o), spec_row(yx, i, yz, o), spec_row(zx, zy, i, o),
        spec_row(o, o, o, i),
    )
}

/// The matrix built from four rows of entries.
fn from_rows(r0: [Scalar; 4], r1: [Scalar; 4], r2: [Scalar; 4], r3: [Scalar; 4]) -> (m: Matrix4)
    ensures
        m == spec_rows(
            spec_row(r0[0], r0[1], r0[2], r0[3]),
            spec_row(r1[0], r1[1], r1[2], r1[3]),
            spec_row(r2[0], r2[1], r2[2], r2[3]),
            spec_row(r3[0], r3[1], r3[2], r3[3]),
        ),
{
    let m = Matrix4::from_array([r0, r1, r2, r3]);
    proof {
        m.lemma_eq_by_entries(
            spec_rows(
                spec_row(r0[0], r0[1], r0[2], r0[3]),
                spec_row(r1[0], r1[1], r1[2], r1[3]),
                spec_row(r2[0], r2[1], r2[2], r2[3]),
                spec_row(r3[0], r3[1], r3[2], r3[3]),
            ),
        );
    }
    m
}

/// Translation by `(x, y, z)`.
pub fn translation(x: Scalar, y: Scalar, z: Scalar) -> (m: Matrix4)
    ensures
        m == spec_translation(x, y, z),
{
    let o = Scalar::zero();
    let i = Scalar::one();
    from_rows([i, o, o, x], [o, i, o, y], [o, o, i, z], [o, o, o, i])
}

/// Scaling by `(x, y, z)` along the axes.
pub fn scaling(x: Scalar, y: Scalar, z: Scalar) -> (m: Matrix4)
    ensures
        m == spec_scaling(x, y, z),
{
    let o = Scalar::zero();
    let i = Scalar::one();
    from_rows([x, o, o, o], [o, y, o, o], [o, o, z, o], [o, o, o, i])
}

/// Rotation about the x axis; `sin` and `cos` are those of the angle.
pub fn rotation_x(sin: Scalar, cos: Scalar) -> (m: Matrix4)
    ensures
        m == spec_rotation_x(sin, cos),
{
    let o = Scalar::zero();
    let i = Scalar::one();
    let neg_sin = core::ops::Neg::neg(sin);
    from_rows([i, o, o, o], [o, cos, neg_sin, o], [o, sin, cos, o], [o, o, o, i])
}

/// Rotation about the y axis; `sin` and `cos` are those of the angle.
pub fn rotation_y(sin: Scalar, cos: Scalar) -> (m: Matrix4)
    ensures
        m == spec_rotation_y(sin, cos),
{
    let o = Scalar::zero();
    let i = Scalar::one();
    let neg_sin = core::ops::Neg::neg(sin);
    from_rows([cos, o, sin, o], [o, i, o, o], [neg_sin, o, cos, o], [o, o, o, i])
}

/// Rotation about the z axis; `sin` and `cos` are those of the angle.
pub fn rotation_z(sin: Scalar, cos: Scalar) -> (m: Matrix4)
    ensures
        m == spec_rotation_z(sin, cos),
{
    let o = Scalar::zero();
    let i = Scalar::one();
    let neg_sin = core::ops::Neg::neg(sin);
    from_rows([cos, neg_sin, o, o], [sin, cos, o, o], [o, o, i, o], [o, o, o, i])
}

/// Shear: `xy` moves x in proportion to y, and so on.
pub fn shearing(xy: Scalar, xz: Scalar, yx: Scalar, yz: Scalar, zx: Scalar, zy: Scalar) -> (m:
    Matrix4)
    ensures
        m == spec_shearing(xy, xz, yx, yz, zx, zy),
{
    let o = Scalar::zero();
    let i = Scalar::one();
    from_rows([i, xy, xz, o], [yx, i, yz, o], [zx, zy, i, o], [o, o, o, i])
}

impl Matrix4 {
    /// This transform followed by a translation: the translation is
    /// multiplied on from the left.
    pub fn translate(self, x: Scalar, y: Scalar, z: Scalar) -> (m: Matrix4)
        ensures
            m == spec_translation(x, y, z).spec_mul(self),
    {
        translation(x, y, z) * self
    }

    /// This transform followed by a scaling.
    pub fn scale(self, x: Scalar, y: Scalar, z: Scalar) -> (m: Matrix4)
        ensures
            m == spec_scaling(x, y, z).spec_mul(self),
    {
        scaling(x, y, z) * self
    }

    /// This transform followed by a rotation about the x axis.
    pub fn rotate_x(self, sin: Scalar, cos: Scalar) -> (m: Matrix4)
        ensures
            m == spec_rotation_x(sin, cos).spec_mul(self),
    {
        rotation_x(sin, cos) * self
    }

    /// This transform followed by a rotation about the y axis.
    pub fn rotate_y(self, sin: Scalar, cos: Scalar) -> (m: Matrix4)
        ensures
            m == spec_rotation_y(sin, cos).spec_mul(self),
    {
        rotation_y(sin, cos) * self
    }

    /// This transform followed by a rotation about the z axis.
    pub fn rotate_z(self, sin: Scalar, cos: Scalar) -> (m: Matrix4)
        ensures
            m == spec_rotation_z(sin, cos).spec_mul(self),
    {
        rotation_z(sin, cos) * self
    }

    /// This transform followed by a shear.
    pub fn shear(
        self,
        xy: Scalar,
        xz: Scalar,
        yx: Scalar,
        yz: Scalar,
        zx: Scalar,
        zy: Scalar,
    ) -> (m: Matrix4)
        ensures
            m == spec_shearing(xy, xz, yx, yz, zx, zy).spec_mul(self),
    {
        shearing(xy, xz, yx, yz, zx, zy) * self
    }
}

} // verus!
