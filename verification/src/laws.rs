//! What holds of the operations of this library. The algebraic laws hold of
//! every value inside the symmetric range; the two laws on rounding, of the
//! inverse and of the length of a normalized tuple, hold within the limits
//! that they name.

use crate::exact::entry_limit;
use crate::intersection::Intersection;
use crate::intersection::is_hit;
use crate::intersection::lemma_unit_sphere_hits_ordered;
use crate::intersection::spec_intersect;
use crate::matrix2::Matrix2;
use crate::matrix3::Matrix3;
use crate::matrix4::Matrix4;
use crate::norm::component_limit;
use crate::norm::lemma_components_bounded;
use crate::norm::lemma_quotient_bound;
use crate::norm::lemma_quotient_rounded;
use crate::norm::lemma_root_near_one;
use crate::norm::lemma_root_positive;
use crate::norm::lemma_root_rounded;
use crate::norm::lemma_square_rounded;
use crate::norm::lemma_unit_square_sum;
use crate::ray::Ray;
use crate::ray::spec_transform;
use crate::scalar::SCALE;
use crate::scalar::Scalar;
use crate::scalar::abs;
use crate::scalar::lemma_mul_commutes;
use crate::scalar::lemma_mul_one;
use crate::scalar::lemma_mul_zero;
use crate::sphere::Sphere;
use crate::transform::spec_translation;
use crate::tuple2::Tuple2;
use crate::tuple3::Tuple3;
use crate::tuple4::Tuple4;
use crate::whole::lemma_row_error;
use crate::whole::lemma_whole_div;
use crate::whole::lemma_whole_raw;
use crate::whole::lemma_whole_times;
use vstd::prelude::*;

verus! {

/// Every result of an operation is inside the symmetric range.
pub proof fn results_stay_in_range(a: Scalar, b: Scalar)
    ensures
        a.spec_add(b).wf(),
        a.spec_sub(b).wf(),
        a.spec_neg().wf(),
        a.spec_mul(b).wf(),
        a.spec_div(b).wf(),
        a.spec_sqrt().wf(),
{
    reveal(Scalar::spec_mul);
    reveal(Scalar::spec_div);
    reveal(Scalar::spec_sqrt);
    if a.raw > 0 {
        assert(0 < a.raw * SCALE < 0x4000_0000_0000_0000_0000_0000) by (nonlinear_arith)
            requires
                0 < a.raw <= 0x7fff_ffff_ffff_ffff,
                SCALE == 1_000_000_000,
        ;
        crate::scalar::lemma_sqrt_nearest_bounds(a.raw * SCALE);
    }
}

/// The dot product with a unit tuple picks the matching component.
pub proof fn dot_unit_tuple2(v: Tuple2, j: int)
    requires
        v.wf(),
        0 <= j < 2,
    ensures
        v.spec_dot(Tuple2::spec_unit(j)) == v.component(j),
        Tuple2::spec_unit(j).spec_dot(v) == v.component(j),
{
    lemma_mul_one(v.x);
    lemma_mul_one(v.y);
    lemma_mul_zero(v.x);
    lemma_mul_zero(v.y);
}

/// The dot product with a unit tuple picks the matching component.
pub proof fn dot_unit_tuple3(v: Tuple3, j: int)
    requires
        v.wf(),
        0 <= j < 3,
    ensures
        v.spec_dot(Tuple3::spec_unit(j)) == v.component(j),
        Tuple3::spec_unit(j).spec_dot(v) == v.component(j),
{
    lemma_mul_one(v.x);
    lemma_mul_one(v.y);
    lemma_mul_one(v.z);
    lemma_mul_zero(v.x);
    lemma_mul_zero(v.y);
    lemma_mul_zero(v.z);
}

/// The dot product with a unit tuple picks the matching component.
pub proof fn dot_unit_tuple4(v: Tuple4, j: int)
    requires
        v.wf(),
        0 <= j < 4,
    ensures
        v.spec_dot(Tuple4::spec_unit(j)) == v.component(j),
        Tuple4::spec_unit(j).spec_dot(v) == v.component(j),
{
    lemma_mul_one(v.x);
    lemma_mul_one(v.y);
    lemma_mul_one(v.z);
    lemma_mul_one(v.w);
    lemma_mul_zero(v.x);
    lemma_mul_zero(v.y);
    lemma_mul_zero(v.z);
    lemma_mul_zero(v.w);
}

/// Transposing twice gives the matrix back.
pub proof fn transpose_involution_matrix2(m: Matrix2)
    ensures
        m.spec_transpose().spec_transpose() == m,
{
    m.spec_transpose().spec_transpose().lemma_eq_by_entries(m);
}

/// Transposing twice gives the matrix back.
pub proof fn transpose_involution_matrix3(m: Matrix3)
    ensures
        m.spec_transpose().spec_transpose() == m,
{
    m.spec_transpose().spec_transpose().lemma_eq_by_entries(m);
}

/// Transposing twice gives the matrix back.
pub proof fn transpose_involution_matrix4(m: Matrix4)
    ensures
        m.spec_transpose().spec_transpose() == m,
{
    m.spec_transpose().spec_transpose().lemma_eq_by_entries(m);
}

/// One entry of a product with the identity is the entry of the other
/// factor.
pub proof fn mul_identity_entry_matrix2(m: Matrix2, i: int, j: int)
    requires
        m.wf(),
        0 <= i < 2,
        0 <= j < 2,
    ensures
        m.spec_mul(Matrix2::spec_eye()).at(i, j) == m.at(i, j),
        Matrix2::spec_eye().spec_mul(m).at(i, j) == m.at(i, j),
{
    let e = Matrix2::spec_eye();
    assert(e.col(j) == Tuple2::spec_unit(j));
    assert(e.data[i] == Tuple2::spec_unit(i));
    assert(m.data[i].wf());
    dot_unit_tuple2(m.data[i], j);
    assert(m.data[0].wf() && m.data[1].wf());
    dot_unit_tuple2(m.col(j), i);
}

/// Multiplying by the identity, on either side, changes nothing.
pub proof fn mul_identity_matrix2(m: Matrix2)
    requires
        m.wf(),
    ensures
        m.spec_mul(Matrix2::spec_eye()) == m,
        Matrix2::spec_eye().spec_mul(m) == m,
{
    let e = Matrix2::spec_eye();
    let a = m.spec_mul(e);
    let b = e.spec_mul(m);
    assert forall|i: int, j: int| 0 <= i < 2 && 0 <= j < 2 implies #[trigger] a.at(i, j)
        == m.at(i, j) by {
        mul_identity_entry_matrix2(m, i, j);
    }
    assert forall|i: int, j: int| 0 <= i < 2 && 0 <= j < 2 implies #[trigger] b.at(i, j)
        == m.at(i, j) by {
        mul_identity_entry_matrix2(m, i, j);
    }
    a.lemma_eq_by_entries(m);
    b.lemma_eq_by_entries(m);
}

/// One entry of a product with the identity is the entry of the other
/// factor.
pub proof fn mul_identity_entry_matrix3(m: Matrix3, i: int, j: int)
    requires
        m.wf(),
        0 <= i < 3,
        0 <= j < 3,
    ensures
        m.spec_mul(Matrix3::spec_eye()).at(i, j) == m.at(i, j),
        Matrix3::spec_eye().spec_mul(m).at(i, j) == m.at(i, j),
{
    let e = Matrix3::spec_eye();
    assert(e.col(j) == Tuple3::spec_unit(j));
    assert(e.data[i] == Tuple3::spec_unit(i));
    assert(m.data[i].wf());
    dot_unit_tuple3(m.data[i], j);
    assert(m.data[0].wf() && m.data[1].wf() && m.data[2].wf());
    dot_unit_tuple3(m.col(j), i);
}

/// Multiplying by the identity, on either side, changes nothing.
pub proof fn mul_identity_matrix3(m: Matrix3)
    requires
        m.wf(),
    ensures
        m.spec_mul(Matrix3::spec_eye()) == m,
        Matrix3::spec_eye().spec_mul(m) == m,
{
    let e = Matrix3::spec_eye();
    let a = m.spec_mul(e);
    let b = e.spec_mul(m);
    assert forall|i: int, j: int| 0 <= i < 3 && 0 <= j < 3 implies #[trigger] a.at(i, j)
        == m.at(i, j) by {
        mul_identity_entry_matrix3(m, i, j);
    }
    assert forall|i: int, j: int| 0 <= i < 3 && 0 <= j < 3 implies #[trigger] b.at(i, j)
        == m.at(i, j) by {
        mul_identity_entry_matrix3(m, i, j);
    }
    a.lemma_eq_by_entries(m);
    b.lemma_eq_by_entries(m);
}

/// One entry of a product with the identity is the entry of the other
/// factor.
pub proof fn mul_identity_entry_matrix4(m: Matrix4, i: int, j: int)
    requires
        m.wf(),
        0 <= i < 4,
        0 <= j < 4,
    ensures
        m.spec_mul(Matrix4::spec_eye()).at(i, j) == m.at(i, j),
        Matrix4::spec_eye().spec_mul(m).at(i, j) == m.at(i, j),
{
    let e = Matrix4::spec_eye();
    assert(e.col(j) == Tuple4::spec_unit(j));
    assert(e.data[i] == Tuple4::spec_unit(i));
    assert(m.data[i].wf());
    dot_unit_tuple4(m.data[i], j);
    assert(m.data[0].wf() && m.data[1].wf() && m.data[2].wf() && m.data[3].wf());
    dot_unit_tuple4(m.col(j), i);
}

/// Multiplying by the identity, on either side, changes nothing.
pub proof fn mul_identity_matrix4(m: Matrix4)
    requires
        m.wf(),
    ensures
        m.spec_mul(Matrix4::spec_eye()) == m,
        Matrix4::spec_eye().spec_mul(m) == m,
{
    let e = Matrix4::spec_eye();
    let a = m.spec_mul(e);
    let b = e.spec_mul(m);
    assert forall|i: int, j: int| 0 <= i < 4 && 0 <= j < 4 implies #[trigger] a.at(i, j)
        == m.at(i, j) by {
        mul_identity_entry_matrix4(m, i, j);
    }
    assert forall|i: int, j: int| 0 <= i < 4 && 0 <= j < 4 implies #[trigger] b.at(i, j)
        == m.at(i, j) by {
        mul_identity_entry_matrix4(m, i, j);
    }
    a.lemma_eq_by_entries(m);
    b.lemma_eq_by_entries(m);
}

/// The identity maps every tuple to itself.
pub proof fn mul_identity_tuple4(v: Tuple4)
    requires
        v.wf(),
    ensures
        Matrix4::spec_eye().spec_mul_tuple(v) == v,
{
    dot_unit_tuple4(v, 0);
    dot_unit_tuple4(v, 1);
    dot_unit_tuple4(v, 2);
    dot_unit_tuple4(v, 3);
}

/// The cross product changes sign when its operands are exchanged.
pub proof fn cross_anticommutes_tuple3(a: Tuple3, b: Tuple3)
    ensures
        a.spec_cross(b) == b.spec_cross(a).spec_neg(),
{
    lemma_mul_commutes(a.y, b.z);
    lemma_mul_commutes(a.z, b.y);
    lemma_mul_commutes(a.z, b.x);
    lemma_mul_commutes(a.x, b.z);
    lemma_mul_commutes(a.x, b.y);
    lemma_mul_commutes(a.y, b.x);
}

/// The cross product changes sign when its operands are exchanged.
pub proof fn cross_anticommutes_tuple4(a: Tuple4, b: Tuple4)
    ensures
        a.spec_cross(b) == b.spec_cross(a).spec_neg(),
{
    lemma_mul_commutes(a.y, b.z);
    lemma_mul_commutes(a.z, b.y);
    lemma_mul_commutes(a.z, b.x);
    lemma_mul_commutes(a.x, b.z);
    lemma_mul_commutes(a.x, b.y);
    lemma_mul_commutes(a.y, b.x);
}

/// A translation leaves a free vector as it is.
pub proof fn translation_keeps_vector(x: Scalar, y: Scalar, z: Scalar, v: Tuple4)
    requires
        v.wf(),
        v.spec_is_vector(),
    ensures
        spec_translation(x, y, z).spec_mul_tuple(v) == v,
{
    lemma_mul_one(v.x);
    lemma_mul_one(v.y);
    lemma_mul_one(v.z);
    lemma_mul_zero(v.x);
    lemma_mul_zero(v.y);
    lemma_mul_zero(v.z);
    lemma_mul_zero(x);
    lemma_mul_zero(y);
    lemma_mul_zero(z);
    lemma_mul_zero(Scalar::spec_one());
}

/// A translation moves a point by its three offsets.
pub proof fn translation_moves_point(x: Scalar, y: Scalar, z: Scalar, p: Tuple4)
    requires
        x.wf(),
        y.wf(),
        z.wf(),
        p.wf(),
        p.spec_is_point(),
    ensures
        spec_translation(x, y, z).spec_mul_tuple(p) == (Tuple4 {
            x: p.x.spec_add(x),
            y: p.y.spec_add(y),
            z: p.z.spec_add(z),
            w: Scalar::spec_one(),
        }),
{
    lemma_mul_one(p.x);
    lemma_mul_one(p.y);
    lemma_mul_one(p.z);
    lemma_mul_one(x);
    lemma_mul_one(y);
    lemma_mul_one(z);
    lemma_mul_one(Scalar::spec_one());
    lemma_mul_zero(p.x);
    lemma_mul_zero(p.y);
    lemma_mul_zero(p.z);
}

/// A ray meets a sphere never or twice, and the first parameter is at most
/// the second.
pub proof fn intersections_are_ordered(sphere: Sphere, ray: Ray)
    ensures
        spec_intersect(sphere, ray).len() == 0 || spec_intersect(sphere, ray).len() == 2,
        spec_intersect(sphere, ray).len() == 2 ==> spec_intersect(sphere, ray)[0].raw
            <= spec_intersect(sphere, ray)[1].raw,
{
    let inverse = sphere.transform.spec_inverse();
    if inverse is Some {
        lemma_unit_sphere_hits_ordered(spec_transform(ray, inverse.unwrap()));
    }
}

/// A sequence of intersections has at most one hit.
pub proof fn hit_is_unique(s: Seq<Intersection>, i: int, j: int)
    requires
        is_hit(s, i),
        is_hit(s, j),
    ensures
        i == j,
{
}

/// One entry of the product of a 2x2 matrix of small whole numbers with its
/// inverse is within the tolerance of the identity's.
pub proof fn inverse_product_entry_matrix2(m: Matrix2, i: int, j: int)
    requires
        m.whole_within(entry_limit()),
        m.spec_is_invertible(),
        0 <= i < 2,
        0 <= j < 2,
    ensures
        m.spec_mul(m.spec_inverse().unwrap()).at(
            i, j,
        ).spec_epsilon_eq(Matrix2::spec_eye().at(i, j)),
{
    let s = SCALE as int;
    let lim = entry_limit();
    let inv = m.spec_inverse().unwrap();
    let det = m.spec_determinant();
    m.lemma_exact_determinant(lim);
    lemma_whole_raw(det);
    let d = det.units();
    assert(d != 0) by (nonlinear_arith)
        requires
            det.raw == d * s,
            det.raw != 0,
    ;
    let k0 = m.units(i, 0);
    let k1 = m.units(i, 1);
    let c0 = m.int_cofactor(j, 0);
    let c1 = m.int_cofactor(j, 1);
    m.lemma_exact_cofactor(j, 0, lim);
    m.lemma_exact_cofactor(j, 1, lim);
    lemma_whole_div(m.spec_cofactor(j, 0), det, lim);
    lemma_whole_div(m.spec_cofactor(j, 1), det, lim);
    let q0 = inv.at(0, j);
    let q1 = inv.at(1, j);
    assert(q0 == m.spec_cofactor(j, 0).spec_div(det));
    assert(q1 == m.spec_cofactor(j, 1).spec_div(det));
    assert(m.at(i, 0).whole_within(lim) && m.at(i, 1).whole_within(lim));
    lemma_whole_times(m.at(i, 0), q0);
    lemma_whole_times(m.at(i, 1), q1);
    let delta: int = if i == j {
        1
    } else {
        0
    };
    assert(k0 * c0 + k1 * c1 == delta * d) by (nonlinear_arith)
        requires
            c0 == m.int_cofactor(j, 0),
            c1 == m.int_cofactor(j, 1),
            k0 == m.units(i, 0),
            k1 == m.units(i, 1),
            d == m.int_determinant(),
            0 <= i < 2,
            0 <= j < 2,
            delta == if i == j {
                1int
            } else {
                0int
            },
            m.int_cofactor(0, 0) == m.units(1, 1),
            m.int_cofactor(0, 1) == -m.units(1, 0),
            m.int_cofactor(1, 0) == -m.units(0, 1),
            m.int_cofactor(1, 1) == m.units(0, 0),
            m.int_determinant() == m.units(0, 0) * m.int_cofactor(0, 0) + m.units(1, 0)
                * m.int_cofactor(1, 0),
    ;
    lemma_row_error(d, delta, k0, q0.raw as int, c0, k1, q1.raw as int, c1, 0, 0, 0, 0, 0, 0);
    let t = 100 * s + 1;
    assert(-100 * t <= k0 * q0.raw <= 100 * t) by (nonlinear_arith)
        requires
            -100 <= k0 <= 100,
            -t <= q0.raw <= t,
            0 <= t,
    ;
    assert(-100 * t <= k1 * q1.raw <= 100 * t) by (nonlinear_arith)
        requires
            -100 <= k1 <= 100,
            -t <= q1.raw <= t,
            0 <= t,
    ;
    assert(m.spec_mul(inv).at(i, j) == m.data[i].spec_dot(inv.col(j)));
    assert(m.spec_mul(inv).at(i, j).raw == k0 * q0.raw + k1 * q1.raw);
    assert(Matrix2::spec_eye().at(i, j).raw == delta * s);
}

/// The product of a 2x2 matrix of whole numbers, none above a hundred in
/// magnitude, with its inverse is the identity within the tolerance.
pub proof fn inverse_product_matrix2(m: Matrix2)
    requires
        m.whole_within(entry_limit()),
        m.spec_is_invertible(),
    ensures
        m.spec_mul(m.spec_inverse().unwrap()).approx_eq(Matrix2::spec_eye()),
{
    let p = m.spec_mul(m.spec_inverse().unwrap());
    let e = Matrix2::spec_eye();
    assert forall|i: int| 0 <= i < 2 implies (#[trigger] p.data[i]).approx_eq(e.data[i]) by {
        inverse_product_entry_matrix2(m, i, 0);
        inverse_product_entry_matrix2(m, i, 1);
        assert(p.at(i, 0) == p.data[i].x && p.at(i, 1) == p.data[i].y);
        assert(e.at(i, 0) == e.data[i].x && e.at(i, 1) == e.data[i].y);
    }
}

/// One entry of the product of a 3x3 matrix of small whole numbers with its
/// inverse is within the tolerance of the identity's.
pub proof fn inverse_product_entry_matrix3(m: Matrix3, i: int, j: int)
    requires
        m.whole_within(entry_limit()),
        m.spec_is_invertible(),
        0 <= i < 3,
        0 <= j < 3,
    ensures
        m.spec_mul(m.spec_inverse().unwrap()).at(
            i, j,
        ).spec_epsilon_eq(Matrix3::spec_eye().at(i, j)),
{
    let s = SCALE as int;
    let inv = m.spec_inverse().unwrap();
    let det = m.spec_determinant();
    m.lemma_exact_determinant();
    lemma_whole_raw(det);
    let d = det.units();
    assert(d != 0) by (nonlinear_arith)
        requires
            det.raw == d * s,
            det.raw != 0,
    ;
    let k0 = m.units(i, 0);
    let k1 = m.units(i, 1);
    let k2 = m.units(i, 2);
    let c0 = m.int_cofactor(j, 0);
    let c1 = m.int_cofactor(j, 1);
    let c2 = m.int_cofactor(j, 2);
    m.lemma_exact_cofactor(j, 0);
    m.lemma_exact_cofactor(j, 1);
    m.lemma_exact_cofactor(j, 2);
    lemma_whole_div(m.spec_cofactor(j, 0), det, 20_000);
    lemma_whole_div(m.spec_cofactor(j, 1), det, 20_000);
    lemma_whole_div(m.spec_cofactor(j, 2), det, 20_000);
    let q0 = inv.at(0, j);
    let q1 = inv.at(1, j);
    let q2 = inv.at(2, j);
    assert(q0 == m.spec_cofactor(j, 0).spec_div(det));
    assert(q1 == m.spec_cofactor(j, 1).spec_div(det));
    assert(q2 == m.spec_cofactor(j, 2).spec_div(det));
    assert(m.at(i, 0).whole_within(100) && m.at(i, 1).whole_within(100)
        && m.at(i, 2).whole_within(100));
    lemma_whole_times(m.at(i, 0), q0);
    lemma_whole_times(m.at(i, 1), q1);
    lemma_whole_times(m.at(i, 2), q2);
    let delta: int = if i == j {
        1
    } else {
        0
    };
    m.lemma_adjugate(i, j);
    lemma_row_error(
        d, delta, k0, q0.raw as int, c0, k1, q1.raw as int, c1, k2, q2.raw as int, c2, 0, 0, 0,
    );
    let t = 20_000 * s + 1;
    assert(-100 * t <= k0 * q0.raw <= 100 * t) by (nonlinear_arith)
        requires
            -100 <= k0 <= 100,
            -t <= q0.raw <= t,
            0 <= t,
    ;
    assert(-100 * t <= k1 * q1.raw <= 100 * t) by (nonlinear_arith)
        requires
            -100 <= k1 <= 100,
            -t <= q1.raw <= t,
            0 <= t,
    ;
    assert(-100 * t <= k2 * q2.raw <= 100 * t) by (nonlinear_arith)
        requires
            -100 <= k2 <= 100,
            -t <= q2.raw <= t,
            0 <= t,
    ;
    assert(m.spec_mul(inv).at(i, j) == m.data[i].spec_dot(inv.col(j)));
    assert(m.spec_mul(inv).at(i, j).raw == k0 * q0.raw + k1 * q1.raw + k2 * q2.raw);
    assert(Matrix3::spec_eye().at(i, j).raw == delta * s);
}

/// The product of a 3x3 matrix of whole numbers, none above a hundred in
/// magnitude, with its inverse is the identity within the tolerance.
pub proof fn inverse_product_matrix3(m: Matrix3)
    requires
        m.whole_within(entry_limit()),
        m.spec_is_invertible(),
    ensures
        m.spec_mul(m.spec_inverse().unwrap()).approx_eq(Matrix3::spec_eye()),
{
    let p = m.spec_mul(m.spec_inverse().unwrap());
    let e = Matrix3::spec_eye();
    assert forall|i: int| 0 <= i < 3 implies (#[trigger] p.data[i]).approx_eq(e.data[i]) by {
        inverse_product_entry_matrix3(m, i, 0);
        inverse_product_entry_matrix3(m, i, 1);
        inverse_product_entry_matrix3(m, i, 2);
        assert(p.at(i, 0) == p.data[i].x && p.at(i, 1) == p.data[i].y && p.at(i, 2) == p.data[i].z);
        assert(e.at(i, 0) == e.data[i].x && e.at(i, 1) == e.data[i].y && e.at(i, 2) == e.data[i].z);
    }
}

/// One entry of the product of a 4x4 matrix of small whole numbers with its
/// inverse is within the tolerance of the identity's.
pub proof fn inverse_product_entry_matrix4(m: Matrix4, i: int, j: int)
    requires
        m.whole_within(entry_limit()),
        m.spec_is_invertible(),
        0 <= i < 4,
        0 <= j < 4,
    ensures
        m.spec_mul(m.spec_inverse().unwrap()).at(
            i, j,
        ).spec_epsilon_eq(Matrix4::spec_eye().at(i, j)),
{
    let s = SCALE as int;
    let inv = m.spec_inverse().unwrap();
    let det = m.spec_determinant();
    m.lemma_exact_determinant();
    lemma_whole_raw(det);
    let d = det.units();
    assert(d != 0) by (nonlinear_arith)
        requires
            det.raw == d * s,
            det.raw != 0,
    ;
    let k0 = m.units(i, 0);
    let k1 = m.units(i, 1);
    let k2 = m.units(i, 2);
    let k3 = m.units(i, 3);
    let c0 = m.int_cofactor(j, 0);
    let c1 = m.int_cofactor(j, 1);
    let c2 = m.int_cofactor(j, 2);
    let c3 = m.int_cofactor(j, 3);
    m.lemma_exact_cofactor(j, 0);
    m.lemma_exact_cofactor(j, 1);
    m.lemma_exact_cofactor(j, 2);
    m.lemma_exact_cofactor(j, 3);
    lemma_whole_div(m.spec_cofactor(j, 0), det, 6_000_000);
    lemma_whole_div(m.spec_cofactor(j, 1), det, 6_000_000);
    lemma_whole_div(m.spec_cofactor(j, 2), det, 6_000_000);
    lemma_whole_div(m.spec_cofactor(j, 3), det, 6_000_000);
    let q0 = inv.at(0, j);
    let q1 = inv.at(1, j);
    let q2 = inv.at(2, j);
    let q3 = inv.at(3, j);
    assert(q0 == m.spec_cofactor(j, 0).spec_div(det));
    assert(q1 == m.spec_cofactor(j, 1).spec_div(det));
    assert(q2 == m.spec_cofactor(j, 2).spec_div(det));
    assert(q3 == m.spec_cofactor(j, 3).spec_div(det));
    assert(m.at(i, 0).whole_within(100) && m.at(i, 1).whole_within(100)
        && m.at(i, 2).whole_within(100) && m.at(i, 3).whole_within(100));
    lemma_whole_times(m.at(i, 0), q0);
    lemma_whole_times(m.at(i, 1), q1);
    lemma_whole_times(m.at(i, 2), q2);
    lemma_whole_times(m.at(i, 3), q3);
    let delta: int = if i == j {
        1
    } else {
        0
    };
    m.lemma_adjugate(i, j);
    lemma_row_error(
        d, delta, k0, q0.raw as int, c0, k1, q1.raw as int, c1, k2, q2.raw as int, c2, k3,
        q3.raw as int, c3,
    );
    let t = 6_000_000 * s + 1;
    assert(-100 * t <= k0 * q0.raw <= 100 * t) by (nonlinear_arith)
        requires
            -100 <= k0 <= 100,
            -t <= q0.raw <= t,
            0 <= t,
    ;
    assert(-100 * t <= k1 * q1.raw <= 100 * t) by (nonlinear_arith)
        requires
            -100 <= k1 <= 100,
            -t <= q1.raw <= t,
            0 <= t,
    ;
    assert(-100 * t <= k2 * q2.raw <= 100 * t) by (nonlinear_arith)
        requires
            -100 <= k2 <= 100,
            -t <= q2.raw <= t,
            0 <= t,
    ;
    assert(-100 * t <= k3 * q3.raw <= 100 * t) by (nonlinear_arith)
        requires
            -100 <= k3 <= 100,
            -t <= q3.raw <= t,
            0 <= t,
    ;
    assert(m.spec_mul(inv).at(i, j) == m.data[i].spec_dot(inv.col(j)));
    assert(m.spec_mul(inv).at(i, j).raw == k0 * q0.raw + k1 * q1.raw + k2 * q2.raw + k3 * q3.raw);
    assert(Matrix4::spec_eye().at(i, j).raw == delta * s);
}

/// The product of a 4x4 matrix of whole numbers, none above a hundred in
/// magnitude, with its inverse is the identity within the tolerance.
pub proof fn inverse_product_matrix4(m: Matrix4)
    requires
        m.whole_within(entry_limit()),
        m.spec_is_invertible(),
    ensures
        m.spec_mul(m.spec_inverse().unwrap()).approx_eq(Matrix4::spec_eye()),
{
    let p = m.spec_mul(m.spec_inverse().unwrap());
    let e = Matrix4::spec_eye();
    assert forall|i: int| 0 <= i < 4 implies (#[trigger] p.data[i]).approx_eq(e.data[i]) by {
        inverse_product_entry_matrix4(m, i, 0);
        inverse_product_entry_matrix4(m, i, 1);
        inverse_product_entry_matrix4(m, i, 2);
        inverse_product_entry_matrix4(m, i, 3);
        assert(p.at(i, 0) == p.data[i].x && p.at(i, 1) == p.data[i].y && p.at(i, 2) == p.data[i].z
            && p.at(i, 3) == p.data[i].w);
        assert(e.at(i, 0) == e.data[i].x && e.at(i, 1) == e.data[i].y && e.at(i, 2) == e.data[i].z
            && e.at(i, 3) == e.data[i].w);
    }
}

/// A tuple divided by its magnitude has magnitude one, within 217 raw units
/// and so within the tolerance, provided that no component is above ten
/// thousand and that the magnitude is a tenth or more.
pub proof fn normalized_magnitude_tuple4(v: Tuple4)
    requires
        abs(v.x.raw as int) <= component_limit(),
        abs(v.y.raw as int) <= component_limit(),
        abs(v.z.raw as int) <= component_limit(),
        abs(v.w.raw as int) <= component_limit(),
        10 * v.spec_magnitude().raw >= SCALE,
    ensures
        abs(v.spec_normalize().spec_magnitude().raw - SCALE) <= 217,
        v.spec_normalize().spec_magnitude().spec_epsilon_eq(Scalar::spec_one()),
{
    let s = SCALE as int;
    let lim = component_limit();
    let px = v.x.spec_mul(v.x);
    lemma_square_rounded(v.x, lim);
    assert(px.raw <= 100_000_000_000_000_001) by (nonlinear_arith)
        requires
            px.raw * s <= lim * lim + s,
            lim == 10_000_000_000_000,
            s == 1_000_000_000,
    ;
    let py = v.y.spec_mul(v.y);
    lemma_square_rounded(v.y, lim);
    assert(py.raw <= 100_000_000_000_000_001) by (nonlinear_arith)
        requires
            py.raw * s <= lim * lim + s,
            lim == 10_000_000_000_000,
            s == 1_000_000_000,
    ;
    let pz = v.z.spec_mul(v.z);
    lemma_square_rounded(v.z, lim);
    assert(pz.raw <= 100_000_000_000_000_001) by (nonlinear_arith)
        requires
            pz.raw * s <= lim * lim + s,
            lim == 10_000_000_000_000,
            s == 1_000_000_000,
    ;
    let pw = v.w.spec_mul(v.w);
    lemma_square_rounded(v.w, lim);
    assert(pw.raw <= 100_000_000_000_000_001) by (nonlinear_arith)
        requires
            pw.raw * s <= lim * lim + s,
            lim == 10_000_000_000_000,
            s == 1_000_000_000,
    ;
    let d = v.spec_dot(v);
    assert(d.raw == px.raw + py.raw + pz.raw + pw.raw);
    let mag = v.spec_magnitude();
    let m = mag.raw as int;
    lemma_root_positive(d);
    lemma_root_rounded(d);
    lemma_components_bounded(
        v.x.raw as int, v.y.raw as int, v.z.raw as int, v.w.raw as int, px.raw as int,
        py.raw as int, pz.raw as int, pw.raw as int, m, s,
    );
    let u = v.spec_normalize();
    lemma_quotient_rounded(v.x, mag);
    lemma_quotient_bound(v.x.raw as int, m, u.x.raw as int, s);
    lemma_quotient_rounded(v.y, mag);
    lemma_quotient_bound(v.y.raw as int, m, u.y.raw as int, s);
    lemma_quotient_rounded(v.z, mag);
    lemma_quotient_bound(v.z.raw as int, m, u.z.raw as int, s);
    lemma_quotient_rounded(v.w, mag);
    lemma_quotient_bound(v.w.raw as int, m, u.w.raw as int, s);
    let rx = u.x.spec_mul(u.x);
    lemma_square_rounded(u.x, s + 112);
    assert(rx.raw <= s + 226) by (nonlinear_arith)
        requires
            rx.raw * s <= (s + 112) * (s + 112) + s,
            s == 1_000_000_000,
    ;
    let ry = u.y.spec_mul(u.y);
    lemma_square_rounded(u.y, s + 112);
    assert(ry.raw <= s + 226) by (nonlinear_arith)
        requires
            ry.raw * s <= (s + 112) * (s + 112) + s,
            s == 1_000_000_000,
    ;
    let rz = u.z.spec_mul(u.z);
    lemma_square_rounded(u.z, s + 112);
    assert(rz.raw <= s + 226) by (nonlinear_arith)
        requires
            rz.raw * s <= (s + 112) * (s + 112) + s,
            s == 1_000_000_000,
    ;
    let rw = u.w.spec_mul(u.w);
    lemma_square_rounded(u.w, s + 112);
    assert(rw.raw <= s + 226) by (nonlinear_arith)
        requires
            rw.raw * s <= (s + 112) * (s + 112) + s,
            s == 1_000_000_000,
    ;
    let e = u.spec_dot(u);
    assert(e.raw == rx.raw + ry.raw + rz.raw + rw.raw);
    lemma_unit_square_sum(
        v.x.raw as int, v.y.raw as int, v.z.raw as int, v.w.raw as int,
        px.raw as int, py.raw as int, pz.raw as int, pw.raw as int,
        m,
        u.x.raw as int, u.y.raw as int, u.z.raw as int, u.w.raw as int,
        rx.raw as int, ry.raw as int, rz.raw as int, rw.raw as int,
        s,
    );
    lemma_root_rounded(e);
    lemma_root_near_one(e.raw as int, e.spec_sqrt().raw as int, s);
}

/// A tuple divided by its magnitude has magnitude one, within 217 raw units
/// and so within the tolerance, provided that no component is above ten
/// thousand and that the magnitude is a tenth or more.
pub proof fn normalized_magnitude_tuple3(v: Tuple3)
    requires
        abs(v.x.raw as int) <= component_limit(),
        abs(v.y.raw as int) <= component_limit(),
        abs(v.z.raw as int) <= component_limit(),
        10 * v.spec_magnitude().raw >= SCALE,
    ensures
        abs(v.spec_normalize().spec_magnitude().raw - SCALE) <= 217,
        v.spec_normalize().spec_magnitude().spec_epsilon_eq(Scalar::spec_one()),
{
    let s = SCALE as int;
    let lim = component_limit();
    let px = v.x.spec_mul(v.x);
    lemma_square_rounded(v.x, lim);
    assert(px.raw <= 100_000_000_000_000_001) by (nonlinear_arith)
        requires
            px.raw * s <= lim * lim + s,
            lim == 10_000_000_000_000,
            s == 1_000_000_000,
    ;
    let py = v.y.spec_mul(v.y);
    lemma_square_rounded(v.y, lim);
    assert(py.raw <= 100_000_000_000_000_001) by (nonlinear_arith)
        requires
            py.raw * s <= lim * lim + s,
            lim == 10_000_000_000_000,
            s == 1_000_000_000,
    ;
    let pz = v.z.spec_mul(v.z);
    lemma_square_rounded(v.z, lim);
    assert(pz.raw <= 100_000_000_000_000_001) by (nonlinear_arith)
        requires
            pz.raw * s <= lim * lim + s,
            lim == 10_000_000_000_000,
            s == 1_000_000_000,
    ;
    let d = v.spec_dot(v);
    assert(d.raw == px.raw + py.raw + pz.raw);
    let mag = v.spec_magnitude();
    let m = mag.raw as int;
    lemma_root_positive(d);
    lemma_root_rounded(d);
    lemma_components_bounded(
        v.x.raw as int, v.y.raw as int, v.z.raw as int, 0, px.raw as int, py.raw as int,
        pz.raw as int, 0, m, s,
    );
    let u = v.spec_normalize();
    lemma_quotient_rounded(v.x, mag);
    lemma_quotient_bound(v.x.raw as int, m, u.x.raw as int, s);
    lemma_quotient_rounded(v.y, mag);
    lemma_quotient_bound(v.y.raw as int, m, u.y.raw as int, s);
    lemma_quotient_rounded(v.z, mag);
    lemma_quotient_bound(v.z.raw as int, m, u.z.raw as int, s);
    let rx = u.x.spec_mul(u.x);
    lemma_square_rounded(u.x, s + 112);
    assert(rx.raw <= s + 226) by (nonlinear_arith)
        requires
            rx.raw * s <= (s + 112) * (s + 112) + s,
            s == 1_000_000_000,
    ;
    let ry = u.y.spec_mul(u.y);
    lemma_square_rounded(u.y, s + 112);
    assert(ry.raw <= s + 226) by (nonlinear_arith)
        requires
            ry.raw * s <= (s + 112) * (s + 112) + s,
            s == 1_000_000_000,
    ;
    let rz = u.z.spec_mul(u.z);
    lemma_square_rounded(u.z, s + 112);
    assert(rz.raw <= s + 226) by (nonlinear_arith)
        requires
            rz.raw * s <= (s + 112) * (s + 112) + s,
            s == 1_000_000_000,
    ;
    let e = u.spec_dot(u);
    assert(e.raw == rx.raw + ry.raw + rz.raw);
    lemma_unit_square_sum(
        v.x.raw as int, v.y.raw as int, v.z.raw as int, 0,
        px.raw as int, py.raw as int, pz.raw as int, 0,
        m,
        u.x.raw as int, u.y.raw as int, u.z.raw as int, 0,
        rx.raw as int, ry.raw as int, rz.raw as int, 0,
        s,
    );
    lemma_root_rounded(e);
    lemma_root_near_one(e.raw as int, e.spec_sqrt().raw as int, s);
}

/// A tuple divided by its magnitude has magnitude one, within 217 raw units
/// and so within the tolerance, provided that no component is above ten
/// thousand and that the magnitude is a tenth or more.
pub proof fn normalized_magnitude_tuple2(v: Tuple2)
    requires
        abs(v.x.raw as int) <= component_limit(),
        abs(v.y.raw as int) <= component_limit(),
        10 * v.spec_magnitude().raw >= SCALE,
    ensures
        abs(v.spec_normalize().spec_magnitude().raw - SCALE) <= 217,
        v.spec_normalize().spec_magnitude().spec_epsilon_eq(Scalar::spec_one()),
{
    let s = SCALE as int;
    let lim = component_limit();
    let px = v.x.spec_mul(v.x);
    lemma_square_rounded(v.x, lim);
    assert(px.raw <= 100_000_000_000_000_001) by (nonlinear_arith)
        requires
            px.raw * s <= lim * lim + s,
            lim == 10_000_000_000_000,
            s == 1_000_000_000,
    ;
    let py = v.y.spec_mul(v.y);
    lemma_square_rounded(v.y, lim);
    assert(py.raw <= 100_000_000_000_000_001) by (nonlinear_arith)
        requires
            py.raw * s <= lim * lim + s,
            lim == 10_000_000_000_000,
            s == 1_000_000_000,
    ;
    let d = v.spec_dot(v);
    assert(d.raw == px.raw + py.raw);
    let mag = v.spec_magnitude();
    let m = mag.raw as int;
    lemma_root_positive(d);
    lemma_root_rounded(d);
    lemma_components_bounded(
        v.x.raw as int, v.y.raw as int, 0, 0, px.raw as int, py.raw as int, 0, 0, m, s,
    );
    let u = v.spec_normalize();
    lemma_quotient_rounded(v.x, mag);
    lemma_quotient_bound(v.x.raw as int, m, u.x.raw as int, s);
    lemma_quotient_rounded(v.y, mag);
    lemma_quotient_bound(v.y.raw as int, m, u.y.raw as int, s);
    let rx = u.x.spec_mul(u.x);
    lemma_square_rounded(u.x, s + 112);
    assert(rx.raw <= s + 226) by (nonlinear_arith)
        requires
            rx.raw * s <= (s + 112) * (s + 112) + s,
            s == 1_000_000_000,
    ;
    let ry = u.y.spec_mul(u.y);
    lemma_square_rounded(u.y, s + 112);
    assert(ry.raw <= s + 226) by (nonlinear_arith)
        requires
            ry.raw * s <= (s + 112) * (s + 112) + s,
            s == 1_000_000_000,
    ;
    let e = u.spec_dot(u);
    assert(e.raw == rx.raw + ry.raw);
    lemma_unit_square_sum(
        v.x.raw as int, v.y.raw as int, 0, 0,
        px.raw as int, py.raw as int, 0, 0,
        m,
        u.x.raw as int, u.y.raw as int, 0, 0,
        rx.raw as int, ry.raw as int, 0, 0,
        s,
    );
    lemma_root_rounded(e);
    lemma_root_near_one(e.raw as int, e.spec_sqrt().raw as int, s);
}

} // verus!
