use trtc::{hit, intersect, point, scaling, shearing, translation, vector};
use trtc::{Intersection, Intersections, Matrix2, Matrix3, Matrix4, Ray, Scalar, Sphere};
use trtc::{Tuple2, Tuple3, Tuple4, MAX_RAW};

fn sc(x: f64) -> Scalar {
    Scalar::from_raw((x * 1e9).round() as i64)
}

fn m2(rows: [[f64; 2]; 2]) -> Matrix2 {
    Matrix2::from_array(rows.map(|row| row.map(sc)))
}

fn m3(rows: [[f64; 3]; 3]) -> Matrix3 {
    Matrix3::from_array(rows.map(|row| row.map(sc)))
}

fn m4(rows: [[f64; 4]; 4]) -> Matrix4 {
    Matrix4::from_array(rows.map(|row| row.map(sc)))
}

fn t2(data: [f64; 2]) -> Tuple2 {
    Tuple2::from_array(data.map(sc))
}

fn t3(data: [f64; 3]) -> Tuple3 {
    Tuple3::from_array(data.map(sc))
}

fn t4(data: [f64; 4]) -> Tuple4 {
    Tuple4::from_array(data.map(sc))
}

fn same2(a: &Matrix2, b: &Matrix2) -> bool {
    (0..2).all(|i| (0..2).all(|j| a[(i, j)] == b[(i, j)]))
}

fn same3(a: &Matrix3, b: &Matrix3) -> bool {
    (0..3).all(|i| (0..3).all(|j| a[(i, j)] == b[(i, j)]))
}

fn same4(a: &Matrix4, b: &Matrix4) -> bool {
    (0..4).all(|i| (0..4).all(|j| a[(i, j)] == b[(i, j)]))
}

fn same_tuple(a: &Tuple4, b: &Tuple4) -> bool {
    (0..4).all(|i| a[i] == b[i])
}

fn odd4() -> Matrix4 {
    m4([
        [0.1, -2.7, 3.14159, 4.0],
        [5.5, 6.25, -7.125, 8.000000001],
        [-9.0, 10.3, 11.7, -12.9],
        [13.5, -14.5, 15.5, 16.5],
    ])
}

#[test]
fn a_product_with_the_identity_is_exactly_the_other_factor() {
    let a = odd4();
    assert!(same4(&(a * Matrix4::eye()), &a));
    assert!(same4(&(Matrix4::eye() * a), &a));

    let b = m3([[0.1, -2.7, 3.3], [5.5, 6.25, -7.125], [-9.0, 10.3, 11.7]]);
    assert!(same3(&(b * Matrix3::eye()), &b));
    assert!(same3(&(Matrix3::eye() * b), &b));

    let c = m2([[0.1, -2.7], [5.5, 6.25]]);
    assert!(same2(&(c * Matrix2::eye()), &c));
    assert!(same2(&(Matrix2::eye() * c), &c));
}

#[test]
fn the_identity_maps_a_tuple_to_itself() {
    let v = t4([1.25, -2.5, 3.75, 1.0]);
    assert!(same_tuple(&(Matrix4::eye() * v), &v));
}

#[test]
fn transposing_twice_gives_the_matrix_back() {
    let a = odd4();
    assert!(same4(&a.transpose().transpose(), &a));
    assert!(!same4(&a.transpose(), &a));

    let b = m3([[0.1, -2.7, 3.3], [5.5, 6.25, -7.125], [-9.0, 10.3, 11.7]]);
    assert!(same3(&b.transpose().transpose(), &b));

    let c = m2([[0.1, -2.7], [5.5, 6.25]]);
    assert!(same2(&c.transpose().transpose(), &c));
}

#[test]
fn transposing_exchanges_rows_and_columns() {
    let a = m4([
        [0.0, 9.0, 3.0, 0.0],
        [9.0, 8.0, 0.0, 8.0],
        [1.0, 8.0, 5.0, 3.0],
        [0.0, 0.0, 5.0, 8.0],
    ]);
    let expected = m4([
        [0.0, 9.0, 1.0, 0.0],
        [9.0, 8.0, 8.0, 0.0],
        [3.0, 0.0, 5.0, 5.0],
        [0.0, 8.0, 3.0, 8.0],
    ]);
    assert!(same4(&a.transpose(), &expected));
    assert!(same4(&Matrix4::eye().transpose(), &Matrix4::eye()));
}

#[test]
fn the_cross_product_changes_sign_with_the_order() {
    let a = t4([1.1, -2.2, 3.3, 0.0]);
    let b = t4([-0.7, 0.35, 9.125, 0.0]);
    assert!(same_tuple(&a.cross(&b), &-b.cross(&a)));

    let c = t3([1.1, -2.2, 3.3]);
    let d = t3([-0.7, 0.35, 9.125]);
    let left = c.cross(&d);
    let right = -d.cross(&c);
    assert_eq!((left.x, left.y, left.z), (right.x, right.y, right.z));
}

#[test]
fn the_cross_product_changes_sign_at_the_limits_too() {
    let big = Scalar::from_raw(MAX_RAW);
    let a = Tuple4::from_array([big, -big, big, Scalar::zero()]);
    let b = Tuple4::from_array([-big, big, big, Scalar::zero()]);
    assert!(same_tuple(&a.cross(&b), &-b.cross(&a)));
}

#[test]
fn the_cross_product_of_three_component_tuples() {
    let a = t3([1.0, 2.0, 3.0]);
    let b = t3([2.0, 3.0, 4.0]);
    assert_eq!(a.cross(&b), t3([-1.0, 2.0, -1.0]));
    assert_eq!(b.cross(&a), t3([1.0, -2.0, 1.0]));
}

#[test]
fn a_translation_leaves_a_free_vector_exactly_as_it_is() {
    let v = vector(sc(-3.25), sc(4.5), sc(0.000000001));
    let moved = translation(sc(5.0), sc(-3.0), sc(2.0)) * v;
    assert!(same_tuple(&moved, &v));
    assert!(moved.is_vector());
}

#[test]
fn a_translation_moves_a_point_by_its_offsets() {
    let p = point(sc(-3.25), sc(4.5), sc(5.0));
    let moved = translation(sc(5.0), sc(-3.0), sc(0.125)) * p;
    assert!(same_tuple(&moved, &point(sc(1.75), sc(1.5), sc(5.125))));
    assert!(moved.is_point());
}

#[test]
fn a_matrix_times_its_inverse_is_the_identity_within_the_tolerance() {
    let a = m4([
        [8.0, -5.0, 9.0, 2.0],
        [7.0, 5.0, 6.0, 1.0],
        [-6.0, 0.0, 9.0, 6.0],
        [-3.0, 0.0, -9.0, -4.0],
    ]);
    assert_eq!(a * a.inverse().unwrap(), Matrix4::eye());
    assert_eq!(a.inverse().unwrap() * a, Matrix4::eye());

    let b = m3([[1.0, 2.0, 6.0], [-5.0, 8.0, -4.0], [2.0, 6.0, 4.0]]);
    assert_eq!(b * b.inverse().unwrap(), Matrix3::eye());

    let c = m2([[1.0, 5.0], [-3.0, 2.0]]);
    assert_eq!(c * c.inverse().unwrap(), Matrix2::eye());
}

#[test]
fn the_inverse_of_the_identity_is_exactly_the_identity() {
    assert!(same4(&Matrix4::eye().inverse().unwrap(), &Matrix4::eye()));
    assert!(same3(&Matrix3::eye().inverse().unwrap(), &Matrix3::eye()));
    assert!(same2(&Matrix2::eye().inverse().unwrap(), &Matrix2::eye()));
}

#[test]
fn the_inverse_of_a_2x2_matrix() {
    let c = m2([[1.0, 5.0], [-3.0, 2.0]]);
    let inverse = c.inverse().unwrap();
    assert_eq!(inverse[(0, 0)], sc(2.0) / sc(17.0));
    assert_eq!(inverse[(0, 1)], sc(-5.0) / sc(17.0));
    assert_eq!(inverse[(1, 0)], sc(3.0) / sc(17.0));
    assert_eq!(inverse[(1, 1)], sc(1.0) / sc(17.0));
}

#[test]
fn a_matrix_with_determinant_zero_has_no_inverse() {
    let a = m4([
        [-4.0, 2.0, -2.0, -3.0],
        [9.0, 6.0, 2.0, 6.0],
        [0.0, -5.0, 1.0, -5.0],
        [0.0, 0.0, 0.0, 0.0],
    ]);
    assert!(a.inverse().is_none());
    assert!(m3([[1.0, 2.0, 3.0], [2.0, 4.0, 6.0], [0.0, 1.0, 0.0]]).inverse().is_none());
    assert!(m2([[1.0, 2.0], [2.0, 4.0]]).inverse().is_none());
    assert!(Matrix4::zeroes().inverse().is_none());
}

#[test]
fn a_determinant_of_one_raw_unit_still_counts_as_invertible() {
    let a = m2([[0.00003, 0.0], [0.0, 0.00003]]);
    assert_eq!(a.determinant(), Scalar::from_raw(1));
    assert!(a.is_invertible());
    let b = m2([[0.00002, 0.0], [0.0, 0.00002]]);
    assert_eq!(b.determinant(), Scalar::zero());
    assert!(!b.is_invertible());
    assert!(b.inverse().is_none());
}

#[test]
fn minors_and_cofactors_of_a_2x2_matrix() {
    let a = m2([[1.0, 5.0], [-3.0, 2.0]]);
    assert_eq!(a.submatrix(0, 0), sc(2.0));
    assert_eq!(a.submatrix(0, 1), sc(-3.0));
    assert_eq!(a.submatrix(1, 0), sc(5.0));
    assert_eq!(a.submatrix(1, 1), sc(1.0));
    assert_eq!(a.minor(0, 1), sc(-3.0));
    assert_eq!(a.cofactor(0, 0), sc(2.0));
    assert_eq!(a.cofactor(0, 1), sc(3.0));
    assert_eq!(a.cofactor(1, 0), sc(-5.0));
    assert_eq!(a.cofactor(1, 1), sc(1.0));
}

#[test]
fn every_submatrix_of_a_3x3_matrix() {
    let a = m3([[1.0, 2.0, 3.0], [4.0, 5.0, 6.0], [7.0, 8.0, 9.0]]);
    assert!(same2(&a.submatrix(0, 0), &m2([[5.0, 6.0], [8.0, 9.0]])));
    assert!(same2(&a.submatrix(1, 1), &m2([[1.0, 3.0], [7.0, 9.0]])));
    assert!(same2(&a.submatrix(2, 2), &m2([[1.0, 2.0], [4.0, 5.0]])));
    assert!(same2(&a.submatrix(2, 0), &m2([[2.0, 3.0], [5.0, 6.0]])));
    assert!(same2(&a.submatrix(1, 2), &m2([[1.0, 2.0], [7.0, 8.0]])));
}

#[test]
fn the_corner_submatrices_of_a_4x4_matrix() {
    let a = m4([
        [1.0, 2.0, 3.0, 4.0],
        [5.0, 6.0, 7.0, 8.0],
        [9.0, 10.0, 11.0, 12.0],
        [13.0, 14.0, 15.0, 16.0],
    ]);
    assert!(same3(&a.submatrix(0, 0), &m3([[6.0, 7.0, 8.0], [10.0, 11.0, 12.0], [14.0, 15.0, 16.0]])));
    assert!(same3(&a.submatrix(3, 3), &m3([[1.0, 2.0, 3.0], [5.0, 6.0, 7.0], [9.0, 10.0, 11.0]])));
    assert!(same3(&a.submatrix(0, 3), &m3([[5.0, 6.0, 7.0], [9.0, 10.0, 11.0], [13.0, 14.0, 15.0]])));
}

#[test]
fn a_determinant_with_fractions() {
    let a = m2([[0.5, 1.5], [-2.5, 4.0]]);
    assert_eq!(a.determinant(), sc(5.75));
    let b = m3([[0.5, 0.0, 0.0], [0.0, 0.25, 0.0], [0.0, 0.0, 8.0]]);
    assert_eq!(b.determinant(), sc(1.0));
}

#[test]
fn products_of_small_matrices_and_tuples() {
    let a = m2([[1.0, 2.0], [3.0, 4.0]]);
    let b = m2([[0.5, -1.0], [2.0, 0.0]]);
    assert!(same2(&(a * b), &m2([[4.5, -1.0], [9.5, -3.0]])));
    assert_eq!(a * t2([1.0, -1.0]), t2([-1.0, -1.0]));

    let c = m3([[1.0, 2.0, 3.0], [0.0, 1.0, 4.0], [5.0, 6.0, 0.0]]);
    assert_eq!(c * t3([1.0, 2.0, 3.0]), t3([14.0, 14.0, 17.0]));
    assert!(same3(&(c * c), &m3([[16.0, 22.0, 11.0], [20.0, 25.0, 4.0], [5.0, 16.0, 39.0]])));
}

#[test]
fn sizes_and_components() {
    assert_eq!(Tuple2::dim(), 2);
    assert_eq!(Tuple3::dim(), 3);
    assert_eq!(Tuple4::dim(), 4);
    assert_eq!(Matrix2::dim(), (2, 2));
    assert_eq!(Matrix3::dim(), (3, 3));
    assert_eq!(Matrix4::dim(), (4, 4));
    assert_eq!((Matrix2::rows(), Matrix2::cols()), (2, 2));
    assert_eq!((Matrix3::rows(), Matrix3::cols()), (3, 3));
    assert_eq!((Matrix4::rows(), Matrix4::cols()), (4, 4));

    let mut v = t4([1.0, 2.0, 3.0, 4.0]);
    assert_eq!((v[0], v[1], v[2], v[3]), (sc(1.0), sc(2.0), sc(3.0), sc(4.0)));
    v[2] = sc(-3.0);
    v.set(0, sc(9.0));
    assert!(same_tuple(&v, &t4([9.0, 2.0, -3.0, 4.0])));

    let mut m = Matrix3::zeroes();
    m[(1, 2)] = sc(5.0);
    m.set(2, 0, sc(7.0));
    assert!(same3(&m, &m3([[0.0, 0.0, 0.0], [0.0, 0.0, 5.0], [7.0, 0.0, 0.0]])));
}

#[test]
fn defaults_are_zero() {
    assert!(same4(&Matrix4::default(), &Matrix4::zeroes()));
    assert!(same_tuple(&Tuple4::default(), &t4([0.0, 0.0, 0.0, 0.0])));
    assert_eq!(Tuple2::default(), t2([0.0, 0.0]));
    assert_eq!(Tuple3::default(), t3([0.0, 0.0, 0.0]));
    assert_eq!(Matrix2::default(), Matrix2::zeroes());
    assert_eq!(Matrix3::default(), Matrix3::zeroes());
    assert_ne!(Matrix4::eye(), Matrix4::zeroes());
}

#[test]
fn tuples_are_equal_within_the_tolerance_only() {
    assert_eq!(t4([1.0, 2.0, 3.0, 4.0]), t4([1.000009, 2.0, 3.0, 3.999991]));
    assert_ne!(t4([1.0, 2.0, 3.0, 4.0]), t4([1.00001, 2.0, 3.0, 4.0]));
    assert_ne!(t4([1.0, 2.0, 3.0, 4.0]), t4([1.0, 2.0, 3.0, 4.00001]));
    assert_eq!(m2([[1.0, 2.0], [3.0, 4.0]]), m2([[1.0, 2.0], [3.0, 4.000009]]));
    assert_ne!(m2([[1.0, 2.0], [3.0, 4.0]]), m2([[1.0, 2.0], [3.0, 4.00001]]));
}

#[test]
fn the_point_test_is_exact() {
    assert!(!Tuple4::from_array([sc(0.0), sc(0.0), sc(0.0), Scalar::from_raw(1_000_000_001)]).is_point());
    assert!(!Tuple4::from_array([sc(0.0), sc(0.0), sc(0.0), Scalar::from_raw(1)]).is_vector());
    assert!(!t4([0.0, 0.0, 0.0, 2.0]).is_point());
    assert!(!t4([0.0, 0.0, 0.0, 2.0]).is_vector());
}

#[test]
fn normalizing_the_zero_vector_gives_the_zero_vector() {
    let zero = vector(sc(0.0), sc(0.0), sc(0.0));
    assert!(same_tuple(&zero.normalize(), &zero));
    assert_eq!(zero.magnitude(), sc(0.0));
}

#[test]
fn normalizing_a_vector_too_short_to_measure_goes_to_the_extremes() {
    let tiny = Tuple4::from_array([Scalar::from_raw(3), Scalar::from_raw(-4), sc(0.0), sc(0.0)]);
    assert_eq!(tiny.magnitude(), sc(0.0));
    let n = tiny.normalize();
    assert_eq!((n.x.raw, n.y.raw, n.z.raw, n.w.raw), (MAX_RAW, -MAX_RAW, 0, 0));
}

#[test]
fn the_magnitude_counts_the_fourth_component() {
    assert_eq!(t4([1.0, 1.0, 1.0, 1.0]).magnitude(), sc(2.0));
    assert_eq!(t3([2.0, 3.0, 6.0]).magnitude(), sc(7.0));
    assert_eq!(t2([3.0, 4.0]).magnitude(), sc(5.0));
    assert_eq!(t2([3.0, 4.0]).normalize(), t2([0.6, 0.8]));
    assert_eq!(t3([2.0, 3.0, 6.0]).dot(&t3([1.0, -1.0, 0.5])), sc(2.0));
}

#[test]
fn shearing_moves_each_coordinate_by_the_two_others() {
    let m = shearing(sc(1.0), sc(2.0), sc(3.0), sc(4.0), sc(5.0), sc(6.0));
    let p = point(sc(1.0), sc(10.0), sc(100.0));
    assert!(same_tuple(&(m * p), &point(sc(211.0), sc(413.0), sc(165.0))));
}

#[test]
fn scaling_has_the_factors_on_its_diagonal() {
    let m = scaling(sc(2.0), sc(3.0), sc(4.0));
    assert!(same4(
        &m,
        &m4([
            [2.0, 0.0, 0.0, 0.0],
            [0.0, 3.0, 0.0, 0.0],
            [0.0, 0.0, 4.0, 0.0],
            [0.0, 0.0, 0.0, 1.0],
        ])
    ));
}

#[test]
fn a_chain_multiplies_each_new_transform_from_the_left() {
    let chained = Matrix4::eye().scale(sc(2.0), sc(2.0), sc(2.0)).translate(sc(1.0), sc(0.0), sc(0.0));
    let product = translation(sc(1.0), sc(0.0), sc(0.0)) * scaling(sc(2.0), sc(2.0), sc(2.0));
    assert!(same4(&chained, &product));
    let p = point(sc(1.0), sc(1.0), sc(1.0));
    assert!(same_tuple(&(chained * p), &point(sc(3.0), sc(2.0), sc(2.0))));

    let other = Matrix4::eye().translate(sc(1.0), sc(0.0), sc(0.0)).scale(sc(2.0), sc(2.0), sc(2.0));
    assert!(same_tuple(&(other * p), &point(sc(4.0), sc(2.0), sc(2.0))));
}

#[test]
fn the_hit_skips_an_intersection_at_zero() {
    let s = Sphere::default();
    let mut xs = Intersections::new();
    xs.add(Intersection::new(sc(0.0), &s));
    assert!(hit(&xs).is_none());
    xs.add(Intersection::new(sc(3.0), &s));
    xs.add(Intersection::new(Scalar::from_raw(1), &s));
    assert_eq!(hit(&xs).unwrap().t, Scalar::from_raw(1));
}

#[test]
fn there_is_no_hit_without_intersections() {
    let xs = Intersections::new();
    assert_eq!(xs.count(), 0);
    assert!(hit(&xs).is_none());
}

#[test]
fn of_equal_smallest_parameters_the_first_is_the_hit() {
    let a = Sphere::default();
    let b = Sphere::default();
    let mut xs = Intersections::new();
    xs.add(Intersection::new(sc(5.0), &a));
    xs.add(Intersection::new(sc(2.0), &b));
    xs.add(Intersection::new(sc(2.0), &a));
    let h = hit(&xs).unwrap();
    assert_eq!(h.t, sc(2.0));
    assert!(std::ptr::eq(h.object, &b));
    assert!(std::ptr::eq(h, &xs[1]));
}

#[test]
fn intersections_of_equal_spheres_differ_unless_the_sphere_is_the_same() {
    let a = Sphere::default();
    let b = Sphere::default();
    assert_eq!(a, b);
    assert_eq!(Intersection::new(sc(1.0), &a), Intersection::new(sc(1.0), &a));
    assert_ne!(Intersection::new(sc(1.0), &a), Intersection::new(sc(1.0), &b));
    assert_ne!(Intersection::new(sc(1.0), &a), Intersection::new(sc(1.000000001), &a));
}

#[test]
fn a_sphere_whose_transform_has_no_inverse_is_never_met() {
    let r = Ray::new(point(sc(0.0), sc(0.0), sc(-5.0)), vector(sc(0.0), sc(0.0), sc(1.0)));
    let flat = Sphere::new(scaling(sc(1.0), sc(1.0), sc(0.0)));
    assert_eq!(intersect(&flat, &r).count(), 0);
    let nothing = Sphere::new(Matrix4::zeroes());
    assert_eq!(intersect(&nothing, &r).count(), 0);
}

#[test]
fn a_ray_without_direction_gives_two_intersections_at_zero_and_no_hit() {
    let s = Sphere::default();
    for z in [0.5, 1.0, 5.0] {
        let still = Ray::new(point(sc(0.0), sc(0.0), sc(z)), vector(sc(0.0), sc(0.0), sc(0.0)));
        let xs = intersect(&s, &still);
        assert_eq!(xs.count(), 2);
        assert_eq!((xs[0].t, xs[1].t), (sc(0.0), sc(0.0)));
        assert!(hit(&xs).is_none());
    }
}

#[test]
fn the_two_intersections_come_in_increasing_order() {
    let s = Sphere::new(scaling(sc(2.0), sc(0.5), sc(1.5)).translate(sc(0.25), sc(0.0), sc(-1.0)));
    let r = Ray::new(
        point(sc(0.3), sc(0.1), sc(-5.0)),
        vector(sc(-0.02), sc(0.01), sc(1.0)).normalize(),
    );
    let xs = intersect(&s, &r);
    assert_eq!(xs.count(), 2);
    assert!(xs[0].t.raw < xs[1].t.raw);
    assert!(std::ptr::eq(hit(&xs).unwrap(), &xs[0]));
}

#[test]
fn rays_and_spheres_compare_by_value_within_the_tolerance() {
    let r = Ray::new(point(sc(1.0), sc(2.0), sc(3.0)), vector(sc(0.0), sc(1.0), sc(0.0)));
    let near = Ray::new(point(sc(1.000009), sc(2.0), sc(3.0)), vector(sc(0.0), sc(1.0), sc(0.0)));
    let far = Ray::new(point(sc(1.0), sc(2.0), sc(3.0)), vector(sc(0.0), sc(1.0), sc(0.00001)));
    assert_eq!(r, near);
    assert_ne!(r, far);
    assert_ne!(Sphere::default(), Sphere::new(scaling(sc(1.0), sc(1.0), sc(1.00001))));
}

#[test]
fn normalized_vectors_have_magnitude_one_within_a_few_raw_units() {
    let vectors = [
        [1.0, 2.0, 3.0, 0.0],
        [0.1, 0.0, 0.0, 0.0],
        [0.06, 0.08, 0.0, 0.0],
        [-10000.0, 10000.0, -10000.0, 10000.0],
        [0.000000001, -0.3, 0.000000001, 0.3],
        [123.456789, -0.000123, 7.5, 1.0],
        [3.0, 4.0, 12.0, 84.0],
    ];
    for data in vectors {
        let v = t4(data);
        assert!(v.magnitude().raw * 10 >= 1_000_000_000);
        let length = v.normalize().magnitude();
        assert!((length.raw - 1_000_000_000).abs() <= 217, "{:?}", data);
        assert!(trtc::epsilon_eq(length, Scalar::one()));
    }
    let w = t3([0.3, -0.4, 1.2]);
    assert!((w.normalize().magnitude().raw - 1_000_000_000).abs() <= 217);
    let u = t2([-7.0, 24.0]);
    assert!((u.normalize().magnitude().raw - 1_000_000_000).abs() <= 217);
}

#[test]
fn matrices_of_small_whole_numbers_times_their_inverses_give_the_identity() {
    let mut seed: u64 = 12345;
    let mut next = move || {
        seed = seed.wrapping_mul(6364136223846793005).wrapping_add(1442695040888963407);
        ((seed >> 33) % 201) as f64 - 100.0
    };
    let mut invertible = 0;
    for _ in 0..200 {
        let mut rows = [[0.0; 4]; 4];
        for row in rows.iter_mut() {
            for entry in row.iter_mut() {
                *entry = next();
            }
        }
        let m = m4(rows);
        if let Some(inverse) = m.inverse() {
            invertible += 1;
            assert_eq!(m * inverse, Matrix4::eye(), "{:?}", rows);
        }
    }
    assert!(invertible > 150);
}

#[test]
fn the_largest_whole_entries_still_give_an_exact_determinant() {
    let m = m4([
        [100.0, -100.0, 100.0, -100.0],
        [100.0, 100.0, -100.0, -100.0],
        [100.0, -100.0, -100.0, 100.0],
        [100.0, 100.0, 100.0, 100.0],
    ]);
    assert_eq!(m.determinant(), sc(-1_600_000_000.0));
    assert_eq!(m * m.inverse().unwrap(), Matrix4::eye());
}

#[test]
fn the_inverse_of_a_matrix_with_a_tiny_determinant_is_coarse() {
    let m = m2([[0.00003, 0.0], [0.0, 0.00003]]);
    let inverse = m.inverse().unwrap();
    assert_eq!(inverse[(0, 0)], sc(30000.0));
    assert_eq!((m * inverse)[(0, 0)], sc(0.9));
    assert_ne!(m * inverse, Matrix2::eye());
}

#[test]
fn intersections_agree_with_the_closed_form_for_a_moved_and_scaled_sphere() {
    let center = [0.75, -0.5, 2.0];
    let radius = 1.5;
    let sphere = Sphere::new(
        Matrix4::eye()
            .scale(sc(radius), sc(radius), sc(radius))
            .translate(sc(center[0]), sc(center[1]), sc(center[2])),
    );
    let origin = [0.25, 0.5, -6.0];
    let mut met = 0;
    let mut missed = 0;
    for i in -6..=6 {
        for j in -6..=6 {
            let aim = [0.4 * i as f64, 0.4 * j as f64, 2.0];
            let d = [aim[0] - origin[0], aim[1] - origin[1], aim[2] - origin[2]];
            let length = (d[0] * d[0] + d[1] * d[1] + d[2] * d[2]).sqrt();
            let d = [d[0] / length, d[1] / length, d[2] / length];
            let to_origin = [origin[0] - center[0], origin[1] - center[1], origin[2] - center[2]];
            let b = d[0] * to_origin[0] + d[1] * to_origin[1] + d[2] * to_origin[2];
            let c = to_origin[0] * to_origin[0] + to_origin[1] * to_origin[1]
                + to_origin[2] * to_origin[2]
                - radius * radius;
            let discriminant = b * b - c;
            if discriminant.abs() < 0.001 {
                continue;
            }
            let ray = Ray::new(
                point(sc(origin[0]), sc(origin[1]), sc(origin[2])),
                vector(sc(d[0]), sc(d[1]), sc(d[2])),
            );
            let xs = intersect(&sphere, &ray);
            if discriminant < 0.0 {
                assert_eq!(xs.count(), 0);
                assert!(hit(&xs).is_none());
                missed += 1;
            } else {
                assert_eq!(xs.count(), 2);
                let near = -b - discriminant.sqrt();
                let far = -b + discriminant.sqrt();
                assert!((xs[0].t.raw as f64 / 1e9 - near).abs() < 1e-5, "{} {}", i, j);
                assert!((xs[1].t.raw as f64 / 1e9 - far).abs() < 1e-5, "{} {}", i, j);
                assert!(std::ptr::eq(hit(&xs).unwrap(), &xs[0]));
                met += 1;
            }
        }
    }
    assert!(met > 20 && missed > 20);
}
