use trtc::{Matrix2, Matrix3, Matrix4, Scalar, Tuple4};

fn sc(x: f64) -> Scalar {
    Scalar::from_raw((x * 1e9).round() as i64)
}

fn m2(rows: [[f64; 2]; 2]) -> Matrix2 {
    Matrix2::from_array(rows.map(|row| row.map(sc)))
}

fn m3(rows: [[f64; 3]; 3]) -> Matrix3 {
    Matrix3::from_array(rows.map(|row| row.map(sc)))
}

fn m4(rows: [[f64; 4]; 4]) -> Matrix4 {
    Matrix4::from_array(rows.map(|row| row.map(sc)))
}

fn t4(data: [f64; 4]) -> Tuple4 {
    Tuple4::from_array(data.map(sc))
}

#[test]
fn test_constructing_and_inspecting_a_4x4_matrix() {
    let m = m4([
        [ 1.0,  2.0,  3.0,  4.0],
        [ 5.5,  6.5,  7.5,  8.5],
        [ 9.0, 10.0, 11.0, 12.0],
        [13.5, 14.5, 15.5, 16.5],
    ]);

    assert_eq!(m[(0, 0)], sc(1.0));
    assert_eq!(m[(0, 3)], sc(4.0));
    assert_eq!(m[(1, 0)], sc(5.5));
    assert_eq!(m[(1, 2)], sc(7.5));
    assert_eq!(m[(2, 2)], sc(11.0));
    assert_eq!(m[(3, 0)], sc(13.5));
    assert_eq!(m[(3, 2)], sc(15.5));
}

#[test]
fn test_a_2x2_matrix_ought_to_be_representable() {
    let m = m2([
        [-3.0,  5.0],
        [ 1.0, -2.0],
    ]);

    assert_eq!(m[(0, 0)], sc(-3.0));
    assert_eq!(m[(0, 1)], sc(5.0));
    assert_eq!(m[(1, 0)], sc(1.0));
    assert_eq!(m[(1, 1)], sc(-2.0));
}

#[test]
fn test_a_3x3_matrix_ought_to_be_representable() {
    let m = m3([
        [-3.0,  5.0,  0.0],
        [ 1.0, -2.0, -7.0],
        [ 0.0,  1.0,  1.0],
    ]);

    assert_eq!(m[(0, 0)], sc(-3.0));
    assert_eq!(m[(1, 1)], sc(-2.0));
    assert_eq!(m[(2, 2)], sc(1.0));
}

#[test]
fn test_matrix_equality_with_identical_matrices() {
    let a = m4([
        [1.0, 2.0, 3.0, 4.0],
        [5.0, 6.0, 7.0, 8.0],
        [9.0, 8.0, 7.0, 6.0],
        [5.0, 4.0, 3.0, 2.0],
    ]);
    let b = m4([
        [1.0, 2.0, 3.0, 4.0],
        [5.0, 6.0, 7.0, 8.0],
        [9.0, 8.0, 7.0, 6.0],
        [5.0, 4.0, 3.0, 2.0],
    ]);

    assert_eq!(a, b);
}

#[test]
fn test_matrix_equality_with_different_matrices() {
    let a = m4([
        [1.0, 2.0, 3.0, 4.0],
        [5.0, 6.0, 7.0, 8.0],
        [9.0, 8.0, 7.0, 6.0],
        [5.0, 4.0, 3.0, 2.0],
    ]);
    let b = m4([
        [2.0, 3.0, 4.0, 5.0],
        [6.0, 7.0, 8.0, 9.0],
        [8.0, 7.0, 6.0, 5.0],
        [4.0, 3.0, 2.0, 1.0],
    ]);

    assert_ne!(a, b);
}

#[test]
fn test_multiplying_two_matrices() {
    let a = m4([
        [1.0, 2.0, 3.0, 4.0],
        [5.0, 6.0, 7.0, 8.0],
        [9.0, 8.0, 7.0, 6.0],
        [5.0, 4.0, 3.0, 2.0],
    ]);
    let b = m4([
        [-2.0, 1.0, 2.0,  3.0],
        [ 3.0, 2.0, 1.0, -1.0],
        [ 4.0, 3.0, 6.0,  5.0],
        [ 1.0, 2.0, 7.0,  8.0],
    ]);
    assert_eq!(a * b, m4([
        [20.0, 22.0,  50.0,  48.0],
        [44.0, 54.0, 114.0, 108.0],
        [40.0, 58.0, 110.0, 102.0],
        [16.0, 26.0,  46.0,  42.0],
    ]));
}

#[test]
fn test_a_matrix_multiplied_by_a_tuple() {
    let a = m4([
        [1.0, 2.0, 3.0, 4.0],
        [2.0, 4.0, 4.0, 2.0],
        [8.0, 6.0, 4.0, 1.0],
        [0.0, 0.0, 0.0, 1.0],
    ]);

    let b = t4([1.0, 2.0, 3.0, 1.0]);

    assert_eq!(a * b, t4([18.0, 24.0, 33.0, 1.0]));
}

#[test]
fn test_multiplying_a_matrix_by_the_identity_matrix() {
    let a = m4([
        [0.0, 1.0, 2.0, 4.0],
        [1.0, 2.0, 4.0, 8.0],
        [2.0, 4.0, 8.0, 16.0],
        [4.0, 8.0, 16.0, 32.0],
    ]);

    assert_eq!(a * Matrix4::eye(), a);
}

#[test]
fn test_calculating_the_determinant_of_a_2x2_matrix() {
    let a = m2([
        [ 1.0, 5.0],
        [-3.0, 2.0],
    ]);

    assert_eq!(a.determinant(), sc(17.0));
}

#[test]
fn test_a_submatrix_of_a_3x3_matrix_is_a_2x2_matrix() {
    let a = m3([
        [ 1.0, 5.0,  0.0],
        [-3.0, 2.0,  7.0],
        [ 0.0, 6.0, -3.0],
    ]);
    assert_eq!(a.submatrix(0, 2), m2([
        [-3.0, 2.0],
        [ 0.0, 6.0],
    ]));
}

#[test]
fn test_a_submatrix_of_a_4x4_matrix_is_a_3x3_matrix() {
    let a = m4([
        [-6.0,  1.0,  1.0,  6.0],
        [-8.0,  5.0,  8.0,  6.0],
        [-1.0,  0.0,  8.0,  2.0],
        [-7.0,  1.0, -1.0,  1.0],
    ]);
    assert_eq!(a.submatrix(2, 1), m3([
        [-6.0,  1.0,  6.0],
        [-8.0,  8.0,  6.0],
        [-7.0, -1.0,  1.0],
    ]));
}

#[test]
fn test_calculating_a_minor_of_a_3x3_matrix() {
    let a = m3([
        [ 3.0,  5.0,  0.0],
        [ 2.0, -1.0, -7.0],
        [ 6.0, -1.0,  5.0],
    ]);

    let b = a.submatrix(1, 0);

    assert_eq!(b.determinant(), sc(25.0));
    assert_eq!(a.minor(1, 0), sc(25.0));
}

#[test]
fn test_calculating_the_cofactor_of_a_3x3_matrix() {
    let a = m3([
        [ 3.0,  5.0,  0.0],
        [ 2.0, -1.0, -7.0],
        [ 6.0, -1.0,  5.0],
    ]);

    assert_eq!(a.minor(0, 0), sc(-12.0));
    assert_eq!(a.cofactor(0, 0), sc(-12.0));
    assert_eq!(a.minor(1, 0), sc(25.0));
    assert_eq!(a.cofactor(1, 0), sc(-25.0));
}

#[test]
fn test_calculating_the_determinant_of_a_3x3_matrix() {
    let a = m3([
        [ 1.0, 2.0,  6.0],
        [-5.0, 8.0, -4.0],
        [ 2.0, 6.0,  4.0],
    ]);

    assert_eq!(a.cofactor(0, 0), sc(56.0));
    assert_eq!(a.cofactor(0, 1), sc(12.0));
    assert_eq!(a.cofactor(0, 2), sc(-46.0));
    assert_eq!(a.determinant(), sc(-196.0));
}

#[test]
fn test_calculating_the_determinant_of_a_4x4_matrix() {
    let a = m4([
        [-2.0, -8.0,  3.0,  5.0],
        [-3.0,  1.0,  7.0,  3.0],
        [ 1.0,  2.0, -9.0,  6.0],
        [-6.0,  7.0,  7.0, -9.0],
    ]);

    assert_eq!(a.cofactor(0, 0), sc(690.0));
    assert_eq!(a.cofactor(0, 1), sc(447.0));
    assert_eq!(a.cofactor(0, 2), sc(210.0));
    assert_eq!(a.cofactor(0, 3), sc(51.0));
    assert_eq!(a.determinant(), sc(-4071.0));
}

#[test]
fn test_testing_an_invertible_matrix_for_invertibility() {
    let a = m4([
        [6.0,  4.0, 4.0,  4.0],
        [5.0,  5.0, 7.0,  6.0],
        [4.0, -9.0, 3.0, -7.0],
        [9.0,  1.0, 7.0, -6.0]
    ]);

    assert_eq!(a.determinant(), sc(-2120.0));
    assert!(a.is_invertible());
}

#[test]
fn test_testing_a_noninvertible_matrix_for_invertibility() {
    let a = m4([
        [-4.0,  2.0, -2.0, -3.0],
        [ 9.0,  6.0,  2.0,  6.0],
        [ 0.0, -5.0,  1.0, -5.0],
        [ 0.0,  0.0,  0.0,  0.0]
    ]);

    assert_eq!(a.determinant(), sc(0.0));
    assert!(!a.is_invertible());
}

#[test]
fn test_calculating_the_inverse_of_a_matrix() {
    let a = m4([
        [-5.0,  2.0,  6.0, -8.0],
        [ 1.0, -5.0,  1.0,  8.0],
        [ 7.0,  7.0, -6.0, -7.0],
        [ 1.0, -3.0,  7.0,  4.0]
    ]);

    let b = a.inverse().unwrap();

    assert_eq!(a.determinant(), sc(532.0));
    assert_eq!(a.cofactor(2, 3), sc(-160.0));
    assert_eq!(b[(3, 2)], sc(-160.0 / 532.0));
    assert_eq!(a.cofactor(3, 2), sc(105.0));
    assert_eq!(b[(2, 3)], sc(105.0 / 532.0));
    assert_eq!(b, m4([
        [ 0.21805,  0.45113,  0.24060, -0.04511],
        [-0.80827, -1.45677, -0.44361,  0.52068],
        [-0.07895, -0.22368, -0.05263,  0.19737],
        [-0.52256, -0.81391, -0.30075,  0.30639]
    ]));
}

#[test]
fn test_calculating_the_inverse_of_another_matrix() {
    let a = m4([
        [ 8.0, -5.0,  9.0,  2.0],
        [ 7.0,  5.0,  6.0,  1.0],
        [-6.0,  0.0,  9.0,  6.0],
        [-3.0,  0.0, -9.0, -4.0]
    ]);
    assert_eq!(a.inverse().unwrap(), m4([
        [-0.15385, -0.15385, -0.28205, -0.53846],
        [-0.07692,  0.12308,  0.02564,  0.03077],
        [ 0.35897,  0.35897,  0.43590,  0.92308],
        [-0.69231, -0.69231, -0.76923, -1.92308]
    ]));
}

#[test]
fn test_calculating_the_inverse_of_a_third_matrix() {
    let a = m4([
        [ 9.0,  3.0,  0.0,  9.0],
        [-5.0, -2.0, -6.0, -3.0],
        [-4.0,  9.0,  6.0,  4.0],
        [-7.0,  6.0,  6.0,  2.0]
    ]);
    assert_eq!(a.inverse().unwrap(), m4([
        [-0.04074, -0.07778,  0.14444, -0.22222],
        [-0.07778,  0.03333,  0.36667, -0.33333],
        [-0.02901, -0.14630, -0.10926,  0.12963],
        [ 0.17778,  0.06667, -0.26667,  0.33333]
    ]));
}

#[test]
fn test_multiplying_a_product_by_its_inverse() {
    let a = m4([
        [ 3.0, -9.0,  7.0,  3.0],
        [ 3.0, -8.0,  2.0, -9.0],
        [-4.0,  4.0,  4.0,  1.0],
        [-6.0,  5.0, -1.0,  1.0]
    ]);
    let b = m4([
        [ 8.0,  2.0,  2.0,  2.0],
        [ 3.0, -1.0,  7.0,  0.0],
        [ 7.0,  0.0,  5.0,  4.0],
        [ 6.0, -2.0,  0.0,  5.0]
    ]);

    let c = a * b;

    assert_eq!(c * b.inverse().unwrap(), a);
}
