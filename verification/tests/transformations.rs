use std::f64::consts::{PI, SQRT_2};
use trtc::{point, rotation_x, rotation_y, rotation_z, scaling, shearing, translation, vector};
use trtc::{Matrix4, Scalar, Tuple4};

fn sc(x: f64) -> Scalar {
    Scalar::from_raw((x * 1e9).round() as i64)
}

fn pt(x: f64, y: f64, z: f64) -> Tuple4 {
    point(sc(x), sc(y), sc(z))
}

fn vec3(x: f64, y: f64, z: f64) -> Tuple4 {
    vector(sc(x), sc(y), sc(z))
}

fn translate_by(x: f64, y: f64, z: f64) -> Matrix4 {
    translation(sc(x), sc(y), sc(z))
}

fn scale_by(x: f64, y: f64, z: f64) -> Matrix4 {
    scaling(sc(x), sc(y), sc(z))
}

fn shear_by(xy: f64, xz: f64, yx: f64, yz: f64, zx: f64, zy: f64) -> Matrix4 {
    shearing(sc(xy), sc(xz), sc(yx), sc(yz), sc(zx), sc(zy))
}

fn rotate_about_x(theta: f64) -> Matrix4 {
    rotation_x(sc(theta.sin()), sc(theta.cos()))
}

fn rotate_about_y(theta: f64) -> Matrix4 {
    rotation_y(sc(theta.sin()), sc(theta.cos()))
}

fn rotate_about_z(theta: f64) -> Matrix4 {
    rotation_z(sc(theta.sin()), sc(theta.cos()))
}

#[test]
fn test_multiplying_by_a_translation_matrix() {
    let transform = translate_by(5.0, -3.0, 2.0);
    let p = pt(-3.0, 4.0, 5.0);

    assert_eq!(transform * p, pt(2.0, 1.0, 7.0));
}

#[test]
fn test_multiplying_by_the_inverse_of_a_translation_matrix() {
    let transform = translate_by(5.0, -3.0, 2.0);
    let inv = transform.inverse().unwrap();
    let p = pt(-3.0, 4.0, 5.0);

    assert_eq!(inv * p, pt(-8.0, 7.0, 3.0));
}

#[test]
fn test_translation_does_not_affect_vectors() {
    let transform = translate_by(5.0, -3.0, 2.0);
    let v = vec3(-3.0, 4.0, 5.0);

    assert_eq!(transform * v, v);
}

#[test]
fn test_a_scaling_matrix_applied_to_a_point() {
    let transform = scale_by(2.0, 3.0, 4.0);
    let p = pt(-4.0, 6.0, 8.0);

    assert_eq!(transform * p, pt(-8.0, 18.0, 32.0));
}

#[test]
fn test_a_scaling_matrix_applied_to_a_vector() {
    let transform = scale_by(2.0, 3.0, 4.0);
    let v = vec3(-4.0, 6.0, 8.0);

    assert_eq!(transform * v, vec3(-8.0, 18.0, 32.0));
}

#[test]
fn test_multiplying_by_the_inverse_of_a_scaling_matrix() {
    let transform = scale_by(2.0, 3.0, 4.0);
    let inv = transform.inverse().unwrap();
    let v = vec3(-4.0, 6.0, 8.0);

    assert_eq!(inv * v, vec3(-2.0, 2.0, 2.0));
}

#[test]
fn test_reflection_is_scaling_by_a_negative_value() {
    let transform = scale_by(-1.0, 1.0, 1.0);
    let p = pt(2.0, 3.0, 4.0);

    assert_eq!(transform * p, pt(-2.0, 3.0, 4.0));
}

#[test]
fn test_rotating_a_point_around_the_x_axis() {
    let p = pt(0.0, 1.0, 0.0);
    let half_quarter = rotate_about_x(PI / 4.0);
    let full_quarter = rotate_about_x(PI / 2.0);

    assert_eq!(
        half_quarter * p,
        pt(
            0.0,
            SQRT_2 / 2.0,
            SQRT_2 / 2.0
        )
    );
    assert_eq!(full_quarter * p, pt(0.0, 0.0, 1.0));
}

#[test]
fn test_rotating_a_point_around_the_y_axis() {
    let p = pt(0.0, 0.0, 1.0);
    let half_quarter = rotate_about_y(PI / 4.0);
    let full_quarter = rotate_about_y(PI / 2.0);

    assert_eq!(
        half_quarter * p,
        pt(
            SQRT_2 / 2.0,
            0.0,
            SQRT_2 / 2.0
        )
    );
    assert_eq!(full_quarter * p, pt(1.0, 0.0, 0.0));
}

#[test]
fn test_rotating_a_point_around_the_z_axis() {
    let p = pt(0.0, 1.0, 0.0);
    let half_quarter = rotate_about_z(PI / 4.0);
    let full_quarter = rotate_about_z(PI / 2.0);

    assert_eq!(
        half_quarter * p,
        pt(
            -SQRT_2 / 2.0,
            SQRT_2 / 2.0,
            0.0
        )
    );
    assert_eq!(full_quarter * p, pt(-1.0, 0.0, 0.0));
}

#[test]
fn test_a_shearing_transformation_moves_x_in_proportion_to_y() {
    let transform = shear_by(1.0, 0.0, 0.0, 0.0, 0.0, 0.0);
    let p = pt(2.0, 3.0, 4.0);

    assert_eq!(transform * p, pt(5.0, 3.0, 4.0));
}

#[test]
fn test_a_shearing_transformation_moves_x_in_proportion_to_z() {
    let transform = shear_by(0.0, 1.0, 0.0, 0.0, 0.0, 0.0);
    let p = pt(2.0, 3.0, 4.0);

    assert_eq!(transform * p, pt(6.0, 3.0, 4.0));
}

#[test]
fn test_a_shearing_transformation_moves_y_in_proportion_to_x() {
    let transform = shear_by(0.0, 0.0, 1.0, 0.0, 0.0, 0.0);
    let p = pt(2.0, 3.0, 4.0);

    assert_eq!(transform * p, pt(2.0, 5.0, 4.0));
}

#[test]
fn test_a_shearing_transformation_moves_y_in_proportion_to_z() {
    let transform = shear_by(0.0, 0.0, 0.0, 1.0, 0.0, 0.0);
    let p = pt(2.0, 3.0, 4.0);

    assert_eq!(transform * p, pt(2.0, 7.0, 4.0));
}

#[test]
fn test_a_shearing_transformation_moves_z_in_proportion_to_x() {
    let transform = shear_by(0.0, 0.0, 0.0, 0.0, 1.0, 0.0);
    let p = pt(2.0, 3.0, 4.0);

    assert_eq!(transform * p, pt(2.0, 3.0, 6.0));
}

#[test]
fn test_a_shearing_transformation_moves_z_in_proportion_to_y() {
    let transform = shear_by(0.0, 0.0, 0.0, 0.0, 0.0, 1.0);
    let p = pt(2.0, 3.0, 4.0);

    assert_eq!(transform * p, pt(2.0, 3.0, 7.0));
}

#[test]
fn test_individual_transformation_operations_are_applied_in_sequence() {
    let p = pt(1.0, 0.0, 1.0);
    let a = rotate_about_x(PI / 2.0);
    let b = scale_by(5.0, 5.0, 5.0);
    let c = translate_by(10.0, 5.0, 7.0);

    let p2 = a * p;
    assert_eq!(p2, pt(1.0, -1.0, 0.0));

    let p3 = b * p2;
    assert_eq!(p3, pt(5.0, -5.0, 0.0));

    let p4 = c * p3;
    assert_eq!(p4, pt(15.0, 0.0, 7.0));
}

#[test]
fn test_chained_transformations_must_be_applied_in_reverse_order() {
    let p = pt(1.0, 0.0, 1.0);
    let a = rotate_about_x(PI / 2.0);
    let b = scale_by(5.0, 5.0, 5.0);
    let c = translate_by(10.0, 5.0, 7.0);

    let t = c * b * a;
    assert_eq!(t * p, pt(15.0, 0.0, 7.0));
}

#[test]
fn test_fluent_transformations_are_applied_in_correct_order() {
    let p = pt(1.0, 0.0, 1.0);
    let t = Matrix4::eye()
        .rotate_x(sc((PI / 2.0).sin()), sc((PI / 2.0).cos()))
        .scale(sc(5.0), sc(5.0), sc(5.0))
        .translate(sc(10.0), sc(5.0), sc(7.0));

    assert_eq!(t * p, pt(15.0, 0.0, 7.0));
}
