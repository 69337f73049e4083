use trtc::{point, vector, Color, Scalar, Tuple4};

fn sc(x: f64) -> Scalar {
    Scalar::from_raw((x * 1e9).round() as i64)
}

fn tuple(x: f64, y: f64, z: f64, w: f64) -> Tuple4 {
    Tuple4::from_array([sc(x), sc(y), sc(z), sc(w)])
}

fn pt(x: f64, y: f64, z: f64) -> Tuple4 {
    point(sc(x), sc(y), sc(z))
}

fn vec3(x: f64, y: f64, z: f64) -> Tuple4 {
    vector(sc(x), sc(y), sc(z))
}

fn color(r: f64, g: f64, b: f64) -> Color {
    Color::new(sc(r), sc(g), sc(b))
}

#[test]
fn test_a_tuple_with_w_eq_1_is_a_point() {
    let a = tuple(4.3, -4.2, 3.1, 1.0);

    assert_eq!(a.x, sc(4.3));
    assert_eq!(a.y, sc(-4.2));
    assert_eq!(a.z, sc(3.1));
    assert_eq!(a.w, sc(1.0));
    assert!(a.is_point());
    assert!(!a.is_vector());
}

#[test]
fn test_a_tuple_with_w_eq_0_is_a_vector() {
    let a = tuple(4.3, -4.2, 3.1, 0.0);

    assert_eq!(a.x, sc(4.3));
    assert_eq!(a.y, sc(-4.2));
    assert_eq!(a.z, sc(3.1));
    assert_eq!(a.w, sc(0.0));
    assert!(!a.is_point());
    assert!(a.is_vector());
}

#[test]
fn test_point_creates_tuples_with_w_eq_1() {
    let a = pt(4.0, -4.0, 3.0);

    assert_eq!(a, tuple(4.0, -4.0, 3.0, 1.0));
}

#[test]
fn test_vector_creates_tuples_with_w_eq_0() {
    let a = vec3(4.0, -4.0, 3.0);

    assert_eq!(a, tuple(4.0, -4.0, 3.0, 0.0));
}

#[test]
fn test_adding_two_tuples() {
    let a1 = tuple(3.0, -2.0, 5.0, 1.0);
    let a2 = tuple(-2.0, 3.0, 1.0, 0.0);

    assert_eq!(a1 + a2, tuple(1.0, 1.0, 6.0, 1.0));
}

#[test]
fn test_subtracting_two_points() {
    let p1 = pt(3.0, 2.0, 1.0);
    let p2 = pt(5.0, 6.0, 7.0);

    assert_eq!(p1 - p2, vec3(-2.0, -4.0, -6.0));
}

#[test]
fn test_subtracting_a_vector_from_a_point() {
    let p = pt(3.0, 2.0, 1.0);
    let v = vec3(5.0, 6.0, 7.0);

    assert_eq!(p - v, pt(-2.0, -4.0, -6.0));
}

#[test]
fn test_subtracting_two_vectors() {
    let v1 = vec3(3.0, 2.0, 1.0);
    let v2 = vec3(5.0, 6.0, 7.0);

    assert_eq!(v1 - v2, vec3(-2.0, -4.0, -6.0));
}

#[test]
fn test_subtracting_a_vector_from_the_zero_vector() {
    let zero = vec3(0.0, 0.0, 0.0);
    let v = vec3(1.0, -2.0, 3.0);

    assert_eq!(zero - v, vec3(-1.0, 2.0, -3.0));
}

#[test]
fn test_negating_a_tuple() {
    let a = tuple(1.0, -2.0, 3.0, -4.0);

    assert_eq!(-a, tuple(-1.0, 2.0, -3.0, 4.0));
}

#[test]
fn test_multiplying_a_tuple_by_a_scalar() {
    let a = tuple(1.0, -2.0, 3.0, -4.0);

    assert_eq!(a * sc(3.5), tuple(3.5, -7.0, 10.5, -14.0));
}

#[test]
fn test_multiplying_a_tuple_by_a_fraction() {
    let a = tuple(1.0, -2.0, 3.0, -4.0);

    assert_eq!(a * sc(0.5), tuple(0.5, -1.0, 1.5, -2.0));
}

#[test]
fn test_dividing_a_tuple_by_a_scalar() {
    let a = tuple(1.0, -2.0, 3.0, -4.0);

    assert_eq!(a / sc(2.0), tuple(0.5, -1.0, 1.5, -2.0));
}

#[test]
fn test_computing_the_magnitude_of_vector_1_0_0() {
    let v = vec3(1.0, 0.0, 0.0);

    assert_eq!(v.magnitude(), sc(1.0));
}

#[test]
fn test_computing_the_magnitude_of_vector_0_1_0() {
    let v = vec3(0.0, 1.0, 0.0);

    assert_eq!(v.magnitude(), sc(1.0));
}

#[test]
fn test_computing_the_magnitude_of_vector_0_0_1() {
    let v = vec3(0.0, 0.0, 1.0);

    assert_eq!(v.magnitude(), sc(1.0));
}

#[test]
fn test_computing_the_magnitude_of_vector_1_2_3() {
    let v = vec3(1.0, 2.0, 3.0);

    assert_eq!(v.magnitude(), sc(14.0f64.sqrt()));
}

#[test]
fn test_computing_the_magnitude_of_vector_n1_n2_n3() {
    let v = vec3(-1.0, -2.0, -3.0);

    assert_eq!(v.magnitude(), sc(14.0f64.sqrt()));
}

#[test]
fn test_normalizing_vector_4_0_0_gives_1_0_0() {
    let v = vec3(4.0, 0.0, 0.0);

    assert_eq!(v.normalize(), vec3(1.0, 0.0, 0.0));
}

#[test]
fn test_normalizing_vector_1_2_3() {
    let v = vec3(1.0, 2.0, 3.0);

    assert_eq!(
        v.normalize(),
        vec3(
            1.0 / 14.0f64.sqrt(),
            2.0 / 14.0f64.sqrt(),
            3.0 / 14.0f64.sqrt()
        )
    );
}

#[test]
fn test_the_magnitude_of_a_normalized_vector() {
    let v = vec3(1.0, 2.0, 3.0);

    let norm = v.normalize();

    assert_eq!(norm.magnitude(), sc(1.0));
}

#[test]
fn test_the_dot_product_of_two_tuples() {
    let a = vec3(1.0, 2.0, 3.0);
    let b = vec3(2.0, 3.0, 4.0);

    assert_eq!(a.dot(&b), sc(20.0));
}

#[test]
fn test_the_cross_product_of_two_vectors() {
    let a = vec3(1.0, 2.0, 3.0);
    let b = vec3(2.0, 3.0, 4.0);

    assert_eq!(a.cross(&b), vec3(-1.0, 2.0, -1.0));
    assert_eq!(b.cross(&a), vec3(1.0, -2.0, 1.0));
}

#[test]
fn test_colors_are_red_green_blue_tuples() {
    let c = color(-0.5, 0.4, 1.7);

    assert_eq!(c.r, sc(-0.5));
    assert_eq!(c.g, sc(0.4));
    assert_eq!(c.b, sc(1.7));
}

#[test]
fn test_adding_colors() {
    let c1 = color(0.9, 0.6, 0.75);
    let c2 = color(0.7, 0.1, 0.25);

    assert_eq!(c1 + c2, color(1.6, 0.7, 1.0));
}

#[test]
fn test_subtracting_colors() {
    let c1 = color(0.9, 0.6, 0.75);
    let c2 = color(0.7, 0.1, 0.25);

    assert_eq!(c1 - c2, color(0.2, 0.5, 0.5));
}

#[test]
fn test_multiplying_colors_by_a_scalar() {
    let c = color(0.2, 0.3, 0.4);

    assert_eq!(c * sc(2.0), color(0.4, 0.6, 0.8));
}

#[test]
fn test_multiplying_colors() {
    let c1 = color(1.0, 0.2, 0.4);
    let c2 = color(0.9, 1.0, 0.1);

    assert_eq!(c1 * c2, color(0.9, 0.2, 0.04));
}
