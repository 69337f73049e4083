use trtc::{hit, intersect, point, position, scaling, transform, translation, vector};
use trtc::{Intersection, Intersections, Matrix4, Ray, Scalar, Sphere, Tuple4};

fn sc(x: f64) -> Scalar {
    Scalar::from_raw((x * 1e9).round() as i64)
}

fn pt(x: f64, y: f64, z: f64) -> Tuple4 {
    point(sc(x), sc(y), sc(z))
}

fn vec3(x: f64, y: f64, z: f64) -> Tuple4 {
    vector(sc(x), sc(y), sc(z))
}

#[test]
fn test_creating_and_querying_a_ray() {
    let origin = pt(1.0, 2.0, 3.0);
    let direction = vec3(4.0, 5.0, 6.0);

    let r = Ray::new(origin, direction);

    assert_eq!(r.origin, origin);
    assert_eq!(r.direction, direction);
}

#[test]
fn test_computing_a_point_from_a_distance() {
    let r = Ray::new(pt(2.0, 3.0, 4.0), vec3(1.0, 0.0, 0.0));

    assert_eq!(position(&r, sc(0.0)), pt(2.0, 3.0, 4.0));
    assert_eq!(position(&r, sc(1.0)), pt(3.0, 3.0, 4.0));
    assert_eq!(position(&r, sc(-1.0)), pt(1.0, 3.0, 4.0));
    assert_eq!(position(&r, sc(2.5)), pt(4.5, 3.0, 4.0));
}

#[test]
fn test_a_ray_intersects_a_sphere_at_two_points() {
    let r = Ray::new(pt(0.0, 0.0, -5.0), vec3(0.0, 0.0, 1.0));
    let s = Sphere::default();

    let xs = intersect(&s, &r);

    assert_eq!(xs.count(), 2);
    assert_eq!(xs[0].t, sc(4.0));
    assert_eq!(xs[1].t, sc(6.0));
}

#[test]
fn test_a_ray_intersects_a_sphere_at_a_tangent() {
    let r = Ray::new(pt(0.0, 1.0, -5.0), vec3(0.0, 0.0, 1.0));
    let s = Sphere::default();

    let xs = intersect(&s, &r);

    assert_eq!(xs.count(), 2);
    assert_eq!(xs[0].t, sc(5.0));
    assert_eq!(xs[1].t, sc(5.0));
}

#[test]
fn test_a_ray_misses_a_sphere() {
    let r = Ray::new(pt(0.0, 2.0, -5.0), vec3(0.0, 0.0, 1.0));
    let s = Sphere::default();

    let xs = intersect(&s, &r);

    assert_eq!(xs.count(), 0);
}

#[test]
fn test_a_ray_originates_inside_a_sphere() {
    let r = Ray::new(pt(0.0, 0.0, 0.0), vec3(0.0, 0.0, 1.0));
    let s = Sphere::default();

    let xs = intersect(&s, &r);

    assert_eq!(xs.count(), 2);
    assert_eq!(xs[0].t, sc(-1.0));
    assert_eq!(xs[1].t, sc(1.0));
}

#[test]
fn test_a_sphere_is_behind_a_ray() {
    let r = Ray::new(pt(0.0, 0.0, 5.0), vec3(0.0, 0.0, 1.0));
    let s = Sphere::default();

    let xs = intersect(&s, &r);

    assert_eq!(xs.count(), 2);
    assert_eq!(xs[0].t, sc(-6.0));
    assert_eq!(xs[1].t, sc(-4.0));
}

#[test]
fn test_an_intersection_encapsulates_t_and_object() {
    let s = Sphere::default();

    let i = Intersection::new(sc(3.5), &s);

    assert_eq!(i.t, sc(3.5));
    assert!(std::ptr::eq(i.object, &s));
}

#[test]
fn test_aggregating_intersections() {
    let s = Sphere::default();

    let i1 = Intersection::new(sc(1.0), &s);
    let i2 = Intersection::new(sc(2.0), &s);

    let mut xs = Intersections::new();
    xs.add(i1);
    xs.add(i2);

    assert_eq!(xs.count(), 2);
    assert_eq!(xs[0].t, sc(1.0));
    assert_eq!(xs[1].t, sc(2.0));
}

#[test]
fn test_intersect_sets_the_object_on_the_intersection() {
    let r = Ray::new(pt(0.0, 0.0, -5.0), vec3(0.0, 0.0, 1.0));
    let s = Sphere::default();

    let xs = intersect(&s, &r);

    assert_eq!(xs.count(), 2);
    assert!(std::ptr::eq(xs[0].object, &s));
    assert!(std::ptr::eq(xs[1].object, &s));
}

#[test]
fn test_the_hit_when_all_intersections_have_positive_t() {
    let s = Sphere::default();
    let i1 = Intersection::new(sc(1.0), &s);
    let i2 = Intersection::new(sc(2.0), &s);

    let mut xs = Intersections::new();
    xs.add(i1);
    xs.add(i2);

    let i = hit(&xs);
    assert!(i.is_some());
    assert_eq!(i.unwrap(), &i1);
}

#[test]
fn test_the_hit_when_some_intersections_have_negative_t() {
    let s = Sphere::default();
    let i1 = Intersection::new(sc(-1.0), &s);
    let i2 = Intersection::new(sc(1.0), &s);

    let mut xs = Intersections::new();
    xs.add(i1);
    xs.add(i2);

    let i = hit(&xs);
    assert!(i.is_some());
    assert_eq!(i.unwrap(), &i2);
}

#[test]
fn test_the_hit_when_all_intersections_have_negative_t() {
    let s = Sphere::default();
    let i1 = Intersection::new(sc(-2.0), &s);
    let i2 = Intersection::new(sc(-1.0), &s);

    let mut xs = Intersections::new();
    xs.add(i1);
    xs.add(i2);

    let i = hit(&xs);
    assert!(i.is_none());
}

#[test]
fn test_the_hit_is_always_lowest_nonnegative_intersection() {
    let s = Sphere::default();
    let i1 = Intersection::new(sc(5.0), &s);
    let i2 = Intersection::new(sc(7.0), &s);
    let i3 = Intersection::new(sc(-3.0), &s);
    let i4 = Intersection::new(sc(2.0), &s);

    let mut xs = Intersections::new();
    xs.add(i1);
    xs.add(i2);
    xs.add(i3);
    xs.add(i4);

    let i = hit(&xs);
    assert!(i.is_some());
    assert_eq!(i.unwrap(), &i4);
}

#[test]
fn test_translating_a_ray() {
    let r = Ray::new(pt(1.0, 2.0, 3.0), vec3(0.0, 1.0, 0.0));
    let m = translation(sc(3.0), sc(4.0), sc(5.0));

    let r2 = transform(&r, &m);

    assert_eq!(r2.origin, pt(4.0, 6.0, 8.0));
    assert_eq!(r2.direction, vec3(0.0, 1.0, 0.0));
}

#[test]
fn test_scaling_a_ray() {
    let r = Ray::new(pt(1.0, 2.0, 3.0), vec3(0.0, 1.0, 0.0));
    let m = scaling(sc(2.0), sc(3.0), sc(4.0));

    let r2 = transform(&r, &m);

    assert_eq!(r2.origin, pt(2.0, 6.0, 12.0));
    assert_eq!(r2.direction, vec3(0.0, 3.0, 0.0));
}

#[test]
fn test_a_spheres_default_transformation() {
    let s = Sphere::default();

    assert_eq!(s.transform, Matrix4::eye());
}

#[test]
fn test_changing_a_spheres_transformation() {
    let mut s = Sphere::default();
    let t = translation(sc(2.0), sc(3.0), sc(4.0));

    s.transform = t;

    assert_eq!(s.transform, t);
}

#[test]
fn test_intersecting_a_scaled_sphere_with_a_ray() {
    let r = Ray::new(pt(0.0, 0.0, -5.0), vec3(0.0, 0.0, 1.0));
    let mut s = Sphere::default();

    s.transform = scaling(sc(2.0), sc(2.0), sc(2.0));
    let xs = intersect(&s, &r);

    assert_eq!(xs.count(), 2);
    assert_eq!(xs[0].t, sc(3.0));
    assert_eq!(xs[1].t, sc(7.0));
}

#[test]
fn test_intersecting_a_translated_sphere_with_a_ray() {
    let r = Ray::new(pt(0.0, 0.0, -5.0), vec3(0.0, 0.0, 1.0));
    let mut s = Sphere::default();

    s.transform = translation(sc(5.0), sc(0.0), sc(0.0));
    let xs = intersect(&s, &r);

    assert_eq!(xs.count(), 0);
}
