//! Rays: an origin point and a direction vector.

use crate::matrix4::Matrix4;
use crate::scalar::Scalar;
use crate::tuple4::Tuple4;
use vstd::prelude::*;
use vstd::std_specs::cmp::PartialEqSpecImpl;

verus! {

/// A ray from `origin` along `direction`.
#[derive(Debug, Clone, Copy)]
pub struct Ray {
    pub origin: Tuple4,
    pub direction: Tuple4,
}

impl Ray {
    /// The ray from `origin` along `direction`.
    pub fn new(origin: Tuple4, direction: Tuple4) -> (r: Ray)
        ensures
            r == (Ray { origin, direction }),
    {
        Ray { origin, direction }
    }

    /// Origin and direction both equal within the tolerance.
    pub open spec fn approx_eq(self, other: Ray) -> bool {
        self.origin.approx_eq(other.origin) && self.direction.approx_eq(other.direction)
    }
}

impl PartialEq for Ray {
    fn eq(&self, other: &Ray) -> (r: bool) {
        self.origin == other.origin && self.direction == other.direction
    }
}

impl PartialEqSpecImpl for Ray {
    open spec fn obeys_eq_spec() -> bool {
        true
    }

    open spec fn eq_spec(&self, other: &Ray) -> bool {
        self.approx_eq(*other)
    }
}

/// The point at parameter `t`: `origin + direction * t`.
pub open spec fn spec_position(ray: Ray, t: Scalar) -> Tuple4 {
    ray.origin.spec_add(ray.direction.spec_mul(t))
}

/// The ray with origin and direction both multiplied by `m`.
pub open spec fn spec_transform(ray: Ray, m: Matrix4) -> Ray {
    Ray { origin: m.spec_mul_tuple(ray.origin), direction: m.spec_mul_tuple(ray.direction) }
}

/// The point the ray reaches at parameter `t`.
pub fn position(ray: &Ray, t: Scalar) -> (p: Tuple4)
    ensures
        p == spec_position(*ray, t),
{
    ray.origin + ray.direction * t
}

/// The ray as seen after the transform `t`.
pub fn transform(ray: &Ray, t: &Matrix4) -> (r: Ray)
    ensures
        r == spec_transform(*ray, *t),
{
    Ray::new(*t * ray.origin, *t * ray.direction)
}

} // verus!
