//! The unit sphere at the origin, placed in the world by a transform.

use crate::matrix4::Matrix4;
use vstd::prelude::*;
use vstd::std_specs::cmp::PartialEqSpecImpl;

verus! {

/// A unit sphere centred at the origin of its own space; `transform` maps
/// that space to the world.
#[derive(Debug, Clone, Copy)]
pub struct Sphere {
    pub transform: Matrix4,
}

impl Sphere {
    /// The unit sphere placed by `transform`.
    pub fn new(transform: Matrix4) -> (s: Sphere)
        ensures
            s == (Sphere { transform }),
    {
        Sphere { transform }
    }
}

impl Default for Sphere {
    fn default() -> (s: Sphere)
        ensures
            s == (Sphere { transform: Matrix4::spec_eye() }),
    {
        Sphere::new(Matrix4::eye())
    }
}

impl PartialEq for Sphere {
    fn eq(&self, other: &Sphere) -> (r: bool) {
        self.transform == other.transform
    }
}

impl PartialEqSpecImpl for Sphere {
    open spec fn obeys_eq_spec() -> bool {
        true
    }

    open spec fn eq_spec(&self, other: &Sphere) -> bool {
        self.transform.approx_eq(other.transform)
    }
}

} // verus!
