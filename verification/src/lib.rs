//! A small linear-algebra and ray-casting kernel: tuples, square matrices,
//! affine transforms, rays and their intersections with spheres.
//!
//! All numbers are decimal fixed-point scalars with nine decimal places. An
//! operation gives its exact result rounded to the nearest billionth and
//! clamped to the range of the scalars, so every operation is defined on
//! every input; what a zero divisor or a negative radicand gives is said
//! with the scalar operations. Every function is specified by a function of
//! the same shape over these operations, and the module `laws` states what
//! follows for all inputs.

pub mod adjugate;
pub mod canvas;
pub mod color;
pub mod exact;
pub mod expansion;
pub mod intersection;
pub mod laws;
pub mod matrix2;
pub mod matrix3;
pub mod matrix4;
pub mod norm;
pub mod ray;
pub mod rounding;
pub mod scalar;
pub mod sphere;
pub mod transform;
pub mod tuple2;
pub mod tuple3;
pub mod tuple4;
pub mod whole;

pub use crate::canvas::Canvas;
pub use crate::color::Color;
pub use crate::intersection::{hit, intersect, Intersection, Intersections};
pub use crate::matrix2::Matrix2;
pub use crate::matrix3::Matrix3;
pub use crate::matrix4::Matrix4;
pub use crate::ray::{position, transform, Ray};
pub use crate::scalar::{epsilon_eq, Scalar, EPSILON_RAW, MAX_RAW, SCALE};
pub use crate::sphere::Sphere;
pub use crate::transform::{
    rotation_x, rotation_y, rotation_z, scaling, shearing, translation,
};
pub use crate::tuple2::Tuple2;
pub use crate::tuple3::Tuple3;
pub use crate::tuple4::{point, vector, Tuple4};
