//! Four-component tuples: points and free vectors in homogeneous coordinates.

use crate::scalar::epsilon_eq;
use crate::scalar::Scalar;
use crate::scalar::SCALE;
use vstd::prelude::*;
use vstd::std_specs::cmp::PartialEqSpecImpl;
use vstd::std_specs::ops::AddSpecImpl;
use vstd::std_specs::ops::DivSpecImpl;
use vstd::std_specs::ops::MulSpecImpl;
use vstd::std_specs::ops::NegSpecImpl;
use vstd::std_specs::ops::SubSpecImpl;

verus! {

/// A tuple `(x, y, z, w)`; `w` is one for a point and zero for a free vector.
#[derive(Debug, Clone, Copy)]
pub struct Tuple4 {
    pub x: Scalar,
    pub y: Scalar,
    pub z: Scalar,
    pub w: Scalar,
}

impl Tuple4 {
    /// Every component is inside the symmetric range.
    pub open spec fn wf(self) -> bool {
        self.x.wf() && self.y.wf() && self.z.wf() && self.w.wf()
    }

    /// The component at position `i`, counted from zero.
    pub open spec fn component(self, i: int) -> Scalar {
        if i == 0 {
            self.x
        } else if i == 1 {
            self.y
        } else if i == 2 {
            self.z
        } else {
            self.w
        }
    }

    /// The tuple with the component at position `i` replaced by `v`.
    pub open spec fn with_component(self, i: int, v: Scalar) -> Tuple4 {
        if i == 0 {
            Tuple4 { x: v, ..self }
        } else if i == 1 {
            Tuple4 { y: v, ..self }
        } else if i == 2 {
            Tuple4 { z: v, ..self }
        } else {
            Tuple4 { w: v, ..self }
        }
    }

    /// The tuple of zeros.
    pub open spec fn spec_zero() -> Tuple4 {
        Tuple4 {
            x: Scalar::spec_zero(),
            y: Scalar::spec_zero(),
            z: Scalar::spec_zero(),
            w: Scalar::spec_zero(),
        }
    }

    /// The tuple with one at position `i` and zero elsewhere.
    pub open spec fn spec_unit(i: int) -> Tuple4 {
        Tuple4::spec_zero().with_component(i, Scalar::spec_one())
    }

    /// Componentwise sum.
    pub open spec fn spec_add(self, rhs: Tuple4) -> Tuple4 {
        Tuple4 {
            x: self.x.spec_add(rhs.x),
            y: self.y.spec_add(rhs.y),
            z: self.z.spec_add(rhs.z),
            w: self.w.spec_add(rhs.w),
        }
    }

    /// Componentwise difference.
    pub open spec fn spec_sub(self, rhs: Tuple4) -> Tuple4 {
        Tuple4 {
            x: self.x.spec_sub(rhs.x),
            y: self.y.spec_sub(rhs.y),
            z: self.z.spec_sub(rhs.z),
            w: self.w.spec_sub(rhs.w),
        }
    }

    /// Componentwise negation.
    pub open spec fn spec_neg(self) -> Tuple4 {
        Tuple4 {
            x: self.x.spec_neg(),
            y: self.y.spec_neg(),
            z: self.z.spec_neg(),
            w: self.w.spec_neg(),
        }
    }

    /// Every component multiplied by `s`.
    pub open spec fn spec_mul(self, s: Scalar) -> Tuple4 {
        Tuple4 {
            x: self.x.spec_mul(s),
            y: self.y.spec_mul(s),
            z: self.z.spec_mul(s),
            w: self.w.spec_mul(s),
        }
    }

    /// Every component divided by `s`.
    pub open spec fn spec_div(self, s: Scalar) -> Tuple4 {
        Tuple4 {
            x: self.x.spec_div(s),
            y: self.y.spec_div(s),
            z: self.z.spec_div(s),
            w: self.w.spec_div(s),
        }
    }

    /// Dot product: the products of matching components, summed from `x`
    /// to `w`.
    pub open spec fn spec_dot(self, rhs: Tuple4) -> Scalar {
        self.x.spec_mul(rhs.x).spec_add(self.y.spec_mul(rhs.y)).spec_add(
            self.z.spec_mul(rhs.z),
        ).spec_add(self.w.spec_mul(rhs.w))
    }

    /// Euclidean norm over all four components.
    pub open spec fn spec_magnitude(self) -> Scalar {
        self.spec_dot(self).spec_sqrt()
    }

    /// The tuple divided by its magnitude.
    pub open spec fn spec_normalize(self) -> Tuple4 {
        self.spec_div(self.spec_magnitude())
    }

    /// Cross product of the `x, y, z` parts; `w` of the result is zero.
    pub open spec fn spec_cross(self, rhs: Tuple4) -> Tuple4 {
        Tuple4 {
            x: self.y.spec_mul(rhs.z).spec_sub(self.z.spec_mul(rhs.y)),
            y: self.z.spec_mul(rhs.x).spec_sub(self.x.spec_mul(rhs.z)),
            z: self.x.spec_mul(rhs.y).spec_sub(self.y.spec_mul(rhs.x)),
            w: Scalar::spec_zero(),
        }
    }

    /// Every pair of matching components is equal within the tolerance.
    pub open spec fn approx_eq(self, rhs: Tuple4) -> bool {
        self.x.spec_epsilon_eq(rhs.x) && self.y.spec_epsilon_eq(rhs.y)
            && self.z.spec_epsilon_eq(rhs.z) && self.w.spec_epsilon_eq(rhs.w)
    }

    /// The fourth component is exactly one.
    pub open spec fn spec_is_point(self) -> bool {
        self.w == Scalar::spec_one()
    }

    /// The fourth component is exactly zero.
    pub open spec fn spec_is_vector(self) -> bool {
        self.w == Scalar::spec_zero()
    }

    /// The tuple with the components of `data`, in order.
    pub fn from_array(data: [Scalar; 4]) -> (r: Tuple4)
        ensures
            r == (Tuple4 { x: data[0], y: data[1], z: data[2], w: data[3] }),
    {
        Tuple4 { x: data[0], y: data[1], z: data[2], w: data[3] }
    }

    /// The Euclidean norm: the square root of the tuple dotted with itself.
    pub fn magnitude(&self) -> (r: Scalar)
        ensures
            r == self.spec_magnitude(),
    {
        self.dot(self).sqrt()
    }

    /// Divides by the magnitude. A tuple of magnitude zero is divided by
    /// zero: its zero components stay zero, the others go to the extremes.
    pub fn normalize(&self) -> (r: Tuple4)
        ensures
            r == self.spec_normalize(),
    {
        let magnitude = self.magnitude();
        Tuple4 {
            x: self.x / magnitude,
            y: self.y / magnitude,
            z: self.z / magnitude,
            w: self.w / magnitude,
        }
    }

    /// The dot product.
    pub fn dot(&self, other: &Tuple4) -> (r: Scalar)
        ensures
            r == self.spec_dot(*other),
    {
        self.x * other.x + self.y * other.y + self.z * other.z + self.w * other.w
    }

    /// Number of components.
    pub fn dim() -> (r: usize)
        ensures
            r == 4,
    {
        4
    }

    /// Replaces the component at `index`.
    pub fn set(&mut self, index: usize, value: Scalar)
        requires
            index < 4,
        ensures
            *final(self) == old(self).with_component(index as int, value),
    {
        *core::ops::IndexMut::index_mut(self, index) = value;
    }

    /// Whether `w` is exactly one.
    pub fn is_point(&self) -> (r: bool)
        ensures
            r == self.spec_is_point(),
    {
        self.w.raw == SCALE
    }

    /// Whether `w` is exactly zero.
    pub fn is_vector(&self) -> (r: bool)
        ensures
            r == self.spec_is_vector(),
    {
        self.w.raw == 0
    }

    /// The cross product of the first three components; the fourth of the
    /// result is zero.
    pub fn cross(&self, other: &Tuple4) -> (r: Tuple4)
        ensures
            r == self.spec_cross(*other),
    {
        Tuple4::from_array(
            [
                self.y * other.z - self.z * other.y,
                self.z * other.x - self.x * other.z,
                self.x * other.y - self.y * other.x,
                Scalar::zero(),
            ],
        )
    }
}

impl Default for Tuple4 {
    fn default() -> (r: Tuple4)
        ensures
            r == Tuple4::spec_zero(),
    {
        Tuple4 { x: Scalar::zero(), y: Scalar::zero(), z: Scalar::zero(), w: Scalar::zero() }
    }
}

impl core::ops::Index<usize> for Tuple4 {
    type Output = Scalar;

    fn index(&self, index: usize) -> (r: &Scalar)
        ensures
            *r == self.component(index as int),
    {
        if index == 0 {
            &self.x
        } else if index == 1 {
            &self.y
        } else if index == 2 {
            &self.z
        } else {
            &self.w
        }
    }
}

impl vstd::std_specs::core::IndexSpecImpl<usize> for Tuple4 {
    open spec fn index_req(&self, index: &usize) -> bool {
        *index < 4
    }
}

impl core::ops::IndexMut<usize> for Tuple4 {
    fn index_mut(&mut self, index: usize) -> (r: &mut Scalar)
        requires
            index < 4,
        ensures
            *r == old(self).component(index as int),
            *final(self) == old(self).with_component(index as int, *final(r)),
    {
        if index == 0 {
            &mut self.x
        } else if index == 1 {
            &mut self.y
        } else if index == 2 {
            &mut self.z
        } else {
            &mut self.w
        }
    }
}

impl PartialEq for Tuple4 {
    fn eq(&self, other: &Tuple4) -> (r: bool) {
        epsilon_eq(self.x, other.x) && epsilon_eq(self.y, other.y) && epsilon_eq(self.z, other.z)
            && epsilon_eq(self.w, other.w)
    }
}

impl PartialEqSpecImpl for Tuple4 {
    open spec fn obeys_eq_spec() -> bool {
        true
    }

    open spec fn eq_spec(&self, other: &Tuple4) -> bool {
        self.approx_eq(*other)
    }
}

impl core::ops::Add for Tuple4 {
    type Output = Tuple4;

    fn add(self, other: Tuple4) -> (r: Tuple4) {
        Tuple4 {
            x: self.x + other.x,
            y: self.y + other.y,
            z: self.z + other.z,
            w: self.w + other.w,
        }
    }
}

impl AddSpecImpl for Tuple4 {
    open spec fn obeys_add_spec() -> bool {
        true
    }

    open spec fn add_req(self, other: Tuple4) -> bool {
        true
    }

    open spec fn add_spec(self, other: Tuple4) -> Tuple4 {
        self.spec_add(other)
    }
}

impl core::ops::Sub for Tuple4 {
    type Output = Tuple4;

    fn sub(self, other: Tuple4) -> (r: Tuple4) {
        Tuple4 {
            x: self.x - other.x,
            y: self.y - other.y,
            z: self.z - other.z,
            w: self.w - other.w,
        }
    }
}

impl SubSpecImpl for Tuple4 {
    open spec fn obeys_sub_spec() -> bool {
        true
    }

    open spec fn sub_req(self, other: Tuple4) -> bool {
        true
    }

    open spec fn sub_spec(self, other: Tuple4) -> Tuple4 {
        self.spec_sub(other)
    }
}

impl core::ops::Neg for Tuple4 {
    type Output = Tuple4;

    fn neg(self) -> (r: Tuple4) {
        Tuple4 {
            x: core::ops::Neg::neg(self.x),
            y: core::ops::Neg::neg(self.y),
            z: core::ops::Neg::neg(self.z),
            w: core::ops::Neg::neg(self.w),
        }
    }
}

impl NegSpecImpl for Tuple4 {
    open spec fn obeys_neg_spec() -> bool {
        true
    }

    open spec fn neg_req(self) -> bool {
        true
    }

    open spec fn neg_spec(self) -> Tuple4 {
        self.spec_neg()
    }
}

impl core::ops::Mul<Scalar> for Tuple4 {
    type Output = Tuple4;

    fn mul(self, scalar: Scalar) -> (r: Tuple4) {
        Tuple4 {
            x: self.x * scalar,
            y: self.y * scalar,
            z: self.z * scalar,
            w: self.w * scalar,
        }
    }
}

impl MulSpecImpl<Scalar> for Tuple4 {
    open spec fn obeys_mul_spec() -> bool {
        true
    }

    open spec fn mul_req(self, scalar: Scalar) -> bool {
        true
    }

    open spec fn mul_spec(self, scalar: Scalar) -> Tuple4 {
        self.spec_mul(scalar)
    }
}

impl core::ops::Div<Scalar> for Tuple4 {
    type Output = Tuple4;

    fn div(self, scalar: Scalar) -> (r: Tuple4) {
        Tuple4 {
            x: self.x / scalar,
            y: self.y / scalar,
            z: self.z / scalar,
            w: self.w / scalar,
        }
    }
}

impl DivSpecImpl<Scalar> for Tuple4 {
    open spec fn obeys_div_spec() -> bool {
        true
    }

    open spec fn div_req(self, scalar: Scalar) -> bool {
        true
    }

    open spec fn div_spec(self, scalar: Scalar) -> Tuple4 {
        self.spec_div(scalar)
    }
}

/// The point `(x, y, z)`: a tuple with `w` one.
pub fn point(x: Scalar, y: Scalar, z: Scalar) -> (r: Tuple4)
    ensures
        r == (Tuple4 { x, y, z, w: Scalar::spec_one() }),
{
    Tuple4::from_array([x, y, z, Scalar::one()])
}

/// The free vector `(x, y, z)`: a tuple with `w` zero.
pub fn vector(x: Scalar, y: Scalar, z: Scalar) -> (r: Tuple4)
    ensures
        r == (Tuple4 { x, y, z, w: Scalar::spec_zero() }),
{
    Tuple4::from_array([x, y, z, Scalar::zero()])
}

} // verus!
