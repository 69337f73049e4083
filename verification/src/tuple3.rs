//! Three-component tuples.

use crate::scalar::epsilon_eq;
use crate::scalar::Scalar;
use vstd::prelude::*;
use vstd::std_specs::cmp::PartialEqSpecImpl;
use vstd::std_specs::ops::AddSpecImpl;
use vstd::std_specs::ops::DivSpecImpl;
use vstd::std_specs::ops::MulSpecImpl;
use vstd::std_specs::ops::NegSpecImpl;
use vstd::std_specs::ops::SubSpecImpl;

verus! {

/// A tuple `(x, y, z)`.
#[derive(Debug, Clone, Copy)]
pub struct Tuple3 {
    pub x: Scalar,
    pub y: Scalar,
    pub z: Scalar,
}

impl Tuple3 {
    /// Every component is inside the symmetric range.
    pub open spec fn wf(self) -> bool {
        self.x.wf() && self.y.wf() && self.z.wf()
    }

    /// The component at position `i`, counted from zero.
    pub open spec fn component(self, i: int) -> Scalar {
        if i == 0 {
            self.x
        } else if i == 1 {
            self.y
        } else {
            self.z
        }
    }

    /// The tuple with the component at position `i` replaced by `v`.
    pub open spec fn with_component(self, i: int, v: Scalar) -> Tuple3 {
        if i == 0 {
            Tuple3 { x: v, ..self }
        } else if i == 1 {
            Tuple3 { y: v, ..self }
        } else {
            Tuple3 { z: v, ..self }
        }
    }

    /// The tuple of zeros.
    pub open spec fn spec_zero() -> Tuple3 {
        Tuple3 { x: Scalar::spec_zero(), y: Scalar::spec_zero(), z: Scalar::spec_zero() }
    }

    /// The tuple with one at position `i` and zero elsewhere.
    pub open spec fn spec_unit(i: int) -> Tuple3 {
        Tuple3::spec_zero().with_component(i, Scalar::spec_one())
    }

    /// Componentwise sum.
    pub open spec fn spec_add(self, rhs: Tuple3) -> Tuple3 {
        Tuple3 {
            x: self.x.spec_add(rhs.x),
            y: self.y.spec_add(rhs.y),
            z: self.z.spec_add(rhs.z),
        }
    }

    /// Componentwise difference.
    pub open spec fn spec_sub(self, rhs: Tuple3) -> Tuple3 {
        Tuple3 {
            x: self.x.spec_sub(rhs.x),
            y: self.y.spec_sub(rhs.y),
            z: self.z.spec_sub(rhs.z),
        }
    }

    /// Componentwise negation.
    pub open spec fn spec_neg(self) -> Tuple3 {
        Tuple3 {
            x: self.x.spec_neg(),
            y: self.y.spec_neg(),
            z: self.z.spec_neg(),
        }
    }

    /// Every component multiplied by `s`.
    pub open spec fn spec_mul(self, s: Scalar) -> Tuple3 {
        Tuple3 {
            x: self.x.spec_mul(s),
            y: self.y.spec_mul(s),
            z: self.z.spec_mul(s),
        }
    }

    /// Every component divided by `s`.
    pub open spec fn spec_div(self, s: Scalar) -> Tuple3 {
        Tuple3 {
            x: self.x.spec_div(s),
            y: self.y.spec_div(s),
            z: self.z.spec_div(s),
        }
    }

    /// Dot product: the products of matching components, summed from `x`
    /// to `z`.
    pub open spec fn spec_dot(self, rhs: Tuple3) -> Scalar {
        self.x.spec_mul(rhs.x).spec_add(self.y.spec_mul(rhs.y)).spec_add(self.z.spec_mul(rhs.z))
    }

    /// Euclidean norm.
    pub open spec fn spec_magnitude(self) -> Scalar {
        self.spec_dot(self).spec_sqrt()
    }

    /// The tuple divided by its magnitude.
    pub open spec fn spec_normalize(self) -> Tuple3 {
        self.spec_div(self.spec_magnitude())
    }

    /// Cross product.
    pub open spec fn spec_cross(self, rhs: Tuple3) -> Tuple3 {
        Tuple3 {
            x: self.y.spec_mul(rhs.z).spec_sub(self.z.spec_mul(rhs.y)),
            y: self.z.spec_mul(rhs.x).spec_sub(self.x.spec_mul(rhs.z)),
            z: self.x.spec_mul(rhs.y).spec_sub(self.y.spec_mul(rhs.x)),
        }
    }

    /// Every pair of matching components is equal within the tolerance.
    pub open spec fn approx_eq(self, rhs: Tuple3) -> bool {
        self.x.spec_epsilon_eq(rhs.x) && self.y.spec_epsilon_eq(rhs.y)
            && self.z.spec_epsilon_eq(rhs.z)
    }

    /// The tuple with the components of `data`, in order.
    pub fn from_array(data: [Scalar; 3]) -> (r: Tuple3)
        ensures
            r == (Tuple3 { x: data[0], y: data[1], z: data[2] }),
    {
        Tuple3 { x: data[0], y: data[1], z: data[2] }
    }

    /// The Euclidean norm: the square root of the tuple dotted with itself.
    pub fn magnitude(&self) -> (r: Scalar)
        ensures
            r == self.spec_magnitude(),
    {
        self.dot(self).sqrt()
    }

    /// Divides by the magnitude. A tuple of magnitude zero is divided by
    /// zero: its zero components stay zero, the others go to the extremes.
    pub fn normalize(&self) -> (r: Tuple3)
        ensures
            r == self.spec_normalize(),
    {
        let magnitude = self.magnitude();
        Tuple3 { x: self.x / magnitude, y: self.y / magnitude, z: self.z / magnitude }
    }

    /// The dot product.
    pub fn dot(&self, other: &Tuple3) -> (r: Scalar)
        ensures
            r == self.spec_dot(*other),
    {
        self.x * other.x + self.y * other.y + self.z * other.z
    }

    /// Number of components.
    pub fn dim() -> (r: usize)
        ensures
            r == 3,
    {
        3
    }

    /// Replaces the component at `index`.
    pub fn set(&mut self, index: usize, value: Scalar)
        requires
            index < 3,
        ensures
            *final(self) == old(self).with_component(index as int, value),
    {
        *core::ops::IndexMut::index_mut(self, index) = value;
    }

    /// The cross product.
    pub fn cross(&self, other: &Tuple3) -> (r: Tuple3)
        ensures
            r == self.spec_cross(*other),
    {
        Tuple3::from_array(
            [
                self.y * other.z - self.z * other.y,
                self.z * other.x - self.x * other.z,
                self.x * other.y - self.y * other.x,
            ],
        )
    }
}

impl Default for Tuple3 {
    fn default() -> (r: Tuple3)
        ensures
            r == Tuple3::spec_zero(),
    {
        Tuple3 { x: Scalar::zero(), y: Scalar::zero(), z: Scalar::zero() }
    }
}

impl core::ops::Index<usize> for Tuple3 {
    type Output = Scalar;

    fn index(&self, index: usize) -> (r: &Scalar)
        ensures
            *r == self.component(index as int),
    {
        if index == 0 {
            &self.x
        } else if index == 1 {
            &self.y
        } else {
            &self.z
        }
    }
}

impl vstd::std_specs::core::IndexSpecImpl<usize> for Tuple3 {
    open spec fn index_req(&self, index: &usize) -> bool {
        *index < 3
    }
}

impl core::ops::IndexMut<usize> for Tuple3 {
    fn index_mut(&mut self, index: usize) -> (r: &mut Scalar)
        requires
            index < 3,
        ensures
            *r == old(self).component(index as int),
            *final(self) == old(self).with_component(index as int, *final(r)),
    {
        if index == 0 {
            &mut self.x
        } else if index == 1 {
            &mut self.y
        } else {
            &mut self.z
        }
    }
}

impl PartialEq for Tuple3 {
    fn eq(&self, other: &Tuple3) -> (r: bool) {
        epsilon_eq(self.x, other.x) && epsilon_eq(self.y, other.y) && epsilon_eq(self.z, other.z)
    }
}

impl PartialEqSpecImpl for Tuple3 {
    open spec fn obeys_eq_spec() -> bool {
        true
    }

    open spec fn eq_spec(&self, other: &Tuple3) -> bool {
        self.approx_eq(*other)
    }
}

impl core::ops::Add for Tuple3 {
    type Output = Tuple3;

    fn add(self, other: Tuple3) -> (r: Tuple3) {
        Tuple3 { x: self.x + other.x, y: self.y + other.y, z: self.z + other.z }
    }
}

impl AddSpecImpl for Tuple3 {
    open spec fn obeys_add_spec() -> bool {
        true
    }

    open spec fn add_req(self, other: Tuple3) -> bool {
        true
    }

    open spec fn add_spec(self, other: Tuple3) -> Tuple3 {
        self.spec_add(other)
    }
}

impl core::ops::Sub for Tuple3 {
    type Output = Tuple3;

    fn sub(self, other: Tuple3) -> (r: Tuple3) {
        Tuple3 { x: self.x - other.x, y: self.y - other.y, z: self.z - other.z }
    }
}

impl SubSpecImpl for Tuple3 {
    open spec fn obeys_sub_spec() -> bool {
        true
    }

    open spec fn sub_req(self, other: Tuple3) -> bool {
        true
    }

    open spec fn sub_spec(self, other: Tuple3) -> Tuple3 {
        self.spec_sub(other)
    }
}

impl core::ops::Neg for Tuple3 {
    type Output = Tuple3;

    fn neg(self) -> (r: Tuple3) {
        Tuple3 {
            x: core::ops::Neg::neg(self.x),
            y: core::ops::Neg::neg(self.y),
            z: core::ops::Neg::neg(self.z),
        }
    }
}

impl NegSpecImpl for Tuple3 {
    open spec fn obeys_neg_spec() -> bool {
        true
    }

    open spec fn neg_req(self) -> bool {
        true
    }

    open spec fn neg_spec(self) -> Tuple3 {
        self.spec_neg()
    }
}

impl core::ops::Mul<Scalar> for Tuple3 {
    type Output = Tuple3;

    fn mul(self, scalar: Scalar) -> (r: Tuple3) {
        Tuple3 { x: self.x * scalar, y: self.y * scalar, z: self.z * scalar }
    }
}

impl MulSpecImpl<Scalar> for Tuple3 {
    open spec fn obeys_mul_spec() -> bool {
        true
    }

    open spec fn mul_req(self, scalar: Scalar) -> bool {
        true
    }

    open spec fn mul_spec(self, scalar: Scalar) -> Tuple3 {
        self.spec_mul(scalar)
    }
}

impl core::ops::Div<Scalar> for Tuple3 {
    type Output = Tuple3;

    fn div(self, scalar: Scalar) -> (r: Tuple3) {
        Tuple3 { x: self.x / scalar, y: self.y / scalar, z: self.z / scalar }
    }
}

impl DivSpecImpl<Scalar> for Tuple3 {
    open spec fn obeys_div_spec() -> bool {
        true
    }

    open spec fn div_req(self, scalar: Scalar) -> bool {
        true
    }

    open spec fn div_spec(self, scalar: Scalar) -> Tuple3 {
        self.spec_div(scalar)
    }
}

} // verus!
