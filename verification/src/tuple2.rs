//! Two-component tuples.

use crate::scalar::epsilon_eq;
use crate::scalar::Scalar;
use vstd::prelude::*;
use vstd::std_specs::cmp::PartialEqSpecImpl;
use vstd::std_specs::ops::AddSpecImpl;
use vstd::std_specs::ops::DivSpecImpl;
use vstd::std_specs::ops::MulSpecImpl;
use vstd::std_specs::ops::NegSpecImpl;
use vstd::std_specs::ops::SubSpecImpl;

verus! {

/// A tuple `(x, y)`.
#[derive(Debug, Clone, Copy)]
pub struct Tuple2 {
    pub x: Scalar,
    pub y: Scalar,
}

impl Tuple2 {
    /// Every component is inside the symmetric range.
    pub open spec fn wf(self) -> bool {
        self.x.wf() && self.y.wf()
    }

    /// The component at position `i`, counted from zero.
    pub open spec fn component(self, i: int) -> Scalar {
        if i == 0 {
            self.x
        } else {
            self.y
        }
    }

    /// The tuple with the component at position `i` replaced by `v`.
    pub open spec fn with_component(self, i: int, v: Scalar) -> Tuple2 {
        if i == 0 {
            Tuple2 { x: v, ..self }
        } else {
            Tuple2 { y: v, ..self }
        }
    }

    /// The tuple of zeros.
    pub open spec fn spec_zero() -> Tuple2 {
        Tuple2 { x: Scalar::spec_zero(), y: Scalar::spec_zero() }
    }

    /// The tuple with one at position `i` and zero elsewhere.
    pub open spec fn spec_unit(i: int) -> Tuple2 {
        Tuple2::spec_zero().with_component(i, Scalar::spec_one())
    }

    /// Componentwise sum.
    pub open spec fn spec_add(self, rhs: Tuple2) -> Tuple2 {
        Tuple2 {
            x: self.x.spec_add(rhs.x),
            y: self.y.spec_add(rhs.y),
        }
    }

    /// Componentwise difference.
    pub open spec fn spec_sub(self, rhs: Tuple2) -> Tuple2 {
        Tuple2 {
            x: self.x.spec_sub(rhs.x),
            y: self.y.spec_sub(rhs.y),
        }
    }

    /// Componentwise negation.
    pub open spec fn spec_neg(self) -> Tuple2 {
        Tuple2 {
            x: self.x.spec_neg(),
            y: self.y.spec_neg(),
        }
    }

    /// Every component multiplied by `s`.
    pub open spec fn spec_mul(self, s: Scalar) -> Tuple2 {
        Tuple2 {
            x: self.x.spec_mul(s),
            y: self.y.spec_mul(s),
        }
    }

    /// Every component divided by `s`.
    pub open spec fn spec_div(self, s: Scalar) -> Tuple2 {
        Tuple2 {
            x: self.x.spec_div(s),
            y: self.y.spec_div(s),
        }
    }

    /// Dot product: the products of matching components, summed from `x`
    /// to `y`.
    pub open spec fn spec_dot(self, rhs: Tuple2) -> Scalar {
        self.x.spec_mul(rhs.x).spec_add(self.y.spec_mul(rhs.y))
    }

    /// Euclidean norm.
    pub open spec fn spec_magnitude(self) -> Scalar {
        self.spec_dot(self).spec_sqrt()
    }

    /// The tuple divided by its magnitude.
    pub open spec fn spec_normalize(self) -> Tuple2 {
        self.spec_div(self.spec_magnitude())
    }

    /// Every pair of matching components is equal within the tolerance.
    pub open spec fn approx_eq(self, rhs: Tuple2) -> bool {
        self.x.spec_epsilon_eq(rhs.x) && self.y.spec_epsilon_eq(rhs.y)
    }

    /// The tuple with the components of `data`, in order.
    pub fn from_array(data: [Scalar; 2]) -> (r: Tuple2)
        ensures
            r == (Tuple2 { x: data[0], y: data[1] }),
    {
        Tuple2 { x: data[0], y: data[1] }
    }

    /// The Euclidean norm: the square root of the tuple dotted with itself.
    pub fn magnitude(&self) -> (r: Scalar)
        ensures
            r == self.spec_magnitude(),
    {
        self.dot(self).sqrt()
    }

    /// Divides by the magnitude. A tuple of magnitude zero is divided by
    /// zero: its zero components stay zero, the others go to the extremes.
    pub fn normalize(&self) -> (r: Tuple2)
        ensures
            r == self.spec_normalize(),
    {
        let magnitude = self.magnitude();
        Tuple2 { x: self.x / magnitude, y: self.y / magnitude }
    }

    /// The dot product.
    pub fn dot(&self, other: &Tuple2) -> (r: Scalar)
        ensures
            r == self.spec_dot(*other),
    {
        self.x * other.x + self.y * other.y
    }

    /// Number of components.
    pub fn dim() -> (r: usize)
        ensures
            r == 2,
    {
        2
    }

    /// Replaces the component at `index`.
    pub fn set(&mut self, index: usize, value: Scalar)
        requires
            index < 2,
        ensures
            *final(self) == old(self).with_component(index as int, value),
    {
        *core::ops::IndexMut::index_mut(self, index) = value;
    }
}

impl Default for Tuple2 {
    fn default() -> (r: Tuple2)
        ensures
            r == Tuple2::spec_zero(),
    {
        Tuple2 { x: Scalar::zero(), y: Scalar::zero() }
    }
}

impl core::ops::Index<usize> for Tuple2 {
    type Output = Scalar;

    fn index(&self, index: usize) -> (r: &Scalar)
        ensures
            *r == self.component(index as int),
    {
        if index == 0 {
            &self.x
        } else {
            &self.y
        }
    }
}

impl vstd::std_specs::core::IndexSpecImpl<usize> for Tuple2 {
    open spec fn index_req(&self, index: &usize) -> bool {
        *index < 2
    }
}

impl core::ops::IndexMut<usize> for Tuple2 {
    fn index_mut(&mut self, index: usize) -> (r: &mut Scalar)
        requires
            index < 2,
        ensures
            *r == old(self).component(index as int),
            *final(self) == old(self).with_component(index as int, *final(r)),
    {
        if index == 0 {
            &mut self.x
        } else {
            &mut self.y
        }
    }
}

impl PartialEq for Tuple2 {
    fn eq(&self, other: &Tuple2) -> (r: bool) {
        epsilon_eq(self.x, other.x) && epsilon_eq(self.y, other.y)
    }
}

impl PartialEqSpecImpl for Tuple2 {
    open spec fn obeys_eq_spec() -> bool {
        true
    }

    open spec fn eq_spec(&self, other: &Tuple2) -> bool {
        self.approx_eq(*other)
    }
}

impl core::ops::Add for Tuple2 {
    type Output = Tuple2;

    fn add(self, other: Tuple2) -> (r: Tuple2) {
        Tuple2 { x: self.x + other.x, y: self.y + other.y }
    }
}

impl AddSpecImpl for Tuple2 {
    open spec fn obeys_add_spec() -> bool {
        true
    }

    open spec fn add_req(self, other: Tuple2) -> bool {
        true
    }

    open spec fn add_spec(self, other: Tuple2) -> Tuple2 {
        self.spec_add(other)
    }
}

impl core::ops::Sub for Tuple2 {
    type Output = Tuple2;

    fn sub(self, other: Tuple2) -> (r: Tuple2) {
        Tuple2 { x: self.x - other.x, y: self.y - other.y }
    }
}

impl SubSpecImpl for Tuple2 {
    open spec fn obeys_sub_spec() -> bool {
        true
    }

    open spec fn sub_req(self, other: Tuple2) -> bool {
        true
    }

    open spec fn sub_spec(self, other: Tuple2) -> Tuple2 {
        self.spec_sub(other)
    }
}

impl core::ops::Neg for Tuple2 {
    type Output = Tuple2;

    fn neg(self) -> (r: Tuple2) {
        Tuple2 {
            x: core::ops::Neg::neg(self.x),
            y: core::ops::Neg::neg(self.y),
        }
    }
}

impl NegSpecImpl for Tuple2 {
    open spec fn obeys_neg_spec() -> bool {
        true
    }

    open spec fn neg_req(self) -> bool {
        true
    }

    open spec fn neg_spec(self) -> Tuple2 {
        self.spec_neg()
    }
}

impl core::ops::Mul<Scalar> for Tuple2 {
    type Output = Tuple2;

    fn mul(self, scalar: Scalar) -> (r: Tuple2) {
        Tuple2 { x: self.x * scalar, y: self.y * scalar }
    }
}

impl MulSpecImpl<Scalar> for Tuple2 {
    open spec fn obeys_mul_spec() -> bool {
        true
    }

    open spec fn mul_req(self, scalar: Scalar) -> bool {
        true
    }

    open spec fn mul_spec(self, scalar: Scalar) -> Tuple2 {
        self.spec_mul(scalar)
    }
}

impl core::ops::Div<Scalar> for Tuple2 {
    type Output = Tuple2;

    fn div(self, scalar: Scalar) -> (r: Tuple2) {
        Tuple2 { x: self.x / scalar, y: self.y / scalar }
    }
}

impl DivSpecImpl<Scalar> for Tuple2 {
    open spec fn obeys_div_spec() -> bool {
        true
    }

    open spec fn div_req(self, scalar: Scalar) -> bool {
        true
    }

    open spec fn div_spec(self, scalar: Scalar) -> Tuple2 {
        self.spec_div(scalar)
    }
}

} // verus!
