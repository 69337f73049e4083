//! Colours as red, green and blue intensities.

use crate::scalar::epsilon_eq;
use crate::scalar::Scalar;
use vstd::prelude::*;
use vstd::std_specs::cmp::PartialEqSpecImpl;
use vstd::std_specs::ops::AddSpecImpl;
use vstd::std_specs::ops::MulSpecImpl;
use vstd::std_specs::ops::SubSpecImpl;

verus! {

/// A colour; each channel is nominally between zero and one.
#[derive(Debug, Clone, Copy)]
pub struct Color {
    pub r: Scalar,
    pub g: Scalar,
    pub b: Scalar,
}

impl Color {
    /// Black: every channel zero.
    pub open spec fn spec_black() -> Color {
        Color { r: Scalar::spec_zero(), g: Scalar::spec_zero(), b: Scalar::spec_zero() }
    }

    /// Channelwise sum.
    pub open spec fn spec_add(self, rhs: Color) -> Color {
        Color { r: self.r.spec_add(rhs.r), g: self.g.spec_add(rhs.g), b: self.b.spec_add(rhs.b) }
    }

    /// Channelwise difference.
    pub open spec fn spec_sub(self, rhs: Color) -> Color {
        Color { r: self.r.spec_sub(rhs.r), g: self.g.spec_sub(rhs.g), b: self.b.spec_sub(rhs.b) }
    }

    /// Every channel multiplied by `s`.
    pub open spec fn spec_scale(self, s: Scalar) -> Color {
        Color { r: self.r.spec_mul(s), g: self.g.spec_mul(s), b: self.b.spec_mul(s) }
    }

    /// Channelwise product.
    pub open spec fn spec_blend(self, rhs: Color) -> Color {
        Color { r: self.r.spec_mul(rhs.r), g: self.g.spec_mul(rhs.g), b: self.b.spec_mul(rhs.b) }
    }

    /// Every pair of matching channels is equal within the tolerance.
    pub open spec fn approx_eq(self, rhs: Color) -> bool {
        self.r.spec_epsilon_eq(rhs.r) && self.g.spec_epsilon_eq(rhs.g) && self.b.spec_epsilon_eq(
            rhs.b,
        )
    }

    /// The colour with the given channels.
    pub fn new(r: Scalar, g: Scalar, b: Scalar) -> (c: Color)
        ensures
            c == (Color { r, g, b }),
    {
        Color { r, g, b }
    }
}

impl Default for Color {
    fn default() -> (c: Color)
        ensures
            c == Color::spec_black(),
    {
        Color::new(Scalar::zero(), Scalar::zero(), Scalar::zero())
    }
}

impl PartialEq for Color {
    fn eq(&self, other: &Color) -> (r: bool) {
        epsilon_eq(self.r, other.r) && epsilon_eq(self.g, other.g) && epsilon_eq(self.b, other.b)
    }
}

impl PartialEqSpecImpl for Color {
    open spec fn obeys_eq_spec() -> bool {
        true
    }

    open spec fn eq_spec(&self, other: &Color) -> bool {
        self.approx_eq(*other)
    }
}

impl core::ops::Add for Color {
    type Output = Color;

    fn add(self, other: Color) -> (c: Color) {
        Color::new(self.r + other.r, self.g + other.g, self.b + other.b)
    }
}

impl AddSpecImpl for Color {
    open spec fn obeys_add_spec() -> bool {
        true
    }

    open spec fn add_req(self, other: Color) -> bool {
        true
    }

    open spec fn add_spec(self, other: Color) -> Color {
        self.spec_add(other)
    }
}

impl core::ops::Sub for Color {
    type Output = Color;

    fn sub(self, other: Color) -> (c: Color) {
        Color::new(self.r - other.r, self.g - other.g, self.b - other.b)
    }
}

impl SubSpecImpl for Color {
    open spec fn obeys_sub_spec() -> bool {
        true
    }

    open spec fn sub_req(self, other: Color) -> bool {
        true
    }

    open spec fn sub_spec(self, other: Color) -> Color {
        self.spec_sub(other)
    }
}

impl core::ops::Mul<Scalar> for Color {
    type Output = Color;

    fn mul(self, other: Scalar) -> (c: Color) {
        Color::new(self.r * other, self.g * other, self.b * other)
    }
}

impl MulSpecImpl<Scalar> for Color {
    open spec fn obeys_mul_spec() -> bool {
        true
    }

    open spec fn mul_req(self, other: Scalar) -> bool {
        true
    }

    open spec fn mul_spec(self, other: Scalar) -> Color {
        self.spec_scale(other)
    }
}

impl core::ops::Mul<Color> for Color {
    type Output = Color;

    fn mul(self, other: Color) -> (c: Color) {
        Color::new(self.r * other.r, self.g * other.g, self.b * other.b)
    }
}

impl MulSpecImpl<Color> for Color {
    open spec fn obeys_mul_spec() -> bool {
        true
    }

    open spec fn mul_req(self, other: Color) -> bool {
        true
    }

    open spec fn mul_spec(self, other: Color) -> Color {
        self.spec_blend(other)
    }
}

} // verus!
