//! A rectangular grid of pixels, and its encoding as eight-bit samples.

use crate::color::Color;
use crate::scalar::Scalar;
use vstd::prelude::*;

verus! {

/// A canvas of `width` by `height` pixels, stored row by row.
#[derive(Debug, Clone)]
pub struct Canvas {
    pub width: usize,
    pub height: usize,
    pub pixels: Vec<Color>,
}

/// An intensity as an eight-bit sample: 255 times the value, rounded to the
/// nearest whole number and clamped to `0 ..= 255`.
pub open spec fn spec_sample(c: Scalar) -> u8 {
    let v = c.spec_mul(Scalar::of(255 * crate::scalar::SCALE)).spec_round();
    if v < 0 {
        0u8
    } else if v > 255 {
        255u8
    } else {
        v as u8
    }
}

/// The samples of `pixels`: red, green and blue of each pixel in turn.
pub open spec fn spec_samples(pixels: Seq<Color>) -> Seq<u8> {
    Seq::new(
        3 * pixels.len(),
        |k: int|
            if k % 3 == 0 {
                spec_sample(pixels[k / 3].r)
            } else if k % 3 == 1 {
                spec_sample(pixels[k / 3].g)
            } else {
                spec_sample(pixels[k / 3].b)
            },
    )
}

/// An intensity as an eight-bit sample.
pub fn sample(c: Scalar) -> (r: u8)
    ensures
        r == spec_sample(c),
{
    let v: i64 = (c * Scalar::from_int(255)).round();
    if v < 0 {
        0
    } else if v > 255 {
        255
    } else {
        v as u8
    }
}

impl Canvas {
    /// The position of pixel `(x, y)` in `pixels`.
    pub open spec fn offset(self, x: int, y: int) -> int {
        y * self.width + x
    }

    /// A canvas of the given size with every pixel black.
    pub fn new(width: usize, height: usize) -> (c: Canvas)
        requires
            width * height <= usize::MAX,
        ensures
            c.width == width,
            c.height == height,
            c.pixels@.len() == width * height,
            forall|i: int| 0 <= i < c.pixels@.len() ==> c.pixels@[i] == Color::spec_black(),
    {
        let n: usize = width * height;
        let mut pixels: Vec<Color> = Vec::new();
        let mut i: usize = 0;
        while i < n
            invariant
                i <= n,
                pixels@.len() == i,
                forall|k: int| 0 <= k < i ==> pixels@[k] == Color::spec_black(),
            decreases n - i,
        {
            pixels.push(Color::new(Scalar::zero(), Scalar::zero(), Scalar::zero()));
            i += 1;
        }
        Canvas { width, height, pixels }
    }

    /// The pixels as eight-bit samples, three for each pixel.
    pub fn to_rgb8(&self) -> (data: Vec<u8>)
        ensures
            data@ == spec_samples(self.pixels@),
    {
        let mut data: Vec<u8> = Vec::new();
        let mut i: usize = 0;
        while i < self.pixels.len()
            invariant
                i <= self.pixels@.len(),
                data@.len() == 3 * i,
                forall|k: int| 0 <= k < 3 * i ==> data@[k] == spec_samples(self.pixels@)[k],
            decreases self.pixels@.len() - i,
        {
            let c = self.pixels[i];
            data.push(sample(c.r));
            data.push(sample(c.g));
            data.push(sample(c.b));
            i += 1;
        }
        assert(data@ =~= spec_samples(self.pixels@));
        data
    }
}

impl core::ops::Index<(usize, usize)> for Canvas {
    type Output = Color;

    fn index(&self, index: (usize, usize)) -> (r: &Color)
        ensures
            *r == self.pixels@[self.offset(index.0 as int, index.1 as int)],
    {
        let ghost k = self.offset(index.0 as int, index.1 as int);
        assert(0 <= index.1 * self.width <= k) by (nonlinear_arith)
            requires
                k == index.1 * self.width + index.0,
                0 <= index.0,
                0 <= index.1,
                0 <= self.width,
        ;
        assert(k < self.pixels.len() <= usize::MAX);
        &self.pixels[index.1 * self.width + index.0]
    }
}

impl vstd::std_specs::core::IndexSpecImpl<(usize, usize)> for Canvas {
    open spec fn index_req(&self, index: &(usize, usize)) -> bool {
        self.offset(index.0 as int, index.1 as int) < self.pixels@.len()
    }
}

impl core::ops::IndexMut<(usize, usize)> for Canvas {
    fn index_mut(&mut self, index: (usize, usize)) -> (r: &mut Color)
        requires
            old(self).offset(index.0 as int, index.1 as int) < old(self).pixels@.len(),
        ensures
            *r == old(self).pixels@[old(self).offset(index.0 as int, index.1 as int)],
            final(self).width == old(self).width,
            final(self).height == old(self).height,
            final(self).pixels@ == old(self).pixels@.update(
                old(self).offset(index.0 as int, index.1 as int),
                *final(r),
            ),
    {
        let ghost k = self.offset(index.0 as int, index.1 as int);
        assert(0 <= index.1 * self.width <= k) by (nonlinear_arith)
            requires
                k == index.1 * self.width + index.0,
                0 <= index.0,
                0 <= index.1,
                0 <= self.width,
        ;
        assert(k < self.pixels.len() <= usize::MAX);
        let at: usize = index.1 * self.width + index.0;
        &mut self.pixels[at]
    }
}

} // verus!
