//! Decimal fixed-point numbers: the scalar type of every vector and matrix.
//!
//! A `Scalar` stores a whole number of billionths. Every operation gives its
//! exact result rounded to the nearest billionth (ties away from zero) and
//! clamped to the representable range, so all of them are total.

use vstd::prelude::*;
use vstd::std_specs::ops::AddSpecImpl;
use vstd::std_specs::ops::DivSpecImpl;
use vstd::std_specs::ops::MulSpecImpl;
use vstd::std_specs::ops::NegSpecImpl;
use vstd::std_specs::ops::SubSpecImpl;

verus! {

/// Raw units in one whole: `1.0` is stored as `SCALE`.
pub const SCALE: i64 = 1_000_000_000;

/// Largest raw value; the range is symmetric, `-MAX_RAW ..= MAX_RAW`.
pub const MAX_RAW: i64 = 9_223_372_036_854_775_807;

/// Raw tolerance of approximate equality: one hundred-thousandth.
pub const EPSILON_RAW: i64 = 10_000;

/// A fixed-point number with nine decimal places; its value is `raw / SCALE`.
#[derive(Debug, Clone, Copy, PartialEq, Eq, Structural)]
pub struct Scalar {
    pub raw: i64,
}

/// Absolute value of an integer.
pub open spec fn abs(x: int) -> int {
    if x < 0 {
        -x
    } else {
        x
    }
}

/// `x` clamped to the representable raw range.
pub open spec fn saturate(x: int) -> int {
    if x > MAX_RAW {
        MAX_RAW as int
    } else if x < -MAX_RAW {
        -MAX_RAW
    } else {
        x
    }
}

/// The integer nearest to `n / d`, ties rounded away from zero (`d != 0`).
pub open spec fn round_quotient(n: int, d: int) -> int {
    let q = abs(n) / abs(d);
    let r = abs(n) % abs(d);
    let m = if 2 * r >= abs(d) {
        q + 1
    } else {
        q
    };
    if (n < 0) != (d < 0) {
        -m
    } else {
        m
    }
}

/// `m` is the integer part of the square root of `x`.
pub open spec fn is_sqrt_floor(x: int, m: int) -> bool {
    0 <= m && m * m <= x < (m + 1) * (m + 1)
}

/// The integer part of the square root of `x` (`x >= 0`).
pub open spec fn sqrt_floor(x: int) -> int {
    choose|m: int| is_sqrt_floor(x, m)
}

/// The integer nearest to the square root of `x` (`x >= 0`).
pub open spec fn sqrt_nearest(x: int) -> int {
    let m = sqrt_floor(x);
    if x - m * m > m {
        m + 1
    } else {
        m
    }
}

/// Two numbers have at most one integer square root between them.
pub proof fn lemma_sqrt_floor_unique(x: int, m: int, k: int)
    requires
        is_sqrt_floor(x, m),
        is_sqrt_floor(x, k),
    ensures
        m == k,
{
    if m < k {
        assert((m + 1) * (m + 1) <= k * k) by (nonlinear_arith)
            requires
                0 <= m + 1 <= k,
        ;
    }
    if k < m {
        assert((k + 1) * (k + 1) <= m * m) by (nonlinear_arith)
            requires
                0 <= k + 1 <= m,
        ;
    }
}

/// Any witness of `is_sqrt_floor` is the value of `sqrt_floor`.
pub proof fn lemma_sqrt_floor_is(x: int, m: int)
    requires
        is_sqrt_floor(x, m),
    ensures
        sqrt_floor(x) == m,
{
    lemma_sqrt_floor_unique(x, m, sqrt_floor(x));
}

impl View for Scalar {
    type V = int;

    open spec fn view(&self) -> int {
        self.raw as int
    }
}

impl Scalar {
    /// The value is inside the symmetric range, so negation is exact.
    pub open spec fn wf(self) -> bool {
        -MAX_RAW <= self.raw
    }

    /// The scalar whose raw value is `saturate(x)`.
    pub open spec fn of(x: int) -> Scalar {
        Scalar { raw: saturate(x) as i64 }
    }

    /// Zero.
    pub open spec fn spec_zero() -> Scalar {
        Scalar { raw: 0 }
    }

    /// One.
    pub open spec fn spec_one() -> Scalar {
        Scalar { raw: SCALE }
    }

    /// Sum, clamped.
    pub open spec fn spec_add(self, rhs: Scalar) -> Scalar {
        Scalar::of(self.raw + rhs.raw)
    }

    /// Difference, clamped.
    pub open spec fn spec_sub(self, rhs: Scalar) -> Scalar {
        Scalar::of(self.raw - rhs.raw)
    }

    /// Negation, clamped.
    pub open spec fn spec_neg(self) -> Scalar {
        Scalar::of(-self.raw)
    }

    /// Product, rounded to the nearest billionth and clamped.
    #[verifier::opaque]
    pub open spec fn spec_mul(self, rhs: Scalar) -> Scalar {
        Scalar::of(round_quotient(self.raw * rhs.raw, SCALE as int))
    }

    /// Quotient, rounded to the nearest billionth and clamped. A non-zero
    /// value divided by zero gives the extreme of its sign; zero divided by
    /// zero gives zero.
    #[verifier::opaque]
    pub open spec fn spec_div(self, rhs: Scalar) -> Scalar {
        if rhs.raw == 0 {
            if self.raw > 0 {
                Scalar { raw: MAX_RAW }
            } else if self.raw < 0 {
                Scalar { raw: (-MAX_RAW) as i64 }
            } else {
                Scalar { raw: 0 }
            }
        } else {
            Scalar::of(round_quotient(self.raw * SCALE, rhs.raw as int))
        }
    }

    /// Square root, rounded to the nearest billionth; zero for a negative
    /// value.
    #[verifier::opaque]
    pub open spec fn spec_sqrt(self) -> Scalar {
        if self.raw <= 0 {
            Scalar { raw: 0 }
        } else {
            Scalar { raw: sqrt_nearest(self.raw * SCALE) as i64 }
        }
    }

    /// The two values differ by less than the tolerance.
    pub open spec fn spec_epsilon_eq(self, rhs: Scalar) -> bool {
        abs(self.raw - rhs.raw) < EPSILON_RAW
    }

    /// The scalar with the given raw value; `i64::MIN` is clamped.
    pub fn from_raw(raw: i64) -> (r: Scalar)
        ensures
            r == Scalar::of(raw as int),
            r.wf(),
    {
        if raw < -MAX_RAW {
            Scalar { raw: -MAX_RAW }
        } else {
            Scalar { raw }
        }
    }

    /// The whole number `n`.
    pub fn from_int(n: i32) -> (r: Scalar)
        ensures
            r.raw == n * SCALE,
            r.wf(),
    {
        let wide: i64 = n as i64;
        Scalar { raw: wide * SCALE }
    }

    /// Zero.
    pub fn zero() -> (r: Scalar)
        ensures
            r == Scalar::spec_zero(),
    {
        Scalar { raw: 0 }
    }

    /// One.
    pub fn one() -> (r: Scalar)
        ensures
            r == Scalar::spec_one(),
    {
        Scalar { raw: SCALE }
    }

    /// The whole number nearest to the value, ties away from zero.
    pub open spec fn spec_round(self) -> int {
        round_quotient(self.raw as int, SCALE as int)
    }

    /// The whole number nearest to the value, ties away from zero.
    pub fn round(self) -> (r: i64)
        ensures
            r == self.spec_round(),
    {
        let q: i128 = round_quotient_wide(self.raw as i128, SCALE as i128);
        proof {
            let n = abs(self.raw as int);
            vstd::arithmetic::div_mod::lemma_div_is_ordered_by_denominator(n, 1, SCALE as int);
            vstd::arithmetic::div_mod::lemma_div_basics(n);
            vstd::arithmetic::div_mod::lemma_div_pos_is_pos(n, SCALE as int);
        }
        q as i64
    }

    /// Square root, see `spec_sqrt`.
    pub fn sqrt(self) -> (r: Scalar)
        ensures
            r == self.spec_sqrt(),
    {
        reveal(Scalar::spec_sqrt);
        if self.raw <= 0 {
            return Scalar { raw: 0 };
        }
        assert(0 < self.raw * SCALE < 0x4000_0000_0000_0000_0000_0000) by (nonlinear_arith)
            requires
                0 < self.raw <= 0x7fff_ffff_ffff_ffff,
                SCALE == 1_000_000_000,
        ;
        let x: u128 = (self.raw as u128) * (SCALE as u128);
        let m: u128 = isqrt(x);
        assert(m < 0x8000_0000_0000) by (nonlinear_arith)
            requires
                m * m <= x,
                x < 0x4000_0000_0000_0000_0000_0000,
                0 <= m,
        ;
        let rounded: u128 = if x - m * m > m {
            m + 1
        } else {
            m
        };
        Scalar { raw: rounded as i64 }
    }
}

/// Integer part of the square root, by bisection.
fn isqrt(x: u128) -> (m: u128)
    requires
        x < 0x4000_0000_0000_0000_0000_0000,
    ensures
        m == sqrt_floor(x as int),
        is_sqrt_floor(x as int, m as int),
{
    let mut lo: u128 = 0;
    let mut hi: u128 = 0x8000_0000_0000;
    while hi - lo > 1
        invariant
            lo < hi <= 0x8000_0000_0000,
            lo * lo <= x < hi * hi,
        decreases hi - lo,
    {
        let mid: u128 = lo + (hi - lo) / 2;
        assert(mid * mid < 0x4000_0000_0000_0000_0000_0000) by (nonlinear_arith)
            requires
                0 <= mid < 0x8000_0000_0000,
        ;
        if mid * mid <= x {
            lo = mid;
        } else {
            hi = mid;
        }
    }
    proof {
        lemma_sqrt_floor_is(x as int, lo as int);
    }
    lo
}

/// `saturate` as executable code.
fn saturate_wide(x: i128) -> (r: Scalar)
    ensures
        r == Scalar::of(x as int),
{
    if x > MAX_RAW as i128 {
        Scalar { raw: MAX_RAW }
    } else if x < -(MAX_RAW as i128) {
        Scalar { raw: -MAX_RAW }
    } else {
        Scalar { raw: x as i64 }
    }
}

/// `round_quotient` as executable code.
fn round_quotient_wide(n: i128, d: i128) -> (r: i128)
    requires
        d != 0,
        -0x4000_0000_0000_0000_0000_0000_0000_0000 <= n,
        n <= 0x4000_0000_0000_0000_0000_0000_0000_0000,
        -0x8000_0000_0000_0000 <= d <= 0x8000_0000_0000_0000,
    ensures
        r == round_quotient(n as int, d as int),
{
    let an: i128 = if n < 0 {
        -n
    } else {
        n
    };
    let ad: i128 = if d < 0 {
        -d
    } else {
        d
    };
    let q: i128 = an / ad;
    let rem: i128 = an % ad;
    proof {
        vstd::arithmetic::div_mod::lemma_div_pos_is_pos(an as int, ad as int);
        vstd::arithmetic::div_mod::lemma_div_is_ordered_by_denominator(an as int, 1, ad as int);
        vstd::arithmetic::div_mod::lemma_div_basics(an as int);
    }
    let m: i128 = if rem >= ad - rem {
        q + 1
    } else {
        q
    };
    if (n < 0) != (d < 0) {
        -m
    } else {
        m
    }
}

impl core::ops::Add for Scalar {
    type Output = Scalar;

    fn add(self, rhs: Scalar) -> (r: Scalar) {
        saturate_wide(self.raw as i128 + rhs.raw as i128)
    }
}

impl AddSpecImpl for Scalar {
    open spec fn obeys_add_spec() -> bool {
        true
    }

    open spec fn add_req(self, rhs: Scalar) -> bool {
        true
    }

    open spec fn add_spec(self, rhs: Scalar) -> Scalar {
        self.spec_add(rhs)
    }
}

impl core::ops::Sub for Scalar {
    type Output = Scalar;

    fn sub(self, rhs: Scalar) -> (r: Scalar) {
        saturate_wide(self.raw as i128 - rhs.raw as i128)
    }
}

impl SubSpecImpl for Scalar {
    open spec fn obeys_sub_spec() -> bool {
        true
    }

    open spec fn sub_req(self, rhs: Scalar) -> bool {
        true
    }

    open spec fn sub_spec(self, rhs: Scalar) -> Scalar {
        self.spec_sub(rhs)
    }
}

impl core::ops::Neg for Scalar {
    type Output = Scalar;

    fn neg(self) -> (r: Scalar) {
        saturate_wide(-(self.raw as i128))
    }
}

impl NegSpecImpl for Scalar {
    open spec fn obeys_neg_spec() -> bool {
        true
    }

    open spec fn neg_req(self) -> bool {
        true
    }

    open spec fn neg_spec(self) -> Scalar {
        self.spec_neg()
    }
}

impl core::ops::Mul for Scalar {
    type Output = Scalar;

    fn mul(self, rhs: Scalar) -> (r: Scalar) {
        reveal(Scalar::spec_mul);
        assert(-0x4000_0000_0000_0000_0000_0000_0000_0000 <= self.raw * rhs.raw
            <= 0x4000_0000_0000_0000_0000_0000_0000_0000) by (nonlinear_arith)
            requires
                -0x8000_0000_0000_0000 <= self.raw <= 0x8000_0000_0000_0000,
                -0x8000_0000_0000_0000 <= rhs.raw <= 0x8000_0000_0000_0000,
        ;
        let n: i128 = self.raw as i128 * rhs.raw as i128;
        saturate_wide(round_quotient_wide(n, SCALE as i128))
    }
}

impl MulSpecImpl for Scalar {
    open spec fn obeys_mul_spec() -> bool {
        true
    }

    open spec fn mul_req(self, rhs: Scalar) -> bool {
        true
    }

    open spec fn mul_spec(self, rhs: Scalar) -> Scalar {
        self.spec_mul(rhs)
    }
}

impl core::ops::Div for Scalar {
    type Output = Scalar;

    fn div(self, rhs: Scalar) -> (r: Scalar) {
        reveal(Scalar::spec_div);
        if rhs.raw == 0 {
            if self.raw > 0 {
                Scalar { raw: MAX_RAW }
            } else if self.raw < 0 {
                Scalar { raw: -MAX_RAW }
            } else {
                Scalar { raw: 0 }
            }
        } else {
            assert(-0x4000_0000_0000_0000_0000_0000_0000_0000 <= self.raw * SCALE
                <= 0x4000_0000_0000_0000_0000_0000_0000_0000) by (nonlinear_arith)
                requires
                    -0x8000_0000_0000_0000 <= self.raw <= 0x8000_0000_0000_0000,
                    SCALE == 1_000_000_000,
            ;
            let n: i128 = self.raw as i128 * SCALE as i128;
            saturate_wide(round_quotient_wide(n, rhs.raw as i128))
        }
    }
}

impl DivSpecImpl for Scalar {
    open spec fn obeys_div_spec() -> bool {
        true
    }

    open spec fn div_req(self, rhs: Scalar) -> bool {
        true
    }

    open spec fn div_spec(self, rhs: Scalar) -> Scalar {
        self.spec_div(rhs)
    }
}

/// Multiplying by one changes nothing but the clamping of the other factor.
pub proof fn lemma_mul_one(a: Scalar)
    ensures
        a.spec_mul(Scalar::spec_one()) == Scalar::of(a.raw as int),
        Scalar::spec_one().spec_mul(a) == Scalar::of(a.raw as int),
{
    reveal(Scalar::spec_mul);
    let n = abs(a.raw as int);
    assert(abs(a.raw * SCALE) == n * SCALE) by (nonlinear_arith)
        requires
            n == abs(a.raw as int),
            SCALE == 1_000_000_000,
    ;
    assert(a.raw * SCALE == SCALE * a.raw) by (nonlinear_arith);
    vstd::arithmetic::div_mod::lemma_div_multiples_vanish(n, SCALE as int);
    vstd::arithmetic::div_mod::lemma_mod_multiples_basic(n, SCALE as int);
    assert(n * SCALE == SCALE * n) by (nonlinear_arith);
    assert((a.raw * SCALE < 0) == (a.raw < 0)) by (nonlinear_arith)
        requires
            SCALE == 1_000_000_000,
    ;
}

/// Multiplying by zero gives zero.
pub proof fn lemma_mul_zero(a: Scalar)
    ensures
        a.spec_mul(Scalar::spec_zero()) == Scalar::spec_zero(),
        Scalar::spec_zero().spec_mul(a) == Scalar::spec_zero(),
{
    reveal(Scalar::spec_mul);
    let z = Scalar::spec_zero();
    assert(a.raw * z.raw == 0 && z.raw * a.raw == 0) by (nonlinear_arith)
        requires
            z.raw == 0,
    ;
    assert(round_quotient(0, SCALE as int) == 0) by {
        vstd::arithmetic::div_mod::lemma_basic_div(0, SCALE as int);
        vstd::arithmetic::div_mod::lemma_small_mod(0, SCALE as nat);
    }
}

/// Multiplication does not depend on the order of the factors.
pub proof fn lemma_mul_commutes(a: Scalar, b: Scalar)
    ensures
        a.spec_mul(b) == b.spec_mul(a),
{
    reveal(Scalar::spec_mul);
    assert(a.raw * b.raw == b.raw * a.raw) by (nonlinear_arith);
}

/// The square root of a number exists, and squares back to within its own
/// size.
pub proof fn lemma_sqrt_floor_exists(x: int)
    requires
        0 <= x,
    ensures
        is_sqrt_floor(x, sqrt_floor(x)),
    decreases x,
{
    if x == 0 {
        assert(is_sqrt_floor(0, 0));
    } else {
        let y = x / 4;
        lemma_sqrt_floor_exists(y);
        let r = 2 * sqrt_floor(y);
        let h = sqrt_floor(y);
        assert(r * r == 4 * (h * h)) by (nonlinear_arith)
            requires
                r == 2 * h,
        ;
        assert((r + 2) * (r + 2) == 4 * ((h + 1) * (h + 1))) by (nonlinear_arith)
            requires
                r == 2 * h,
        ;
        assert((r + 1) * (r + 1) == r * r + 2 * r + 1) by (nonlinear_arith);
        assert((r + 2) * (r + 2) == r * r + 4 * r + 4) by (nonlinear_arith);
        if (r + 1) * (r + 1) <= x {
            assert(is_sqrt_floor(x, r + 1));
        } else {
            assert(is_sqrt_floor(x, r));
        }
    }
}

/// The rounded square root of a number below `2^94` is below `2^47 + 1`.
pub proof fn lemma_sqrt_nearest_bounds(x: int)
    requires
        0 <= x < 0x4000_0000_0000_0000_0000_0000,
    ensures
        0 <= sqrt_nearest(x) <= 0x8000_0000_0000,
{
    lemma_sqrt_floor_exists(x);
    let m = sqrt_floor(x);
    assert(m < 0x8000_0000_0000) by (nonlinear_arith)
        requires
            0 <= m,
            m * m <= x,
            x < 0x4000_0000_0000_0000_0000_0000,
    ;
}

/// A square root is never negative.
pub proof fn lemma_sqrt_nonnegative(a: Scalar)
    ensures
        a.spec_sqrt().raw >= 0,
{
    reveal(Scalar::spec_sqrt);
    if a.raw > 0 {
        assert(0 < a.raw * SCALE < 0x4000_0000_0000_0000_0000_0000) by (nonlinear_arith)
            requires
                0 < a.raw <= 0x7fff_ffff_ffff_ffff,
                SCALE == 1_000_000_000,
        ;
        lemma_sqrt_nearest_bounds(a.raw * SCALE);
    }
}

/// Approximate equality: the values differ by less than one
/// hundred-thousandth.
pub fn epsilon_eq(a: Scalar, b: Scalar) -> (r: bool)
    ensures
        r == a.spec_epsilon_eq(b),
{
    let d: i128 = a.raw as i128 - b.raw as i128;
    -(EPSILON_RAW as i128) < d && d < EPSILON_RAW as i128
}

} // verus!
