//! Intersections of rays with spheres, and the choice of the visible one.

use crate::ray::spec_transform;
use crate::ray::transform;
use crate::ray::Ray;
use crate::rounding::lemma_round_quotient_sign;
use crate::scalar::Scalar;
use crate::sphere::Sphere;
use crate::tuple4::point;
use crate::tuple4::Tuple4;
use vstd::prelude::*;
use vstd::std_specs::cmp::PartialEqSpecImpl;

verus! {

/// A ray meets `object` at parameter `t`.
#[derive(Debug, Clone, Copy)]
pub struct Intersection<'a> {
    pub t: Scalar,
    pub object: &'a Sphere,
}

impl<'a> Intersection<'a> {
    /// The intersection at parameter `t` with `object`.
    pub fn new(t: Scalar, object: &'a Sphere) -> (i: Intersection<'a>)
        ensures
            i == (Intersection { t, object }),
    {
        Intersection { t, object }
    }
}

/// Whether the two references point to one and the same sphere. Calls
/// `std::ptr::eq`, which compares the addresses; all that is claimed is that
/// one object has one value.
#[verifier::external_body]
fn same_sphere(a: &Sphere, b: &Sphere) -> (r: bool)
    ensures
        r ==> *a == *b,
{
    std::ptr::eq(a, b)
}

/// Two intersections are equal when their parameters are the same and they
/// refer to the same sphere object; two spheres of equal value are not the
/// same object.
impl<'a> PartialEq for Intersection<'a> {
    fn eq(&self, other: &Intersection<'a>) -> (r: bool)
        ensures
            r ==> self.t == other.t && self.object == other.object,
    {
        self.t == other.t && same_sphere(self.object, other.object)
    }
}

impl<'a> PartialEqSpecImpl for Intersection<'a> {
    open spec fn obeys_eq_spec() -> bool {
        false
    }

    open spec fn eq_spec(&self, other: &Intersection<'a>) -> bool {
        self.t == other.t && self.object == other.object
    }
}

/// Intersections in the order in which they were added.
pub struct Intersections<'a> {
    pub intersections: Vec<Intersection<'a>>,
}

impl<'a> View for Intersections<'a> {
    type V = Seq<Intersection<'a>>;

    open spec fn view(&self) -> Seq<Intersection<'a>> {
        self.intersections@
    }
}

impl<'a> Intersections<'a> {
    /// No intersections.
    pub fn new() -> (xs: Intersections<'a>)
        ensures
            xs@ == Seq::<Intersection<'a>>::empty(),
    {
        Intersections { intersections: Vec::new() }
    }

    /// The number of intersections.
    pub fn count(&self) -> (n: usize)
        ensures
            n == self@.len(),
    {
        self.intersections.len()
    }

    /// Appends `i`.
    pub fn add(&mut self, i: Intersection<'a>)
        ensures
            final(self)@ == old(self)@.push(i),
    {
        self.intersections.push(i);
    }
}

impl<'a> core::ops::Index<usize> for Intersections<'a> {
    type Output = Intersection<'a>;

    fn index(&self, index: usize) -> (r: &Intersection<'a>)
        ensures
            *r == self@[index as int],
    {
        &self.intersections[index]
    }
}

impl<'a> vstd::std_specs::core::IndexSpecImpl<usize> for Intersections<'a> {
    open spec fn index_req(&self, index: &usize) -> bool {
        *index < self@.len()
    }
}

/// Discriminant `b * b - 4 * a * c` of the quadratic `a t^2 + b t + c`.
pub open spec fn spec_discriminant(a: Scalar, b: Scalar, c: Scalar) -> Scalar {
    b.spec_mul(b).spec_sub(Scalar::of(4 * crate::scalar::SCALE).spec_mul(a).spec_mul(c))
}

/// Smaller root `(-b - sqrt(d)) / (2 a)` of the quadratic with discriminant
/// `d`.
pub open spec fn spec_root_low(a: Scalar, b: Scalar, d: Scalar) -> Scalar {
    b.spec_neg().spec_sub(d.spec_sqrt()).spec_div(Scalar::of(2 * crate::scalar::SCALE).spec_mul(a))
}

/// Larger root `(-b + sqrt(d)) / (2 a)` of the quadratic with discriminant
/// `d`.
pub open spec fn spec_root_high(a: Scalar, b: Scalar, d: Scalar) -> Scalar {
    b.spec_neg().spec_add(d.spec_sqrt()).spec_div(Scalar::of(2 * crate::scalar::SCALE).spec_mul(a))
}

/// The vector from the centre of the unit sphere to the origin of `ray`.
pub open spec fn spec_sphere_to_ray(ray: Ray) -> Tuple4 {
    ray.origin.spec_sub(
        Tuple4 {
            x: Scalar::spec_zero(),
            y: Scalar::spec_zero(),
            z: Scalar::spec_zero(),
            w: Scalar::spec_one(),
        },
    )
}

/// Coefficient `a` of the quadratic for `ray` and the unit sphere.
pub open spec fn spec_quadratic_a(ray: Ray) -> Scalar {
    ray.direction.spec_dot(ray.direction)
}

/// Coefficient `b` of the quadratic for `ray` and the unit sphere.
pub open spec fn spec_quadratic_b(ray: Ray) -> Scalar {
    Scalar::of(2 * crate::scalar::SCALE).spec_mul(ray.direction.spec_dot(spec_sphere_to_ray(ray)))
}

/// Coefficient `c` of the quadratic for `ray` and the unit sphere.
pub open spec fn spec_quadratic_c(ray: Ray) -> Scalar {
    spec_sphere_to_ray(ray).spec_dot(spec_sphere_to_ray(ray)).spec_sub(Scalar::spec_one())
}

/// Parameters at which `ray` meets the unit sphere at the origin: none when
/// the discriminant is negative, else the smaller and the larger root.
pub open spec fn spec_unit_sphere_hits(ray: Ray) -> Seq<Scalar> {
    let a = spec_quadratic_a(ray);
    let b = spec_quadratic_b(ray);
    let c = spec_quadratic_c(ray);
    let d = spec_discriminant(a, b, c);
    if d.raw < 0 {
        Seq::empty()
    } else {
        seq![spec_root_low(a, b, d), spec_root_high(a, b, d)]
    }
}

/// Parameters at which `ray` meets `sphere`: those at which the ray, taken
/// to the sphere's own space by the inverse of its transform, meets the unit
/// sphere; none when the transform has no inverse.
pub open spec fn spec_intersect(sphere: Sphere, ray: Ray) -> Seq<Scalar> {
    match sphere.transform.spec_inverse() {
        None => Seq::empty(),
        Some(inverse) => spec_unit_sphere_hits(spec_transform(ray, inverse)),
    }
}

/// A tuple dotted with itself is never negative.
pub proof fn lemma_self_dot_nonnegative(v: Tuple4)
    ensures
        v.spec_dot(v).raw >= 0,
{
    reveal(Scalar::spec_mul);
    assert(v.x.raw * v.x.raw >= 0) by (nonlinear_arith);
    assert(v.y.raw * v.y.raw >= 0) by (nonlinear_arith);
    assert(v.z.raw * v.z.raw >= 0) by (nonlinear_arith);
    assert(v.w.raw * v.w.raw >= 0) by (nonlinear_arith);
    lemma_round_quotient_sign(v.x.raw * v.x.raw, crate::scalar::SCALE as int);
    lemma_round_quotient_sign(v.y.raw * v.y.raw, crate::scalar::SCALE as int);
    lemma_round_quotient_sign(v.z.raw * v.z.raw, crate::scalar::SCALE as int);
    lemma_round_quotient_sign(v.w.raw * v.w.raw, crate::scalar::SCALE as int);
}

/// With a leading coefficient that is not negative, the smaller root is at
/// most the larger one.
pub proof fn lemma_roots_ordered(a: Scalar, b: Scalar, d: Scalar)
    requires
        a.raw >= 0,
    ensures
        spec_root_low(a, b, d).raw <= spec_root_high(a, b, d).raw,
{
    reveal(Scalar::spec_mul);
    reveal(Scalar::spec_div);
    let scale = crate::scalar::SCALE as int;
    let s = d.spec_sqrt();
    crate::scalar::lemma_sqrt_nonnegative(d);
    assert(s.raw >= 0);
    let low = b.spec_neg().spec_sub(s);
    let high = b.spec_neg().spec_add(s);
    assert(low.raw <= high.raw);
    let two = Scalar::of(2 * scale);
    let den = two.spec_mul(a);
    assert(two.raw * a.raw >= 0) by (nonlinear_arith)
        requires
            two.raw >= 0,
            a.raw >= 0,
    ;
    lemma_round_quotient_sign(two.raw * a.raw, scale);
    assert(den.raw >= 0);
    if den.raw > 0 {
        assert(low.raw * scale <= high.raw * scale) by (nonlinear_arith)
            requires
                low.raw <= high.raw,
                scale > 0,
        ;
        crate::rounding::lemma_round_quotient_monotone(
            low.raw * scale,
            high.raw * scale,
            den.raw as int,
        );
    }
}

/// A ray meets the unit sphere never or twice, and the first parameter is
/// at most the second.
pub proof fn lemma_unit_sphere_hits_ordered(ray: Ray)
    ensures
        spec_unit_sphere_hits(ray).len() == 0 || spec_unit_sphere_hits(ray).len() == 2,
        spec_unit_sphere_hits(ray).len() == 2 ==> spec_unit_sphere_hits(ray)[0].raw
            <= spec_unit_sphere_hits(ray)[1].raw,
{
    let a = spec_quadratic_a(ray);
    let b = spec_quadratic_b(ray);
    let c = spec_quadratic_c(ray);
    lemma_self_dot_nonnegative(ray.direction);
    lemma_roots_ordered(a, b, spec_discriminant(a, b, c));
}

/// Where `ray` meets `sphere`: no intersection, or two in increasing order
/// of the parameter (a tangent ray gives the same parameter twice). A sphere
/// whose transform cannot be inverted is never met.
pub fn intersect<'a>(sphere: &'a Sphere, ray: &Ray) -> (xs: Intersections<'a>)
    ensures
        xs@.len() == spec_intersect(*sphere, *ray).len(),
        forall|i: int|
            0 <= i < xs@.len() ==> (#[trigger] xs@[i]).t == spec_intersect(*sphere, *ray)[i]
                && xs@[i].object == sphere,
        xs@.len() == 0 || (xs@.len() == 2 && xs@[0].t.raw <= xs@[1].t.raw),
{
    let inverse = match sphere.transform.inverse() {
        None => {
            return Intersections::new();
        },
        Some(inverse) => inverse,
    };
    let ray_t = transform(ray, &inverse);
    proof {
        lemma_unit_sphere_hits_ordered(ray_t);
    }
    let sphere_to_ray = ray_t.origin - point(Scalar::zero(), Scalar::zero(), Scalar::zero());

    let a = ray_t.direction.dot(&ray_t.direction);
    let b = Scalar::from_int(2) * ray_t.direction.dot(&sphere_to_ray);
    let c = sphere_to_ray.dot(&sphere_to_ray) - Scalar::one();

    let discriminant = b * b - Scalar::from_int(4) * a * c;
    if discriminant.raw < 0 {
        Intersections::new()
    } else {
        let sqrt_discriminant = discriminant.sqrt();
        let minus_b = core::ops::Neg::neg(b);
        let t1 = (minus_b - sqrt_discriminant) / (Scalar::from_int(2) * a);
        let t2 = (minus_b + sqrt_discriminant) / (Scalar::from_int(2) * a);

        let mut intersections = Intersections::new();
        intersections.add(Intersection::new(t1, sphere));
        intersections.add(Intersection::new(t2, sphere));
        intersections
    }
}

/// Position `i` holds the hit of `s`: the smallest positive parameter, and
/// among equal ones the first.
pub open spec fn is_hit(s: Seq<Intersection>, i: int) -> bool {
    &&& 0 <= i < s.len()
    &&& s[i].t.raw > 0
    &&& forall|j: int| 0 <= j < s.len() && s[j].t.raw > 0 ==> s[i].t.raw <= s[j].t.raw
    &&& forall|j: int| 0 <= j < i && s[j].t.raw > 0 ==> s[i].t.raw < s[j].t.raw
}

/// The visible intersection: the one with the smallest parameter strictly
/// above zero, the first of them if several share it; nothing when no
/// parameter is positive.
pub fn hit<'a>(xs: &'a Intersections<'a>) -> (r: Option<&'a Intersection<'a>>)
    ensures
        r is None <==> forall|j: int| 0 <= j < xs@.len() ==> xs@[j].t.raw <= 0,
        r is Some ==> exists|i: int| is_hit(xs@, i) && *r.unwrap() == xs@[i],
{
    let mut best: Option<usize> = None;
    let mut k: usize = 0;
    while k < xs.intersections.len()
        invariant
            k <= xs@.len(),
            best is None ==> forall|j: int| 0 <= j < k ==> xs@[j].t.raw <= 0,
            best is Some ==> {
                let b = best.unwrap() as int;
                &&& 0 <= b < k
                &&& xs@[b].t.raw > 0
                &&& forall|j: int| 0 <= j < k && xs@[j].t.raw > 0 ==> xs@[b].t.raw <= xs@[j].t.raw
                &&& forall|j: int| 0 <= j < b && xs@[j].t.raw > 0 ==> xs@[b].t.raw < xs@[j].t.raw
            },
        decreases xs@.len() - k,
    {
        let t = xs.intersections[k].t;
        if t.raw > 0 {
            match best {
                None => {
                    best = Some(k);
                },
                Some(b) => {
                    if t.raw < xs.intersections[b].t.raw {
                        best = Some(k);
                    }
                },
            }
        }
        k += 1;
    }
    match best {
        None => None,
        Some(b) => {
            assert(is_hit(xs@, b as int));
            Some(&xs.intersections[b])
        },
    }
}

} // verus!
