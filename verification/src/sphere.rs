//! Spheres, and where a ray meets one.

use crate::color::Color;
use crate::error::SceneError;
use crate::scalar::Scalar;
use crate::vector::Vector;
use core::ops::Neg;
use vstd::prelude::*;

verus! {

/// A sphere with the look of its surface.
///
/// `specular` is the exponent of the highlight; `reflective` is the share of
/// the surface's colour that comes from what it mirrors, from zero to one.
#[derive(Clone, Copy, PartialEq, Eq, Structural, Debug)]
pub struct Sphere {
    pub center: Vector,
    pub radius: Scalar,
    pub color: Color,
    pub specular: u32,
    pub reflective: Scalar,
}

impl Sphere {
    /// The outward unit normal at `point`.
    pub open spec fn normal_at(self, point: Vector) -> Result<Vector, SceneError> {
        point.difference(self.center).unit()
    }

    /// The parameter `t` at which the ray `origin + t * direction` first
    /// meets the sphere's surface: the smaller root of
    /// `a * t^2 + b * t + c = 0`, with `a`, `b` and `c` as below. There is
    /// none where the discriminant is negative or `a` rounds to zero.
    pub open spec fn hit_parameter(self, origin: Vector, direction: Vector) -> Option<Scalar> {
        let from_sphere = origin.difference(self.center);
        let a = direction.dot(direction);
        let b = Scalar::whole(2).product(from_sphere.dot(direction));
        let c = from_sphere.dot(from_sphere).difference(self.radius.product(self.radius));
        let disc = b.product(b).difference(Scalar::whole(4).product(a).product(c));
        let twice_a = Scalar::whole(2).product(a);
        if disc.raw < 0 || twice_a.raw == 0 {
            None
        } else {
            let root = disc.sqrt_spec();
            let x1 = b.negation().sum(root).ratio(twice_a);
            let x2 = b.negation().difference(root).ratio(twice_a);
            Some(
                if x1.raw > x2.raw {
                    x2
                } else {
                    x1
                },
            )
        }
    }

    /// The sphere of the given parts.
    pub fn new(center: Vector, radius: Scalar, color: Color, specular: u32, reflective: Scalar) -> (s:
        Sphere)
        ensures
            s == (Sphere { center, radius, color, specular, reflective }),
    {
        Sphere { center, radius, color, specular, reflective }
    }

    /// The empty sphere: a black point at the origin.
    pub fn zero() -> (s: Sphere)
        ensures
            s.center == (Vector { x: Scalar { raw: 0 }, y: Scalar { raw: 0 }, z: Scalar { raw: 0 } }),
            s.radius.raw == 0,
            s.color == (Color { r: 0, g: 0, b: 0 }),
            s.specular == 0,
            s.reflective.raw == 0,
    {
        Sphere::new(Vector::null_vec(), Scalar::zero(), Color::black(), 0, Scalar::zero())
    }

    /// The outward unit normal at `point`. A point that lies on the centre
    /// has none.
    pub fn get_normal(&self, point: Vector) -> (r: Result<Vector, SceneError>)
        ensures
            r == self.normal_at(point),
    {
        let normal = point - self.center;
        normal.normalized()
    }

    /// Where the ray from `origin` along `direction` first meets the sphere.
    pub fn intersect(&self, origin: Vector, direction: Vector) -> (r: Option<Scalar>)
        ensures
            r == self.hit_parameter(origin, direction),
    {
        let from_sphere_vec = origin - self.center;
        let rr = self.radius * self.radius;
        let a = direction * direction;
        let b = Scalar::from_int(2) * (from_sphere_vec * direction);
        let c = from_sphere_vec * from_sphere_vec - rr;
        let disc = b * b - Scalar::from_int(4) * a * c;
        let twice_a = Scalar::from_int(2) * a;
        if disc.raw < 0 || twice_a.raw == 0 {
            return None;
        }
        let disc = disc.sqrt();
        let x1 = (b.neg() + disc) / twice_a;
        let x2 = (b.neg() - disc) / twice_a;
        if x1.raw > x2.raw {
            Some(x2)
        } else {
            Some(x1)
        }
    }
}

} // verus!
