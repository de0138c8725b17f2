//! Points and directions in space.

use crate::error::SceneError;
use crate::scalar::{is_floor_sqrt, lemma_square_nonneg, Scalar, SCALE};
use vstd::prelude::*;

verus! {

/// A point or a direction, by its three coordinates.
#[derive(Clone, Copy, PartialEq, Eq, Structural, Debug)]
pub struct Vector {
    pub x: Scalar,
    pub y: Scalar,
    pub z: Scalar,
}

impl Vector {
    /// The sum, coordinate by coordinate.
    pub open spec fn sum(self, other: Vector) -> Vector {
        Vector { x: self.x.sum(other.x), y: self.y.sum(other.y), z: self.z.sum(other.z) }
    }

    /// The difference, coordinate by coordinate.
    pub open spec fn difference(self, other: Vector) -> Vector {
        Vector {
            x: self.x.difference(other.x),
            y: self.y.difference(other.y),
            z: self.z.difference(other.z),
        }
    }

    /// The dot product.
    pub open spec fn dot(self, other: Vector) -> Scalar {
        self.x.product(other.x).sum(self.y.product(other.y)).sum(self.z.product(other.z))
    }

    /// Every coordinate multiplied by `k`.
    pub open spec fn scaled(self, k: Scalar) -> Vector {
        Vector { x: self.x.product(k), y: self.y.product(k), z: self.z.product(k) }
    }

    /// Every coordinate divided by `k`.
    pub open spec fn divided(self, k: Scalar) -> Vector
        recommends
            k.raw != 0,
    {
        Vector { x: self.x.ratio(k), y: self.y.ratio(k), z: self.z.ratio(k) }
    }

    /// The length: the square root of the dot product with itself.
    pub open spec fn length(self) -> Scalar {
        self.dot(self).sqrt_spec()
    }

    /// The vector of the same direction and length one, for a vector long
    /// enough to have a length other than zero.
    pub open spec fn unit(self) -> Result<Vector, SceneError> {
        if self.length().raw == 0 {
            Err(SceneError::DegenerateGeometry)
        } else {
            Ok(self.divided(self.length()))
        }
    }

    /// The vector of the given coordinates.
    pub fn new(x: Scalar, y: Scalar, z: Scalar) -> (r: Vector)
        ensures
            r == (Vector { x, y, z }),
    {
        Vector { x, y, z }
    }

    /// The origin.
    pub fn null_vec() -> (r: Vector)
        ensures
            r.x.raw == 0,
            r.y.raw == 0,
            r.z.raw == 0,
    {
        Vector::new(Scalar::zero(), Scalar::zero(), Scalar::zero())
    }

    /// The length, rounded down to the nearest millionth.
    pub fn get_len(self) -> (r: Scalar)
        ensures
            r == self.length(),
            r.raw >= 0,
            self.dot(self).raw >= 0,
            is_floor_sqrt((self.dot(self).raw * SCALE) as nat, r.raw as nat),
    {
        proof {
            lemma_square_nonneg(self.x);
            lemma_square_nonneg(self.y);
            lemma_square_nonneg(self.z);
        }
        (self * self).sqrt()
    }

    /// Scales the vector to length one. A vector whose length rounds to zero
    /// has no direction and is refused.
    pub fn normalized(self) -> (r: Result<Vector, SceneError>)
        ensures
            r == self.unit(),
    {
        let len = self.get_len();
        if len.raw == 0 {
            Err(SceneError::DegenerateGeometry)
        } else {
            Ok(self / len)
        }
    }
}

/// `+` on vectors: the sum, coordinate by coordinate.
impl core::ops::Add<Vector> for Vector {
    type Output = Vector;

    fn add(self, other: Vector) -> (r: Vector)
        ensures
            r == self.sum(other),
    {
        Vector { x: self.x + other.x, y: self.y + other.y, z: self.z + other.z }
    }
}

impl vstd::std_specs::ops::AddSpecImpl<Vector> for Vector {
    open spec fn obeys_add_spec() -> bool {
        true
    }

    open spec fn add_req(self, other: Vector) -> bool {
        true
    }

    open spec fn add_spec(self, other: Vector) -> Vector {
        self.sum(other)
    }
}

/// `-` on vectors: the difference, coordinate by coordinate.
impl core::ops::Sub<Vector> for Vector {
    type Output = Vector;

    fn sub(self, other: Vector) -> (r: Vector)
        ensures
            r == self.difference(other),
    {
        Vector { x: self.x - other.x, y: self.y - other.y, z: self.z - other.z }
    }
}

impl vstd::std_specs::ops::SubSpecImpl<Vector> for Vector {
    open spec fn obeys_sub_spec() -> bool {
        true
    }

    open spec fn sub_req(self, other: Vector) -> bool {
        true
    }

    open spec fn sub_spec(self, other: Vector) -> Vector {
        self.difference(other)
    }
}

/// `*` on two vectors: the dot product.
impl core::ops::Mul<Vector> for Vector {
    type Output = Scalar;

    fn mul(self, other: Vector) -> (r: Scalar)
        ensures
            r == self.dot(other),
    {
        self.x * other.x + self.y * other.y + self.z * other.z
    }
}

impl vstd::std_specs::ops::MulSpecImpl<Vector> for Vector {
    open spec fn obeys_mul_spec() -> bool {
        true
    }

    open spec fn mul_req(self, other: Vector) -> bool {
        true
    }

    open spec fn mul_spec(self, other: Vector) -> Scalar {
        self.dot(other)
    }
}

/// `*` on a vector and a scalar: every coordinate multiplied.
impl core::ops::Mul<Scalar> for Vector {
    type Output = Vector;

    fn mul(self, num: Scalar) -> (r: Vector)
        ensures
            r == self.scaled(num),
    {
        Vector { x: self.x * num, y: self.y * num, z: self.z * num }
    }
}

impl vstd::std_specs::ops::MulSpecImpl<Scalar> for Vector {
    open spec fn obeys_mul_spec() -> bool {
        true
    }

    open spec fn mul_req(self, num: Scalar) -> bool {
        true
    }

    open spec fn mul_spec(self, num: Scalar) -> Vector {
        self.scaled(num)
    }
}

/// `/` on a vector and a scalar other than zero: every coordinate divided.
impl core::ops::Div<Scalar> for Vector {
    type Output = Vector;

    fn div(self, num: Scalar) -> (r: Vector)
        ensures
            r == self.divided(num),
    {
        Vector { x: self.x / num, y: self.y / num, z: self.z / num }
    }
}

impl vstd::std_specs::ops::DivSpecImpl<Scalar> for Vector {
    open spec fn obeys_div_spec() -> bool {
        true
    }

    open spec fn div_req(self, num: Scalar) -> bool {
        num.raw != 0
    }

    open spec fn div_spec(self, num: Scalar) -> Vector {
        self.divided(num)
    }
}

} // verus!
