//! Immutable vector values for linear algebra, with single-precision
//! components carried as bit patterns.

use vstd::prelude::*;
use crate::fbits::{
    add_bits, sub_bits, mul_bits, div_bits, sqrt_bits, neg_bits,
    float_add, float_sub, float_mul, float_div, float_sqrt, float_neg,
    spec_float_min, spec_float_max, float_min, float_max, spec_float_le,
    BITS_ZERO, BITS_ONE,
};

verus! {

#[derive(Clone, Copy, Debug, PartialEq, Eq, Structural)]
pub struct Vector2 {
    pub x: u32,
    pub y: u32,
}

#[derive(Clone, Copy, Debug, PartialEq, Eq, Structural)]
pub struct Vector3 {
    pub x: u32,
    pub y: u32,
    pub z: u32,
}

#[derive(Clone, Copy, Debug, PartialEq, Eq, Structural)]
pub struct Vector4 {
    pub x: u32,
    pub y: u32,
    pub z: u32,
    pub w: u32,
}

pub open spec fn spec_vec3_add(a: Vector3, b: Vector3) -> Vector3 {
    Vector3 { x: add_bits(a.x, b.x), y: add_bits(a.y, b.y), z: add_bits(a.z, b.z) }
}

pub open spec fn spec_vec3_sub(a: Vector3, b: Vector3) -> Vector3 {
    Vector3 { x: sub_bits(a.x, b.x), y: sub_bits(a.y, b.y), z: sub_bits(a.z, b.z) }
}

/// Componentwise product with one scalar pattern.
pub open spec fn spec_vec3_scale(a: Vector3, s: u32) -> Vector3 {
    Vector3 { x: mul_bits(a.x, s), y: mul_bits(a.y, s), z: mul_bits(a.z, s) }
}

/// Componentwise quotient by one scalar pattern.
pub open spec fn spec_vec3_div(a: Vector3, s: u32) -> Vector3 {
    Vector3 { x: div_bits(a.x, s), y: div_bits(a.y, s), z: div_bits(a.z, s) }
}

pub open spec fn spec_vec3_neg(a: Vector3) -> Vector3 {
    Vector3 { x: neg_bits(a.x), y: neg_bits(a.y), z: neg_bits(a.z) }
}

pub open spec fn spec_vec3_cross(a: Vector3, b: Vector3) -> Vector3 {
    Vector3 {
        x: sub_bits(mul_bits(a.y, b.z), mul_bits(a.z, b.y)),
        y: sub_bits(mul_bits(a.z, b.x), mul_bits(a.x, b.z)),
        z: sub_bits(mul_bits(a.x, b.y), mul_bits(a.y, b.x)),
    }
}

/// Length of the encoded vector: the square root of the left-to-right sum
/// x*x + y*y + z*z.
pub open spec fn spec_vec3_magnitude(a: Vector3) -> u32 {
    sqrt_bits(add_bits(add_bits(mul_bits(a.x, a.x), mul_bits(a.y, a.y)), mul_bits(a.z, a.z)))
}

/// The vector divided by its own magnitude.
pub open spec fn spec_vec3_normalised(a: Vector3) -> Vector3 {
    spec_vec3_div(a, spec_vec3_magnitude(a))
}

/// Every component of the first vector orders at or below the second's.
pub open spec fn spec_vec3_le(a: Vector3, b: Vector3) -> bool {
    spec_float_le(a.x, b.x) && spec_float_le(a.y, b.y) && spec_float_le(a.z, b.z)
}

/// Componentwise minimum under the total order on patterns.
pub open spec fn spec_vec3_min(a: Vector3, b: Vector3) -> Vector3 {
    Vector3 {
        x: spec_float_min(a.x, b.x),
        y: spec_float_min(a.y, b.y),
        z: spec_float_min(a.z, b.z),
    }
}

/// Componentwise maximum under the total order on patterns.
pub open spec fn spec_vec3_max(a: Vector3, b: Vector3) -> Vector3 {
    Vector3 {
        x: spec_float_max(a.x, b.x),
        y: spec_float_max(a.y, b.y),
        z: spec_float_max(a.z, b.z),
    }
}

/// The vector as a homogeneous point with a zero last component.
pub open spec fn spec_vec3_extend(a: Vector3) -> Vector4 {
    Vector4 { x: a.x, y: a.y, z: a.z, w: BITS_ZERO }
}

impl Vector3 {
    /// The zero vector.
    pub fn zero() -> (r: Vector3)
        ensures
            r == (Vector3 { x: BITS_ZERO, y: BITS_ZERO, z: BITS_ZERO }),
    {
        Vector3 { x: BITS_ZERO, y: BITS_ZERO, z: BITS_ZERO }
    }

    /// The unit vector along the canonical forward axis.
    pub fn unit_x() -> (r: Vector3)
        ensures
            r == (Vector3 { x: BITS_ONE, y: BITS_ZERO, z: BITS_ZERO }),
    {
        Vector3 { x: BITS_ONE, y: BITS_ZERO, z: BITS_ZERO }
    }

    /// The unit vector along the canonical up axis.
    pub fn unit_y() -> (r: Vector3)
        ensures
            r == (Vector3 { x: BITS_ZERO, y: BITS_ONE, z: BITS_ZERO }),
    {
        Vector3 { x: BITS_ZERO, y: BITS_ONE, z: BITS_ZERO }
    }

    pub fn add(&self, other: &Vector3) -> (r: Vector3)
        ensures
            r == spec_vec3_add(*self, *other),
    {
        Vector3 {
            x: float_add(self.x, other.x),
            y: float_add(self.y, other.y),
            z: float_add(self.z, other.z),
        }
    }

    pub fn sub(&self, other: &Vector3) -> (r: Vector3)
        ensures
            r == spec_vec3_sub(*self, *other),
    {
        Vector3 {
            x: float_sub(self.x, other.x),
            y: float_sub(self.y, other.y),
            z: float_sub(self.z, other.z),
        }
    }

    pub fn scale(&self, s: u32) -> (r: Vector3)
        ensures
            r == spec_vec3_scale(*self, s),
    {
        Vector3 { x: float_mul(self.x, s), y: float_mul(self.y, s), z: float_mul(self.z, s) }
    }

    pub fn div(&self, s: u32) -> (r: Vector3)
        ensures
            r == spec_vec3_div(*self, s),
    {
        Vector3 { x: float_div(self.x, s), y: float_div(self.y, s), z: float_div(self.z, s) }
    }

    pub fn neg(&self) -> (r: Vector3)
        ensures
            r == spec_vec3_neg(*self),
    {
        Vector3 { x: float_neg(self.x), y: float_neg(self.y), z: float_neg(self.z) }
    }

    pub fn cross(&self, other: &Vector3) -> (r: Vector3)
        ensures
            r == spec_vec3_cross(*self, *other),
    {
        Vector3 {
            x: float_sub(float_mul(self.y, other.z), float_mul(self.z, other.y)),
            y: float_sub(float_mul(self.z, other.x), float_mul(self.x, other.z)),
            z: float_sub(float_mul(self.x, other.y), float_mul(self.y, other.x)),
        }
    }

    pub fn magnitude(&self) -> (r: u32)
        ensures
            r == spec_vec3_magnitude(*self),
    {
        float_sqrt(float_add(
            float_add(float_mul(self.x, self.x), float_mul(self.y, self.y)),
            float_mul(self.z, self.z),
        ))
    }

    pub fn normalised(&self) -> (r: Vector3)
        ensures
            r == spec_vec3_normalised(*self),
    {
        let m = self.magnitude();
        self.div(m)
    }

    pub fn min(&self, other: &Vector3) -> (r: Vector3)
        ensures
            r == spec_vec3_min(*self, *other),
    {
        Vector3 {
            x: float_min(self.x, other.x),
            y: float_min(self.y, other.y),
            z: float_min(self.z, other.z),
        }
    }

    pub fn max(&self, other: &Vector3) -> (r: Vector3)
        ensures
            r == spec_vec3_max(*self, *other),
    {
        Vector3 {
            x: float_max(self.x, other.x),
            y: float_max(self.y, other.y),
            z: float_max(self.z, other.z),
        }
    }

    pub fn extend(&self) -> (r: Vector4)
        ensures
            r == spec_vec3_extend(*self),
    {
        Vector4 { x: self.x, y: self.y, z: self.z, w: BITS_ZERO }
    }
}

impl Vector4 {
    /// The homogeneous unit vector along the last axis.
    pub fn unit_w() -> (r: Vector4)
        ensures
            r == (Vector4 { x: BITS_ZERO, y: BITS_ZERO, z: BITS_ZERO, w: BITS_ONE }),
    {
        Vector4 { x: BITS_ZERO, y: BITS_ZERO, z: BITS_ZERO, w: BITS_ONE }
    }
}

} // verus!
