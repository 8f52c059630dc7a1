//! A 3-component vector of binary32 values, each held as its bit pattern.

use vstd::prelude::*;

use crate::scalar::{
    add_bits, approx_eq_bits, div_bits, mul_bits, neg_bits, sqrt_bits, sub_bits, fadd,
    fapprox_eq, fdiv, fmul, fneg, fsqrt, fsub, ONE_BITS, ZERO_BITS,
};
use crate::vector4::Vector4;

verus! {

/// A 3-component vector. Each component is the bit pattern of a binary32
/// value, so the raw component layout is open to callers that bind the
/// vector to a rendering backend.
#[derive(Clone, Copy, Debug)]
pub struct Vector3 {
    pub x: u32,
    pub y: u32,
    pub z: u32,
}

impl Vector3 {
    /// The component-wise sum.
    pub open spec fn spec_add(self, other: Vector3) -> Vector3 {
        Vector3 {
            x: add_bits(self.x, other.x),
            y: add_bits(self.y, other.y),
            z: add_bits(self.z, other.z),
        }
    }

    /// The component-wise difference.
    pub open spec fn spec_sub(self, other: Vector3) -> Vector3 {
        Vector3 {
            x: sub_bits(self.x, other.x),
            y: sub_bits(self.y, other.y),
            z: sub_bits(self.z, other.z),
        }
    }

    /// Every component multiplied by the scalar (the scalar is the left
    /// factor of each product).
    pub open spec fn spec_mul(self, s: u32) -> Vector3 {
        Vector3 {
            x: mul_bits(s, self.x),
            y: mul_bits(s, self.y),
            z: mul_bits(s, self.z),
        }
    }

    /// Every component divided by the scalar.
    pub open spec fn spec_div(self, s: u32) -> Vector3 {
        Vector3 {
            x: div_bits(self.x, s),
            y: div_bits(self.y, s),
            z: div_bits(self.z, s),
        }
    }

    /// Every component negated.
    pub open spec fn spec_neg(self) -> Vector3 {
        Vector3 { x: neg_bits(self.x), y: neg_bits(self.y), z: neg_bits(self.z) }
    }

    /// The Euclidean norm: the square root of the sum of the squared
    /// components, the squares and sums taken left to right.
    pub open spec fn spec_abs(self) -> u32 {
        sqrt_bits(
            add_bits(
                add_bits(mul_bits(self.x, self.x), mul_bits(self.y, self.y)),
                mul_bits(self.z, self.z),
            ),
        )
    }

    /// The vector divided by its Euclidean norm. A zero vector divides by
    /// zero and yields non-finite components; that is the caller's lookout.
    pub open spec fn spec_normalize(self) -> Vector3 {
        self.spec_div(self.spec_abs())
    }

    /// The dot product: the products of matching components, summed left to
    /// right.
    pub open spec fn spec_dot(a: Vector3, b: Vector3) -> u32 {
        add_bits(add_bits(mul_bits(a.x, b.x), mul_bits(a.y, b.y)), mul_bits(a.z, b.z))
    }

    /// The right-handed cross product.
    pub open spec fn spec_cross(a: Vector3, b: Vector3) -> Vector3 {
        Vector3 {
            x: sub_bits(mul_bits(a.y, b.z), mul_bits(a.z, b.y)),
            y: sub_bits(mul_bits(a.z, b.x), mul_bits(a.x, b.z)),
            z: sub_bits(mul_bits(a.x, b.y), mul_bits(a.y, b.x)),
        }
    }

    /// The vector extended to homogeneous coordinates: the fourth component
    /// is 1.0, the conventional encoding of a point.
    pub open spec fn spec_extend(self) -> Vector4 {
        Vector4 { x: self.x, y: self.y, z: self.z, w: ONE_BITS }
    }

    /// The component at a position: 0 is x, 1 is y, 2 is z.
    pub open spec fn spec_index(self, i: int) -> u32 {
        if i == 0 {
            self.x
        } else if i == 1 {
            self.y
        } else {
            self.z
        }
    }

    /// Component-wise approximate equality: every pair of components differs
    /// by less than the tolerance.
    pub open spec fn spec_approx_eq(self, other: Vector3) -> bool {
        approx_eq_bits(self.x, other.x) && approx_eq_bits(self.y, other.y) && approx_eq_bits(
            self.z,
            other.z,
        )
    }

    pub fn new(x: u32, y: u32, z: u32) -> (r: Vector3)
        ensures
            r == (Vector3 { x, y, z }),
    {
        Vector3 { x, y, z }
    }

    pub fn zero() -> (r: Vector3)
        ensures
            r == (Vector3 { x: ZERO_BITS, y: ZERO_BITS, z: ZERO_BITS }),
    {
        Vector3 { x: ZERO_BITS, y: ZERO_BITS, z: ZERO_BITS }
    }

    pub fn add(self, other: Vector3) -> (r: Vector3)
        ensures
            r == self.spec_add(other),
    {
        Vector3 {
            x: fadd(self.x, other.x),
            y: fadd(self.y, other.y),
            z: fadd(self.z, other.z),
        }
    }

    pub fn sub(self, other: Vector3) -> (r: Vector3)
        ensures
            r == self.spec_sub(other),
    {
        Vector3 {
            x: fsub(self.x, other.x),
            y: fsub(self.y, other.y),
            z: fsub(self.z, other.z),
        }
    }

    /// The vector scaled by a scalar; the same whether the scalar was
    /// written on the left or on the right of the vector.
    pub fn mul(self, s: u32) -> (r: Vector3)
        ensures
            r == self.spec_mul(s),
    {
        Vector3 { x: fmul(s, self.x), y: fmul(s, self.y), z: fmul(s, self.z) }
    }

    pub fn div(self, s: u32) -> (r: Vector3)
        ensures
            r == self.spec_div(s),
    {
        Vector3 { x: fdiv(self.x, s), y: fdiv(self.y, s), z: fdiv(self.z, s) }
    }

    pub fn neg(self) -> (r: Vector3)
        ensures
            r == self.spec_neg(),
    {
        Vector3 { x: fneg(self.x), y: fneg(self.y), z: fneg(self.z) }
    }

    /// The Euclidean norm of the vector.
    pub fn abs(&self) -> (r: u32)
        ensures
            r == self.spec_abs(),
    {
        fsqrt(fadd(fadd(fmul(self.x, self.x), fmul(self.y, self.y)), fmul(self.z, self.z)))
    }

    /// The vector divided by its Euclidean norm.
    pub fn normalize(&self) -> (r: Vector3)
        ensures
            r == self.spec_normalize(),
    {
        let len: u32 = self.abs();
        self.div(len)
    }

    pub fn dot(a: Vector3, b: Vector3) -> (r: u32)
        ensures
            r == Vector3::spec_dot(a, b),
    {
        fadd(fadd(fmul(a.x, b.x), fmul(a.y, b.y)), fmul(a.z, b.z))
    }

    pub fn cross(a: Vector3, b: Vector3) -> (r: Vector3)
        ensures
            r == Vector3::spec_cross(a, b),
    {
        Vector3 {
            x: fsub(fmul(a.y, b.z), fmul(a.z, b.y)),
            y: fsub(fmul(a.z, b.x), fmul(a.x, b.z)),
            z: fsub(fmul(a.x, b.y), fmul(a.y, b.x)),
        }
    }

    /// The vector extended to homogeneous coordinates: the fourth component
    /// is 1.0, the conventional encoding of a point.
    pub fn extend(&self) -> (r: Vector4)
        ensures
            r == self.spec_extend(),
    {
        Vector4 { x: self.x, y: self.y, z: self.z, w: ONE_BITS }
    }

    /// The component at a position: 0 is x, 1 is y, 2 is z. A position out
    /// of that range is a contract violation; an unverified caller that
    /// breaks it finds the call aborts rather than reading anything.
    pub fn index(&self, i: u8) -> (r: u32)
        requires
            i < 3,
        ensures
            r == self.spec_index(i as int),
    {
        match i {
            0 => self.x,
            1 => self.y,
            2 => self.z,
            _ => unreached(),
        }
    }

    /// Replaces the component at a position: 0 is x, 1 is y, 2 is z. The
    /// positional counterpart of writing to a named field.
    pub fn set(&mut self, i: u8, v: u32)
        requires
            i < 3,
        ensures
            final(self).spec_index(i as int) == v,
            forall|j: int| 0 <= j < 3 && j != i as int ==> final(self).spec_index(j)
                == old(self).spec_index(j),
    {
        match i {
            0 => self.x = v,
            1 => self.y = v,
            2 => self.z = v,
            _ => unreached(),
        }
    }

    /// Approximate equality: every pair of matching components differs by
    /// less than the tolerance.
    pub fn approx_eq(&self, other: &Vector3) -> (r: bool)
        ensures
            r == self.spec_approx_eq(*other),
    {
        fapprox_eq(self.x, other.x) && fapprox_eq(self.y, other.y) && fapprox_eq(self.z, other.z)
    }
}

/// Extending a vector to homogeneous coordinates and truncating the result
/// gives the vector back, bit for bit: truncating drops exactly the
/// component that extending appends.
pub proof fn lemma_truncate_extend(v: Vector3)
    ensures
        v.spec_extend().spec_truncate() == v,
{
}

} // verus!
