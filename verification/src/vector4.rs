//! A 4-component vector of binary32 values, each held as its bit pattern.

use vstd::prelude::*;

use crate::scalar::{
    add_bits, approx_eq_bits, div_bits, mul_bits, sub_bits, fadd, fapprox_eq, fdiv, fmul, fsub,
    ONE_BITS, ZERO_BITS,
};
use crate::vector3::Vector3;

verus! {

/// A 4-component vector in homogeneous coordinates. Each component is the
/// bit pattern of a binary32 value, so the raw component layout is open to
/// callers that bind the vector to a rendering backend.
#[derive(Clone, Copy, Debug)]
pub struct Vector4 {
    pub x: u32,
    pub y: u32,
    pub z: u32,
    pub w: u32,
}

impl Vector4 {
    /// The component-wise sum.
    pub open spec fn spec_add(self, other: Vector4) -> Vector4 {
        Vector4 {
            x: add_bits(self.x, other.x),
            y: add_bits(self.y, other.y),
            z: add_bits(self.z, other.z),
            w: add_bits(self.w, other.w),
        }
    }

    /// The component-wise difference.
    pub open spec fn spec_sub(self, other: Vector4) -> Vector4 {
        Vector4 {
            x: sub_bits(self.x, other.x),
            y: sub_bits(self.y, other.y),
            z: sub_bits(self.z, other.z),
            w: sub_bits(self.w, other.w),
        }
    }

    /// Every component multiplied by the scalar (the scalar is the left
    /// factor of each product).
    pub open spec fn spec_mul(self, s: u32) -> Vector4 {
        Vector4 {
            x: mul_bits(s, self.x),
            y: mul_bits(s, self.y),
            z: mul_bits(s, self.z),
            w: mul_bits(s, self.w),
        }
    }

    /// Every component divided by the scalar.
    pub open spec fn spec_div(self, s: u32) -> Vector4 {
        Vector4 {
            x: div_bits(self.x, s),
            y: div_bits(self.y, s),
            z: div_bits(self.z, s),
            w: div_bits(self.w, s),
        }
    }

    /// The dot product over all four components: the products of matching
    /// components, summed left to right.
    pub open spec fn spec_dot(a: Vector4, b: Vector4) -> u32 {
        add_bits(
            add_bits(add_bits(mul_bits(a.x, b.x), mul_bits(a.y, b.y)), mul_bits(a.z, b.z)),
            mul_bits(a.w, b.w),
        )
    }

    /// The first three components, the w component dropped.
    pub open spec fn spec_truncate(self) -> Vector3 {
        Vector3 { x: self.x, y: self.y, z: self.z }
    }

    /// The component at a position: 0 is x, 1 is y, 2 is z, 3 is w.
    pub open spec fn spec_index(self, i: int) -> u32 {
        if i == 0 {
            self.x
        } else if i == 1 {
            self.y
        } else if i == 2 {
            self.z
        } else {
            self.w
        }
    }

    /// Component-wise approximate equality: every pair of components differs
    /// by less than the tolerance.
    pub open spec fn spec_approx_eq(self, other: Vector4) -> bool {
        approx_eq_bits(self.x, other.x) && approx_eq_bits(self.y, other.y) && approx_eq_bits(
            self.z,
            other.z,
        ) && approx_eq_bits(self.w, other.w)
    }

    pub fn new(x: u32, y: u32, z: u32, w: u32) -> (r: Vector4)
        ensures
            r == (Vector4 { x, y, z, w }),
    {
        Vector4 { x, y, z, w }
    }

    pub fn zero() -> (r: Vector4)
        ensures
            r == (Vector4 { x: ZERO_BITS, y: ZERO_BITS, z: ZERO_BITS, w: ZERO_BITS }),
    {
        Vector4 { x: ZERO_BITS, y: ZERO_BITS, z: ZERO_BITS, w: ZERO_BITS }
    }

    /// The x basis vector: 1.0 in x, 0.0 elsewhere.
    pub fn unit_x() -> (r: Vector4)
        ensures
            r == (Vector4 { x: ONE_BITS, y: ZERO_BITS, z: ZERO_BITS, w: ZERO_BITS }),
    {
        Vector4 { x: ONE_BITS, y: ZERO_BITS, z: ZERO_BITS, w: ZERO_BITS }
    }

    /// The y basis vector: 1.0 in y, 0.0 elsewhere.
    pub fn unit_y() -> (r: Vector4)
        ensures
            r == (Vector4 { x: ZERO_BITS, y: ONE_BITS, z: ZERO_BITS, w: ZERO_BITS }),
    {
        Vector4 { x: ZERO_BITS, y: ONE_BITS, z: ZERO_BITS, w: ZERO_BITS }
    }

    /// The z basis vector: 1.0 in z, 0.0 elsewhere.
    pub fn unit_z() -> (r: Vector4)
        ensures
            r == (Vector4 { x: ZERO_BITS, y: ZERO_BITS, z: ONE_BITS, w: ZERO_BITS }),
    {
        Vector4 { x: ZERO_BITS, y: ZERO_BITS, z: ONE_BITS, w: ZERO_BITS }
    }

    /// The w basis vector: 1.0 in w, 0.0 elsewhere.
    pub fn unit_w() -> (r: Vector4)
        ensures
            r == (Vector4 { x: ZERO_BITS, y: ZERO_BITS, z: ZERO_BITS, w: ONE_BITS }),
    {
        Vector4 { x: ZERO_BITS, y: ZERO_BITS, z: ZERO_BITS, w: ONE_BITS }
    }

    pub fn add(self, other: Vector4) -> (r: Vector4)
        ensures
            r == self.spec_add(other),
    {
        Vector4 {
            x: fadd(self.x, other.x),
            y: fadd(self.y, other.y),
            z: fadd(self.z, other.z),
            w: fadd(self.w, other.w),
        }
    }

    pub fn sub(self, other: Vector4) -> (r: Vector4)
        ensures
            r == self.spec_sub(other),
    {
        Vector4 {
            x: fsub(self.x, other.x),
            y: fsub(self.y, other.y),
            z: fsub(self.z, other.z),
            w: fsub(self.w, other.w),
        }
    }

    /// The vector scaled by a scalar; the same whether the scalar was
    /// written on the left or on the right of the vector.
    pub fn mul(self, s: u32) -> (r: Vector4)
        ensures
            r == self.spec_mul(s),
    {
        Vector4 {
            x: fmul(s, self.x),
            y: fmul(s, self.y),
            z: fmul(s, self.z),
            w: fmul(s, self.w),
        }
    }

    pub fn div(self, s: u32) -> (r: Vector4)
        ensures
            r == self.spec_div(s),
    {
        Vector4 {
            x: fdiv(self.x, s),
            y: fdiv(self.y, s),
            z: fdiv(self.z, s),
            w: fdiv(self.w, s),
        }
    }

    pub fn dot(a: Vector4, b: Vector4) -> (r: u32)
        ensures
            r == Vector4::spec_dot(a, b),
    {
        fadd(
            fadd(fadd(fmul(a.x, b.x), fmul(a.y, b.y)), fmul(a.z, b.z)),
            fmul(a.w, b.w),
        )
    }

    /// The first three components, the w component dropped: the inverse of
    /// extending a 3-component vector to homogeneous coordinates.
    pub fn truncate(&self) -> (r: Vector3)
        ensures
            r == self.spec_truncate(),
    {
        Vector3 { x: self.x, y: self.y, z: self.z }
    }

    /// The component at a position: 0 is x, 1 is y, 2 is z, 3 is w. A
    /// position out of that range is a contract violation; an unverified
    /// caller that breaks it finds the call aborts rather than reading
    /// anything.
    pub fn index(&self, i: u8) -> (r: u32)
        requires
            i < 4,
        ensures
            r == self.spec_index(i as int),
    {
        match i {
            0 => self.x,
            1 => self.y,
            2 => self.z,
            3 => self.w,
            _ => unreached(),
        }
    }

    /// Replaces the component at a position: 0 is x, 1 is y, 2 is z, 3 is w.
    /// The positional counterpart of writing to a named field.
    pub fn set(&mut self, i: u8, v: u32)
        requires
            i < 4,
        ensures
            final(self).spec_index(i as int) == v,
            forall|j: int| 0 <= j < 4 && j != i as int ==> final(self).spec_index(j)
                == old(self).spec_index(j),
    {
        match i {
            0 => self.x = v,
            1 => self.y = v,
            2 => self.z = v,
            3 => self.w = v,
            _ => unreached(),
        }
    }

    /// Approximate equality: every pair of matching components differs by
    /// less than the tolerance.
    pub fn approx_eq(&self, other: &Vector4) -> (r: bool)
        ensures
            r == self.spec_approx_eq(*other),
    {
        fapprox_eq(self.x, other.x) && fapprox_eq(self.y, other.y) && fapprox_eq(self.z, other.z)
            && fapprox_eq(self.w, other.w)
    }
}

} // verus!
