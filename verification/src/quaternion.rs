//! A quaternion of binary32 values, used to represent and compose rotations.

use vstd::prelude::*;

use crate::matrix4::Matrix4;
use crate::scalar::{
    add_bits, cos_bits, div_bits, mul_bits, neg_bits, sin_bits, sqrt_bits, sub_bits, fadd, fcos,
    fdiv, fmul, fneg, fsin, fsqrt, fsub, ONE_BITS, TWO_BITS, ZERO_BITS,
};
use crate::vector3::Vector3;
use crate::vector4::Vector4;

verus! {

/// A quaternion. Each component is the bit pattern of a binary32 value.
///
/// Two encodings of a rotation pass through this type: `from_angle_axis`
/// packs a raw angle and axis into the components unchanged, while
/// `rotate_angle_axis` applies the half-angle scaling first and packs the
/// result through `from_angle_axis`. Only the latter builds a unit rotation
/// quaternion; the former is kept as the raw packing its callers expect.
#[derive(Clone, Copy, Debug)]
pub struct Quaternion {
    pub w: u32,
    pub x: u32,
    pub y: u32,
    pub z: u32,
}

impl Quaternion {
    /// The Hamilton product, each component summed left to right with the
    /// standard signs.
    pub open spec fn spec_mul(self, other: Quaternion) -> Quaternion {
        Quaternion {
            w: sub_bits(
                sub_bits(
                    sub_bits(mul_bits(self.w, other.w), mul_bits(self.x, other.x)),
                    mul_bits(self.y, other.y),
                ),
                mul_bits(self.z, other.z),
            ),
            x: sub_bits(
                add_bits(
                    add_bits(mul_bits(self.w, other.x), mul_bits(other.w, self.x)),
                    mul_bits(self.y, other.z),
                ),
                mul_bits(self.z, other.y),
            ),
            y: sub_bits(
                add_bits(
                    add_bits(mul_bits(self.w, other.y), mul_bits(other.w, self.y)),
                    mul_bits(self.z, other.x),
                ),
                mul_bits(self.x, other.z),
            ),
            z: sub_bits(
                add_bits(
                    add_bits(mul_bits(self.w, other.z), mul_bits(other.w, self.z)),
                    mul_bits(self.x, other.y),
                ),
                mul_bits(self.y, other.x),
            ),
        }
    }

    /// The norm of the vector (x, y, z): the square root of the sum of the
    /// squared components, taken left to right.
    pub open spec fn spec_vector_norm(x: u32, y: u32, z: u32) -> u32 {
        sqrt_bits(add_bits(add_bits(mul_bits(x, x), mul_bits(y, y)), mul_bits(z, z)))
    }

    /// The quaternion packed from a vector: the vector's norm in w and the
    /// components divided by that norm in x, y, z.
    pub open spec fn spec_from_vector(x: u32, y: u32, z: u32) -> Quaternion {
        let theta = Quaternion::spec_vector_norm(x, y, z);
        Quaternion {
            w: theta,
            x: div_bits(x, theta),
            y: div_bits(y, theta),
            z: div_bits(z, theta),
        }
    }

    /// The squared norm of the quaternion: the sum of the four squared
    /// components, taken left to right.
    pub open spec fn spec_square_sum(self) -> u32 {
        add_bits(
            add_bits(
                add_bits(mul_bits(self.w, self.w), mul_bits(self.x, self.x)),
                mul_bits(self.y, self.y),
            ),
            mul_bits(self.z, self.z),
        )
    }

    /// The inverse: the conjugate — w kept, the vector part negated —
    /// divided by the squared norm. For a unit quaternion this equals the
    /// conjugate.
    pub open spec fn spec_inverse(self) -> Quaternion {
        let ss = self.spec_square_sum();
        Quaternion {
            w: div_bits(self.w, ss),
            x: div_bits(neg_bits(self.x), ss),
            y: div_bits(neg_bits(self.y), ss),
            z: div_bits(neg_bits(self.z), ss),
        }
    }

    /// The raw angle-axis packing: the angle in w, the axis components in
    /// x, y, z, with no half-angle scaling.
    pub open spec fn spec_from_angle_axis(theta: u32, v: Vector3) -> Quaternion {
        Quaternion { w: theta, x: v.x, y: v.y, z: v.z }
    }

    /// The rotation quaternion for an angle around an axis: the cosine of
    /// the half angle in w, the normalized axis scaled by the sine of the
    /// half angle in x, y, z.
    pub open spec fn spec_rotate_angle_axis(theta: u32, axis: Vector3) -> Quaternion {
        let half = div_bits(theta, TWO_BITS);
        Quaternion::spec_from_angle_axis(
            cos_bits(half),
            axis.spec_normalize().spec_mul(sin_bits(half)),
        )
    }

    /// Twice the product of two components, the factors multiplied left to
    /// right starting from 2.0.
    pub open spec fn spec_twice(a: u32, b: u32) -> u32 {
        mul_bits(mul_bits(TWO_BITS, a), b)
    }

    /// One minus twice the square of each of two components, subtracted left
    /// to right: a diagonal entry of the rotation matrix.
    pub open spec fn spec_diag(a: u32, b: u32) -> u32 {
        sub_bits(sub_bits(ONE_BITS, mul_bits(TWO_BITS, mul_bits(a, a))), mul_bits(TWO_BITS, mul_bits(b, b)))
    }

    /// The rotation matrix of the quaternion: the standard 3x3 rotation
    /// submatrix embedded in a 4x4 homogeneous matrix whose last row and
    /// column are those of the identity.
    pub open spec fn spec_to_matrix(self) -> Matrix4 {
        Matrix4 {
            x: Vector4 {
                x: Quaternion::spec_diag(self.y, self.z),
                y: sub_bits(Quaternion::spec_twice(self.x, self.y), Quaternion::spec_twice(self.w, self.z)),
                z: add_bits(Quaternion::spec_twice(self.x, self.z), Quaternion::spec_twice(self.w, self.y)),
                w: ZERO_BITS,
            },
            y: Vector4 {
                x: add_bits(Quaternion::spec_twice(self.x, self.y), Quaternion::spec_twice(self.w, self.z)),
                y: Quaternion::spec_diag(self.x, self.z),
                z: sub_bits(Quaternion::spec_twice(self.y, self.z), Quaternion::spec_twice(self.w, self.x)),
                w: ZERO_BITS,
            },
            z: Vector4 {
                x: sub_bits(Quaternion::spec_twice(self.x, self.z), Quaternion::spec_twice(self.w, self.y)),
                y: add_bits(Quaternion::spec_twice(self.y, self.z), Quaternion::spec_twice(self.w, self.x)),
                z: Quaternion::spec_diag(self.x, self.y),
                w: ZERO_BITS,
            },
            w: Vector4 { x: ZERO_BITS, y: ZERO_BITS, z: ZERO_BITS, w: ONE_BITS },
        }
    }

    pub fn new(w: u32, x: u32, y: u32, z: u32) -> (r: Quaternion)
        ensures
            r == (Quaternion { w, x, y, z }),
    {
        Quaternion { w, x, y, z }
    }

    /// Packs a vector: its norm in w, the components divided by that norm
    /// in x, y, z. A zero vector divides by zero and yields non-finite
    /// components; that is the caller's lookout.
    pub fn from_vector(x: u32, y: u32, z: u32) -> (r: Quaternion)
        ensures
            r == Quaternion::spec_from_vector(x, y, z),
    {
        let theta: u32 = fsqrt(fadd(fadd(fmul(x, x), fmul(y, y)), fmul(z, z)));
        Quaternion {
            w: theta,
            x: fdiv(x, theta),
            y: fdiv(y, theta),
            z: fdiv(z, theta),
        }
    }

    /// The identity rotation: 1.0 in w, 0.0 in the vector part.
    pub fn one() -> (r: Quaternion)
        ensures
            r == (Quaternion { w: ONE_BITS, x: ZERO_BITS, y: ZERO_BITS, z: ZERO_BITS }),
    {
        Quaternion { w: ONE_BITS, x: ZERO_BITS, y: ZERO_BITS, z: ZERO_BITS }
    }

    /// The inverse: the conjugate divided by the squared norm.
    pub fn inverse(&self) -> (r: Quaternion)
        ensures
            r == self.spec_inverse(),
    {
        let ss: u32 = fadd(
            fadd(fadd(fmul(self.w, self.w), fmul(self.x, self.x)), fmul(self.y, self.y)),
            fmul(self.z, self.z),
        );
        Quaternion {
            w: fdiv(self.w, ss),
            x: fdiv(fneg(self.x), ss),
            y: fdiv(fneg(self.y), ss),
            z: fdiv(fneg(self.z), ss),
        }
    }

    /// Packs a raw angle and axis into the components unchanged, with no
    /// half-angle scaling.
    pub fn from_angle_axis(theta: u32, v: Vector3) -> (r: Quaternion)
        ensures
            r == Quaternion::spec_from_angle_axis(theta, v),
    {
        Quaternion { w: theta, x: v.x, y: v.y, z: v.z }
    }

    /// The rotation quaternion for an angle around an axis, with the
    /// half-angle scaling applied before packing.
    pub fn rotate_angle_axis(theta: u32, axis: Vector3) -> (r: Quaternion)
        ensures
            r == Quaternion::spec_rotate_angle_axis(theta, axis),
    {
        let half: u32 = fdiv(theta, TWO_BITS);
        Quaternion::from_angle_axis(fcos(half), axis.normalize().mul(fsin(half)))
    }

    /// The Hamilton product.
    pub fn mul(self, other: Quaternion) -> (r: Quaternion)
        ensures
            r == self.spec_mul(other),
    {
        Quaternion {
            w: fsub(
                fsub(fsub(fmul(self.w, other.w), fmul(self.x, other.x)), fmul(self.y, other.y)),
                fmul(self.z, other.z),
            ),
            x: fsub(
                fadd(fadd(fmul(self.w, other.x), fmul(other.w, self.x)), fmul(self.y, other.z)),
                fmul(self.z, other.y),
            ),
            y: fsub(
                fadd(fadd(fmul(self.w, other.y), fmul(other.w, self.y)), fmul(self.z, other.x)),
                fmul(self.x, other.z),
            ),
            z: fsub(
                fadd(fadd(fmul(self.w, other.z), fmul(other.w, self.z)), fmul(self.x, other.y)),
                fmul(self.y, other.x),
            ),
        }
    }

    /// The rotation matrix of the quaternion.
    pub fn to_matrix(&self) -> (r: Matrix4)
        ensures
            r == self.spec_to_matrix(),
    {
        let two_xy: u32 = fmul(fmul(TWO_BITS, self.x), self.y);
        let two_xz: u32 = fmul(fmul(TWO_BITS, self.x), self.z);
        let two_yz: u32 = fmul(fmul(TWO_BITS, self.y), self.z);
        let two_wx: u32 = fmul(fmul(TWO_BITS, self.w), self.x);
        let two_wy: u32 = fmul(fmul(TWO_BITS, self.w), self.y);
        let two_wz: u32 = fmul(fmul(TWO_BITS, self.w), self.z);
        Matrix4 {
            x: Vector4 {
                x: fsub(fsub(ONE_BITS, fmul(TWO_BITS, fmul(self.y, self.y))), fmul(TWO_BITS, fmul(self.z, self.z))),
                y: fsub(two_xy, two_wz),
                z: fadd(two_xz, two_wy),
                w: ZERO_BITS,
            },
            y: Vector4 {
                x: fadd(two_xy, two_wz),
                y: fsub(fsub(ONE_BITS, fmul(TWO_BITS, fmul(self.x, self.x))), fmul(TWO_BITS, fmul(self.z, self.z))),
                z: fsub(two_yz, two_wx),
                w: ZERO_BITS,
            },
            z: Vector4 {
                x: fsub(two_xz, two_wy),
                y: fadd(two_yz, two_wx),
                z: fsub(fsub(ONE_BITS, fmul(TWO_BITS, fmul(self.x, self.x))), fmul(TWO_BITS, fmul(self.y, self.y))),
                w: ZERO_BITS,
            },
            w: Vector4 { x: ZERO_BITS, y: ZERO_BITS, z: ZERO_BITS, w: ONE_BITS },
        }
    }
}

} // verus!
