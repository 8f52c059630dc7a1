//! A 4x4 matrix stored as four row vectors, in homogeneous coordinates.

use vstd::prelude::*;

use crate::scalar::{add_bits, mul_bits, fadd, fmul, ONE_BITS, ZERO_BITS};
use crate::vector4::Vector4;

verus! {

/// A 4x4 matrix of binary32 bit patterns, stored row-major: field `x` is
/// row 0 of the mathematical matrix, `y` row 1, `z` row 2, `w` row 3. The
/// rows are open to callers that bind the matrix to a rendering backend.
#[derive(Clone, Copy, Debug)]
pub struct Matrix4 {
    pub x: Vector4,
    pub y: Vector4,
    pub z: Vector4,
    pub w: Vector4,
}

impl Matrix4 {
    /// The row at a position: 0 is x, 1 is y, 2 is z, 3 is w.
    pub open spec fn spec_index(self, i: int) -> Vector4 {
        if i == 0 {
            self.x
        } else if i == 1 {
            self.y
        } else if i == 2 {
            self.z
        } else {
            self.w
        }
    }

    /// The row-wise sum.
    pub open spec fn spec_add(self, other: Matrix4) -> Matrix4 {
        Matrix4 {
            x: self.x.spec_add(other.x),
            y: self.y.spec_add(other.y),
            z: self.z.spec_add(other.z),
            w: self.w.spec_add(other.w),
        }
    }

    /// The row-wise difference.
    pub open spec fn spec_sub(self, other: Matrix4) -> Matrix4 {
        Matrix4 {
            x: self.x.spec_sub(other.x),
            y: self.y.spec_sub(other.y),
            z: self.z.spec_sub(other.z),
            w: self.w.spec_sub(other.w),
        }
    }

    /// One entry of the matrix product: the products of the entries of row
    /// `i` of `self` with the entries of column `j` of `other`, folded into
    /// a sum that starts from 0.0 and adds the four products left to right.
    pub open spec fn spec_mul_entry(self, other: Matrix4, i: int, j: int) -> u32 {
        add_bits(
            add_bits(
                add_bits(
                    add_bits(
                        ZERO_BITS,
                        mul_bits(self.spec_index(i).spec_index(0), other.spec_index(0).spec_index(j)),
                    ),
                    mul_bits(self.spec_index(i).spec_index(1), other.spec_index(1).spec_index(j)),
                ),
                mul_bits(self.spec_index(i).spec_index(2), other.spec_index(2).spec_index(j)),
            ),
            mul_bits(self.spec_index(i).spec_index(3), other.spec_index(3).spec_index(j)),
        )
    }

    /// Row `i` of the matrix product.
    pub open spec fn spec_mul_row(self, other: Matrix4, i: int) -> Vector4 {
        Vector4 {
            x: self.spec_mul_entry(other, i, 0),
            y: self.spec_mul_entry(other, i, 1),
            z: self.spec_mul_entry(other, i, 2),
            w: self.spec_mul_entry(other, i, 3),
        }
    }

    /// The matrix product: entry (i, j) is the sum over k of
    /// `self[i][k] * other[k][j]`, with no shortcut for any operand.
    pub open spec fn spec_mul(self, other: Matrix4) -> Matrix4 {
        Matrix4 {
            x: self.spec_mul_row(other, 0),
            y: self.spec_mul_row(other, 1),
            z: self.spec_mul_row(other, 2),
            w: self.spec_mul_row(other, 3),
        }
    }

    /// The matrix applied to a vector: each output component is the dot
    /// product of the matching row with the vector.
    pub open spec fn spec_mul_vector(self, v: Vector4) -> Vector4 {
        Vector4 {
            x: Vector4::spec_dot(self.x, v),
            y: Vector4::spec_dot(self.y, v),
            z: Vector4::spec_dot(self.z, v),
            w: Vector4::spec_dot(self.w, v),
        }
    }

    /// Every row scaled by the scalar.
    pub open spec fn spec_mul_scalar(self, s: u32) -> Matrix4 {
        Matrix4 {
            x: self.x.spec_mul(s),
            y: self.y.spec_mul(s),
            z: self.z.spec_mul(s),
            w: self.w.spec_mul(s),
        }
    }

    /// Every row divided by the scalar.
    pub open spec fn spec_div(self, s: u32) -> Matrix4 {
        Matrix4 {
            x: self.x.spec_div(s),
            y: self.y.spec_div(s),
            z: self.z.spec_div(s),
            w: self.w.spec_div(s),
        }
    }

    /// The transpose: entry (i, j) of the result is entry (j, i) of `self`.
    pub open spec fn spec_transpose(self) -> Matrix4 {
        Matrix4 {
            x: Vector4 { x: self.x.x, y: self.y.x, z: self.z.x, w: self.w.x },
            y: Vector4 { x: self.x.y, y: self.y.y, z: self.z.y, w: self.w.y },
            z: Vector4 { x: self.x.z, y: self.y.z, z: self.z.z, w: self.w.z },
            w: Vector4 { x: self.x.w, y: self.y.w, z: self.z.w, w: self.w.w },
        }
    }

    /// Row-wise approximate equality of two matrices.
    pub open spec fn spec_approx_eq(self, other: Matrix4) -> bool {
        self.x.spec_approx_eq(other.x) && self.y.spec_approx_eq(other.y)
            && self.z.spec_approx_eq(other.z) && self.w.spec_approx_eq(other.w)
    }

    /// The matrix with every entry 0.0.
    pub fn zero() -> (r: Matrix4)
        ensures
            r == (Matrix4 {
                x: Vector4 { x: ZERO_BITS, y: ZERO_BITS, z: ZERO_BITS, w: ZERO_BITS },
                y: Vector4 { x: ZERO_BITS, y: ZERO_BITS, z: ZERO_BITS, w: ZERO_BITS },
                z: Vector4 { x: ZERO_BITS, y: ZERO_BITS, z: ZERO_BITS, w: ZERO_BITS },
                w: Vector4 { x: ZERO_BITS, y: ZERO_BITS, z: ZERO_BITS, w: ZERO_BITS },
            }),
    {
        Matrix4 {
            x: Vector4::zero(),
            y: Vector4::zero(),
            z: Vector4::zero(),
            w: Vector4::zero(),
        }
    }

    /// The identity matrix: the four basis vectors as rows.
    pub fn one() -> (r: Matrix4)
        ensures
            r == (Matrix4 {
                x: Vector4 { x: ONE_BITS, y: ZERO_BITS, z: ZERO_BITS, w: ZERO_BITS },
                y: Vector4 { x: ZERO_BITS, y: ONE_BITS, z: ZERO_BITS, w: ZERO_BITS },
                z: Vector4 { x: ZERO_BITS, y: ZERO_BITS, z: ONE_BITS, w: ZERO_BITS },
                w: Vector4 { x: ZERO_BITS, y: ZERO_BITS, z: ZERO_BITS, w: ONE_BITS },
            }),
    {
        Matrix4 {
            x: Vector4::unit_x(),
            y: Vector4::unit_y(),
            z: Vector4::unit_z(),
            w: Vector4::unit_w(),
        }
    }

    /// A matrix from its sixteen entries, row by row.
    #[allow(clippy::too_many_arguments)]
    pub fn new(
        a00: u32, a01: u32, a02: u32, a03: u32,
        a10: u32, a11: u32, a12: u32, a13: u32,
        a20: u32, a21: u32, a22: u32, a23: u32,
        a30: u32, a31: u32, a32: u32, a33: u32,
    ) -> (r: Matrix4)
        ensures
            r == (Matrix4 {
                x: Vector4 { x: a00, y: a01, z: a02, w: a03 },
                y: Vector4 { x: a10, y: a11, z: a12, w: a13 },
                z: Vector4 { x: a20, y: a21, z: a22, w: a23 },
                w: Vector4 { x: a30, y: a31, z: a32, w: a33 },
            }),
    {
        Matrix4 {
            x: Vector4 { x: a00, y: a01, z: a02, w: a03 },
            y: Vector4 { x: a10, y: a11, z: a12, w: a13 },
            z: Vector4 { x: a20, y: a21, z: a22, w: a23 },
            w: Vector4 { x: a30, y: a31, z: a32, w: a33 },
        }
    }

    /// The translation matrix: the identity with the offsets in the last
    /// column, meant to multiply a point whose fourth component is 1.0.
    pub fn translate(x: u32, y: u32, z: u32) -> (r: Matrix4)
        ensures
            r == (Matrix4 {
                x: Vector4 { x: ONE_BITS, y: ZERO_BITS, z: ZERO_BITS, w: x },
                y: Vector4 { x: ZERO_BITS, y: ONE_BITS, z: ZERO_BITS, w: y },
                z: Vector4 { x: ZERO_BITS, y: ZERO_BITS, z: ONE_BITS, w: z },
                w: Vector4 { x: ZERO_BITS, y: ZERO_BITS, z: ZERO_BITS, w: ONE_BITS },
            }),
    {
        Matrix4 {
            x: Vector4 { x: ONE_BITS, y: ZERO_BITS, z: ZERO_BITS, w: x },
            y: Vector4 { x: ZERO_BITS, y: ONE_BITS, z: ZERO_BITS, w: y },
            z: Vector4 { x: ZERO_BITS, y: ZERO_BITS, z: ONE_BITS, w: z },
            w: Vector4 { x: ZERO_BITS, y: ZERO_BITS, z: ZERO_BITS, w: ONE_BITS },
        }
    }

    /// The scaling matrix: a diagonal of the three factors and 1.0.
    pub fn scale(x: u32, y: u32, z: u32) -> (r: Matrix4)
        ensures
            r == (Matrix4 {
                x: Vector4 { x: x, y: ZERO_BITS, z: ZERO_BITS, w: ZERO_BITS },
                y: Vector4 { x: ZERO_BITS, y: y, z: ZERO_BITS, w: ZERO_BITS },
                z: Vector4 { x: ZERO_BITS, y: ZERO_BITS, z: z, w: ZERO_BITS },
                w: Vector4 { x: ZERO_BITS, y: ZERO_BITS, z: ZERO_BITS, w: ONE_BITS },
            }),
    {
        Matrix4 {
            x: Vector4 { x: x, y: ZERO_BITS, z: ZERO_BITS, w: ZERO_BITS },
            y: Vector4 { x: ZERO_BITS, y: y, z: ZERO_BITS, w: ZERO_BITS },
            z: Vector4 { x: ZERO_BITS, y: ZERO_BITS, z: z, w: ZERO_BITS },
            w: Vector4 { x: ZERO_BITS, y: ZERO_BITS, z: ZERO_BITS, w: ONE_BITS },
        }
    }

    pub fn add(self, other: Matrix4) -> (r: Matrix4)
        ensures
            r == self.spec_add(other),
    {
        Matrix4 {
            x: self.x.add(other.x),
            y: self.y.add(other.y),
            z: self.z.add(other.z),
            w: self.w.add(other.w),
        }
    }

    pub fn sub(self, other: Matrix4) -> (r: Matrix4)
        ensures
            r == self.spec_sub(other),
    {
        Matrix4 {
            x: self.x.sub(other.x),
            y: self.y.sub(other.y),
            z: self.z.sub(other.z),
            w: self.w.sub(other.w),
        }
    }

    /// One entry of the matrix product of `self` and `other`.
    fn mul_entry(&self, other: &Matrix4, i: u8, j: u8) -> (r: u32)
        requires
            i < 4,
            j < 4,
        ensures
            r == self.spec_mul_entry(*other, i as int, j as int),
    {
        let row: Vector4 = self.index(i);
        let t0: u32 = fmul(row.index(0), other.index(0).index(j));
        let t1: u32 = fmul(row.index(1), other.index(1).index(j));
        let t2: u32 = fmul(row.index(2), other.index(2).index(j));
        let t3: u32 = fmul(row.index(3), other.index(3).index(j));
        fadd(fadd(fadd(fadd(ZERO_BITS, t0), t1), t2), t3)
    }

    /// The matrix product, by the standard triple sum.
    pub fn mul(self, other: Matrix4) -> (r: Matrix4)
        ensures
            r == self.spec_mul(other),
    {
        Matrix4 {
            x: Vector4 {
                x: self.mul_entry(&other, 0, 0),
                y: self.mul_entry(&other, 0, 1),
                z: self.mul_entry(&other, 0, 2),
                w: self.mul_entry(&other, 0, 3),
            },
            y: Vector4 {
                x: self.mul_entry(&other, 1, 0),
                y: self.mul_entry(&other, 1, 1),
                z: self.mul_entry(&other, 1, 2),
                w: self.mul_entry(&other, 1, 3),
            },
            z: Vector4 {
                x: self.mul_entry(&other, 2, 0),
                y: self.mul_entry(&other, 2, 1),
                z: self.mul_entry(&other, 2, 2),
                w: self.mul_entry(&other, 2, 3),
            },
            w: Vector4 {
                x: self.mul_entry(&other, 3, 0),
                y: self.mul_entry(&other, 3, 1),
                z: self.mul_entry(&other, 3, 2),
                w: self.mul_entry(&other, 3, 3),
            },
        }
    }

    /// The matrix applied to a vector.
    pub fn mul_vector(self, v: Vector4) -> (r: Vector4)
        ensures
            r == self.spec_mul_vector(v),
    {
        Vector4 {
            x: Vector4::dot(self.x, v),
            y: Vector4::dot(self.y, v),
            z: Vector4::dot(self.z, v),
            w: Vector4::dot(self.w, v),
        }
    }

    /// The matrix scaled by a scalar.
    pub fn mul_scalar(self, s: u32) -> (r: Matrix4)
        ensures
            r == self.spec_mul_scalar(s),
    {
        Matrix4 {
            x: self.x.mul(s),
            y: self.y.mul(s),
            z: self.z.mul(s),
            w: self.w.mul(s),
        }
    }

    /// The matrix divided by a scalar.
    pub fn div(self, s: u32) -> (r: Matrix4)
        ensures
            r == self.spec_div(s),
    {
        Matrix4 {
            x: self.x.div(s),
            y: self.y.div(s),
            z: self.z.div(s),
            w: self.w.div(s),
        }
    }

    /// The transpose.
    pub fn transpose(&self) -> (r: Matrix4)
        ensures
            r == self.spec_transpose(),
    {
        Matrix4 {
            x: Vector4 { x: self.x.x, y: self.y.x, z: self.z.x, w: self.w.x },
            y: Vector4 { x: self.x.y, y: self.y.y, z: self.z.y, w: self.w.y },
            z: Vector4 { x: self.x.z, y: self.y.z, z: self.z.z, w: self.w.z },
            w: Vector4 { x: self.x.w, y: self.y.w, z: self.z.w, w: self.w.w },
        }
    }

    /// The row at a position: 0 is x, 1 is y, 2 is z, 3 is w. A position out
    /// of that range is a contract violation; an unverified caller that
    /// breaks it finds the call aborts rather than reading anything.
    pub fn index(&self, i: u8) -> (r: Vector4)
        requires
            i < 4,
        ensures
            r == self.spec_index(i as int),
    {
        match i {
            0 => self.x,
            1 => self.y,
            2 => self.z,
            3 => self.w,
            _ => unreached(),
        }
    }

    /// Replaces the row at a position: 0 is x, 1 is y, 2 is z, 3 is w. The
    /// positional counterpart of writing to a named field.
    pub fn set(&mut self, i: u8, v: Vector4)
        requires
            i < 4,
        ensures
            final(self).spec_index(i as int) == v,
            forall|j: int| 0 <= j < 4 && j != i as int ==> final(self).spec_index(j)
                == old(self).spec_index(j),
    {
        match i {
            0 => self.x = v,
            1 => self.y = v,
            2 => self.z = v,
            3 => self.w = v,
            _ => unreached(),
        }
    }

    /// Approximate equality: every pair of matching rows is approximately
    /// equal.
    pub fn approx_eq(&self, other: &Matrix4) -> (r: bool)
        ensures
            r == self.spec_approx_eq(*other),
    {
        self.x.approx_eq(&other.x) && self.y.approx_eq(&other.y) && self.z.approx_eq(&other.z)
            && self.w.approx_eq(&other.w)
    }
}

/// Transposing twice gives the matrix back, bit for bit: the transpose only
/// permutes entries, so it is its own inverse.
pub proof fn lemma_transpose_involution(m: Matrix4)
    ensures
        m.spec_transpose().spec_transpose() == m,
{
}

} // verus!
