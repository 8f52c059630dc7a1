//! View and projection matrix builders: pure functions from camera
//! parameters to a 4x4 matrix.

use vstd::prelude::*;

use crate::matrix4::Matrix4;
use crate::scalar::{
    add_bits, div_bits, mul_bits, neg_bits, of_u32_bits, sub_bits, tan_bits, fdiv, ffrom_u32,
    fmul, fneg, fsub, fadd, ftan, ONE_BITS, TWO_BITS, ZERO_BITS,
};
use crate::vector3::Vector3;
use crate::vector4::Vector4;

verus! {

/// The bit pattern of the far plane distance, 2048.0, baked into the
/// projection's depth remapping.
pub const ZFAR_BITS: u32 = 0x4500_0000;
/// The bit pattern of the near plane distance, 0.1 (rounded to binary32),
/// baked into the projection's depth remapping.
pub const ZNEAR_BITS: u32 = 0x3DCC_CCCD;

/// The look-at view matrix, before the final transpose: the camera basis
/// vectors as rows, each row carrying one component of the camera-space
/// translation in its last entry, and the last row that of the identity.
/// The first basis row is the raw cross product of the up vector with the
/// forward vector, not normalized; the normalized copy enters only the
/// true-up vector and the translation.
pub open spec fn spec_view_rows(position: Vector3, direction: Vector3, up: Vector3) -> Matrix4 {
    let f = direction.spec_normalize();
    let s = Vector3::spec_cross(up, f);
    let s_norm = s.spec_normalize();
    let u = Vector3::spec_cross(f, s_norm);
    let p = (Vector3 {
        x: Vector3::spec_dot(position, s_norm),
        y: Vector3::spec_dot(position, u),
        z: Vector3::spec_dot(position, f),
    }).spec_neg();
    Matrix4 {
        x: Vector4 { x: s.x, y: s.y, z: s.z, w: p.x },
        y: Vector4 { x: u.x, y: u.y, z: u.z, w: p.y },
        z: Vector4 { x: f.x, y: f.y, z: f.z, w: p.z },
        w: Vector4 { x: ZERO_BITS, y: ZERO_BITS, z: ZERO_BITS, w: ONE_BITS },
    }
}

/// The look-at view matrix: the assembled camera rows, transposed.
pub open spec fn spec_view_matrix(position: Vector3, direction: Vector3, up: Vector3) -> Matrix4 {
    spec_view_rows(position, direction, up).spec_transpose()
}

/// The perspective projection matrix, before the final transpose. The
/// aspect ratio is height over width; the focal term is the reciprocal of
/// the tangent of half the field of view; the near and far planes are the
/// baked-in constants.
pub open spec fn spec_perspective_rows(width: u32, height: u32, fov: u32) -> Matrix4 {
    let aspect = div_bits(of_u32_bits(height), of_u32_bits(width));
    let focal = div_bits(ONE_BITS, tan_bits(div_bits(fov, TWO_BITS)));
    let depth = sub_bits(ZFAR_BITS, ZNEAR_BITS);
    Matrix4 {
        x: Vector4 { x: mul_bits(focal, aspect), y: ZERO_BITS, z: ZERO_BITS, w: ZERO_BITS },
        y: Vector4 { x: ZERO_BITS, y: focal, z: ZERO_BITS, w: ZERO_BITS },
        z: Vector4 {
            x: ZERO_BITS,
            y: ZERO_BITS,
            z: div_bits(add_bits(ZFAR_BITS, ZNEAR_BITS), depth),
            w: ONE_BITS,
        },
        w: Vector4 {
            x: ZERO_BITS,
            y: ZERO_BITS,
            z: div_bits(neg_bits(mul_bits(mul_bits(TWO_BITS, ZFAR_BITS), ZNEAR_BITS)), depth),
            w: ZERO_BITS,
        },
    }
}

/// The perspective projection matrix: the assembled rows, transposed.
pub open spec fn spec_perspective(width: u32, height: u32, fov: u32) -> Matrix4 {
    spec_perspective_rows(width, height, fov).spec_transpose()
}

/// The look-at view matrix for a camera at `position` facing along
/// `direction` with the given up vector. A direction parallel to the up
/// vector makes the cross product zero and the basis normalization divide
/// by zero; the non-finite values propagate, they are not trapped.
pub fn view_matrix(position: &Vector3, direction: &Vector3, up: &Vector3) -> (r: Matrix4)
    ensures
        r == spec_view_matrix(*position, *direction, *up),
{
    let f: Vector3 = direction.normalize();
    let s: Vector3 = Vector3::cross(*up, f);
    let s_norm: Vector3 = s.normalize();
    let u: Vector3 = Vector3::cross(f, s_norm);

    let p: Vector3 = Vector3::new(
        Vector3::dot(*position, s_norm),
        Vector3::dot(*position, u),
        Vector3::dot(*position, f),
    ).neg();

    Matrix4::new(
        s.x, s.y, s.z, p.x,
        u.x, u.y, u.z, p.y,
        f.x, f.y, f.z, p.z,
        ZERO_BITS, ZERO_BITS, ZERO_BITS, ONE_BITS,
    ).transpose()
}

/// The perspective projection matrix for a viewport of `width` by `height`
/// pixels and a field of view whose binary32 bit pattern is `fov`, with the
/// near plane at 0.1 and the far plane at 2048.0.
pub fn perspective(width: u32, height: u32, fov: u32) -> (r: Matrix4)
    ensures
        r == spec_perspective(width, height, fov),
{
    let aspect_ratio: u32 = fdiv(ffrom_u32(height), ffrom_u32(width));
    let focal: u32 = fdiv(ONE_BITS, ftan(fdiv(fov, TWO_BITS)));
    let depth: u32 = fsub(ZFAR_BITS, ZNEAR_BITS);

    Matrix4::new(
        fmul(focal, aspect_ratio), ZERO_BITS, ZERO_BITS, ZERO_BITS,
        ZERO_BITS, focal, ZERO_BITS, ZERO_BITS,
        ZERO_BITS, ZERO_BITS, fdiv(fadd(ZFAR_BITS, ZNEAR_BITS), depth), ONE_BITS,
        ZERO_BITS, ZERO_BITS, fdiv(fneg(fmul(fmul(TWO_BITS, ZFAR_BITS), ZNEAR_BITS)), depth), ZERO_BITS,
    ).transpose()
}

} // verus!
