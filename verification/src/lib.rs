//! A small linear-algebra core for 3D graphics: fixed-size vectors, a 4x4
//! matrix, quaternions, and view/projection matrix builders.
//!
//! Every scalar component is an IEEE-754 binary32 value carried as its raw
//! bit pattern in a `u32`. Verus has no model of floating-point arithmetic,
//! so each arithmetic operation on scalars is named by an uninterpreted
//! spec function and performed by a trusted call into an outside
//! floating-point library; everything built on top of the scalar layer is
//! verified against those names, which pins down the exact expression each
//! component of every result is computed by.

pub mod matrix4;
pub mod quaternion;
pub mod scalar;
pub mod vector3;
pub mod vector4;
pub mod view;
