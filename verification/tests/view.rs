use gmath::matrix4::Matrix4;
use gmath::vector3::Vector3;
use gmath::view::{perspective, view_matrix};

fn b(x: f32) -> u32 {
    x.to_bits()
}

fn v3(x: f32, y: f32, z: f32) -> Vector3 {
    Vector3::new(b(x), b(y), b(z))
}

#[allow(clippy::too_many_arguments)]
fn m4(
    a00: f32, a01: f32, a02: f32, a03: f32,
    a10: f32, a11: f32, a12: f32, a13: f32,
    a20: f32, a21: f32, a22: f32, a23: f32,
    a30: f32, a31: f32, a32: f32, a33: f32,
) -> Matrix4 {
    Matrix4::new(
        b(a00), b(a01), b(a02), b(a03),
        b(a10), b(a11), b(a12), b(a13),
        b(a20), b(a21), b(a22), b(a23),
        b(a30), b(a31), b(a32), b(a33),
    )
}

#[test]
fn view() {
    let view = view_matrix(&v3(15.0, 10.0, 0.0), &v3(-15.0, -10.0, 0.0), &v3(0.0, 1.0, 0.0));
    assert!(view.approx_eq(&m4(
        0.0, -0.5547002, -0.8320503, 0.0,
        0.0, 0.8320503, -0.5547002, 0.0,
        0.8320503, 0.0, 0.0, 0.0,
        0.0, 0.0, 18.027756, 1.0,
    )));
}

#[test]
fn view_parallel_up_not_finite() {
    let view = view_matrix(&v3(0.0, 0.0, 0.0), &v3(0.0, 1.0, 0.0), &v3(0.0, 1.0, 0.0));
    assert!(f32::from_bits(view.x.y).is_nan());
}

#[test]
fn perspective_square_fov() {
    let p = perspective(800, 600, b(std::f32::consts::FRAC_PI_2));
    assert!(p.approx_eq(&m4(
        0.75, 0.0, 0.0, 0.0,
        0.0, 1.0, 0.0, 0.0,
        0.0, 0.0, 1.0000976, -0.20000976,
        0.0, 0.0, 1.0, 0.0,
    )));
}
