use gmath::matrix4::Matrix4;
use gmath::vector3::Vector3;
use gmath::vector4::Vector4;

fn b(x: f32) -> u32 {
    x.to_bits()
}

fn v4(x: f32, y: f32, z: f32, w: f32) -> Vector4 {
    Vector4::new(b(x), b(y), b(z), b(w))
}

#[allow(clippy::too_many_arguments)]
fn m4(
    a00: f32, a01: f32, a02: f32, a03: f32,
    a10: f32, a11: f32, a12: f32, a13: f32,
    a20: f32, a21: f32, a22: f32, a23: f32,
    a30: f32, a31: f32, a32: f32, a33: f32,
) -> Matrix4 {
    Matrix4::new(
        b(a00), b(a01), b(a02), b(a03),
        b(a10), b(a11), b(a12), b(a13),
        b(a20), b(a21), b(a22), b(a23),
        b(a30), b(a31), b(a32), b(a33),
    )
}

fn sample() -> Matrix4 {
    m4(
        1.5, -2.0, 0.25, 3.0,
        4.0, 0.5, -1.0, 2.0,
        -0.75, 6.0, 1.25, -3.5,
        2.5, -4.0, 0.0, 1.0,
    )
}

#[test]
fn matrix_one_mul() {
    let m = sample();
    assert!(Matrix4::one().mul(m).approx_eq(&m));
    assert!(m.mul(Matrix4::one()).approx_eq(&m));
}

#[test]
fn matrix_zero_mul() {
    let m = sample();
    assert!(Matrix4::zero().mul(m).approx_eq(&Matrix4::zero()));
}

#[test]
fn matrix_transpose_involution() {
    let m = sample();
    let t = m.transpose().transpose();
    assert_eq!(t.x.x, m.x.x);
    assert_eq!(t.y.z, m.y.z);
    assert_eq!(t.w.w, m.w.w);
    assert!(t.approx_eq(&m));
}

#[test]
fn matrix_mul_associative() {
    let m1 = sample();
    let m2 = m4(
        0.5, 1.0, -1.5, 2.0,
        -2.5, 3.0, 0.75, -0.25,
        1.0, 1.0, 2.0, -1.0,
        0.0, -3.0, 4.0, 1.5,
    );
    let m3 = m4(
        2.0, 0.0, 1.0, -1.0,
        1.5, -0.5, 0.0, 2.5,
        -1.0, 2.0, 3.0, 0.5,
        0.25, 1.0, -2.0, 1.0,
    );
    assert!(m1.mul(m2).mul(m3).approx_eq(&m1.mul(m2.mul(m3))));
}

#[test]
fn matrix_mul_concrete() {
    let m = m4(
        1.0, 2.0, 0.0, 0.0,
        0.0, 1.0, 0.0, 0.0,
        0.0, 0.0, 1.0, 0.0,
        0.0, 0.0, 0.0, 1.0,
    );
    let n = m4(
        1.0, 0.0, 0.0, 0.0,
        3.0, 1.0, 0.0, 0.0,
        0.0, 0.0, 1.0, 0.0,
        0.0, 0.0, 0.0, 1.0,
    );
    assert!(m.mul(n).approx_eq(&m4(
        7.0, 2.0, 0.0, 0.0,
        3.0, 1.0, 0.0, 0.0,
        0.0, 0.0, 1.0, 0.0,
        0.0, 0.0, 0.0, 1.0,
    )));
}

#[test]
fn matrix_add_sub() {
    let m = sample();
    let n = m4(
        1.0, 1.0, 1.0, 1.0,
        1.0, 1.0, 1.0, 1.0,
        1.0, 1.0, 1.0, 1.0,
        1.0, 1.0, 1.0, 1.0,
    );
    assert!(m.add(n).sub(n).approx_eq(&m));
    assert!(m.add(Matrix4::zero()).approx_eq(&m));
}

#[test]
fn matrix_scalar_mul_div() {
    let m = sample();
    assert!(m.mul_scalar(b(2.0)).div(b(2.0)).approx_eq(&m));
    let twice = m.mul_scalar(b(2.0));
    assert_eq!(f32::from_bits(twice.x.x), 3.0);
    assert_eq!(f32::from_bits(twice.y.x), 8.0);
}

#[test]
fn matrix_mul_vector() {
    let m = Matrix4::translate(b(1.0), b(2.0), b(3.0));
    let p = v4(5.0, 6.0, 7.0, 1.0);
    assert!(m.mul_vector(p).approx_eq(&v4(6.0, 8.0, 10.0, 1.0)));
}

#[test]
fn translate_moves_point() {
    let p = Vector3::new(b(5.0), b(-1.0), b(2.0));
    let moved = Matrix4::translate(b(1.0), b(2.0), b(3.0)).mul_vector(p.extend());
    assert!(moved.approx_eq(&p.add(Vector3::new(b(1.0), b(2.0), b(3.0))).extend()));
}

#[test]
fn scale_scales_point() {
    let p = Vector3::new(b(5.0), b(-1.0), b(2.0));
    let scaled = Matrix4::scale(b(2.0), b(3.0), b(4.0)).mul_vector(p.extend());
    assert!(scaled.approx_eq(&v4(10.0, -3.0, 8.0, 1.0)));
}

#[test]
fn matrix_indexing() {
    let m = sample();
    assert_eq!(m.index(0).index(1), b(-2.0));
    assert_eq!(m.index(2).index(3), b(-3.5));
}

#[test]
fn matrix_set() {
    let mut m = Matrix4::zero();
    m.set(2, v4(1.0, 2.0, 3.0, 4.0));
    assert_eq!(m.index(2).index(0), b(1.0));
    assert_eq!(m.index(0).index(0), b(0.0));
}
