use gmath::matrix4::Matrix4;
use gmath::quaternion::Quaternion;
use gmath::vector3::Vector3;

fn b(x: f32) -> u32 {
    x.to_bits()
}

fn approx(a: u32, x: f32) -> bool {
    (f32::from_bits(a) - x).abs() < 1e-4
}

fn q(w: f32, x: f32, y: f32, z: f32) -> Quaternion {
    Quaternion::new(b(w), b(x), b(y), b(z))
}

#[test]
fn quaternion_mul_concrete() {
    let p = q(1.0, 2.0, 3.0, 4.0).mul(q(5.0, 6.0, 7.0, 8.0));
    assert!(approx(p.w, -60.0));
    assert!(approx(p.x, 12.0));
    assert!(approx(p.y, 30.0));
    assert!(approx(p.z, 24.0));
}

#[test]
fn quaternion_one_is_identity() {
    let r = q(0.5, -0.25, 0.75, 1.5);
    let p = Quaternion::one().mul(r);
    assert!(approx(p.w, 0.5));
    assert!(approx(p.x, -0.25));
    assert!(approx(p.y, 0.75));
    assert!(approx(p.z, 1.5));
}

#[test]
fn quaternion_from_vector() {
    let p = Quaternion::from_vector(b(3.0), b(0.0), b(4.0));
    assert!(approx(p.w, 5.0));
    assert!(approx(p.x, 0.6));
    assert!(approx(p.y, 0.0));
    assert!(approx(p.z, 0.8));
}

#[test]
fn quaternion_inverse() {
    let r = q(0.5, 0.5, 0.5, 0.5);
    let p = r.inverse();
    assert!(approx(p.w, 0.5));
    assert!(approx(p.x, -0.5));
    assert!(approx(p.y, -0.5));
    assert!(approx(p.z, -0.5));
    let round = r.mul(p);
    assert!(approx(round.w, 1.0));
    assert!(approx(round.x, 0.0));
    assert!(approx(round.y, 0.0));
    assert!(approx(round.z, 0.0));
}

#[test]
fn quaternion_rotate_zero_angle() {
    let p = Quaternion::rotate_angle_axis(b(0.0), Vector3::new(b(0.0), b(0.0), b(1.0)));
    assert!(approx(p.w, 1.0));
    assert!(approx(p.x, 0.0));
    assert!(approx(p.y, 0.0));
    assert!(approx(p.z, 0.0));
}

#[test]
fn quaternion_to_matrix_identity() {
    let m = Quaternion::one().to_matrix();
    assert!(m.approx_eq(&Matrix4::one()));
}

#[test]
fn quaternion_rotation_matrix_quarter_turn() {
    let r = Quaternion::rotate_angle_axis(
        b(std::f32::consts::FRAC_PI_2),
        Vector3::new(b(0.0), b(0.0), b(1.0)),
    );
    let m = r.to_matrix();
    assert!(approx(m.x.x, 0.0));
    assert!(approx(m.x.y, -1.0));
    assert!(approx(m.y.x, 1.0));
    assert!(approx(m.y.y, 0.0));
    assert!(approx(m.z.z, 1.0));
    assert!(approx(m.w.w, 1.0));
}

#[test]
fn quaternion_from_angle_axis_raw_packing() {
    let p = Quaternion::from_angle_axis(b(3.0), Vector3::new(b(1.0), b(2.0), b(4.0)));
    assert_eq!(p.w, b(3.0));
    assert_eq!(p.x, b(1.0));
    assert_eq!(p.y, b(2.0));
    assert_eq!(p.z, b(4.0));
}
