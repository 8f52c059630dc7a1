//! Algebraic laws of the vector and matrix operations, checked on concrete
//! values: binary32 arithmetic lives behind trusted calls, so the laws that
//! depend on how it rounds are exercised here rather than proved.

use gmath::vector3::Vector3;
use gmath::vector4::Vector4;

fn b(x: f32) -> u32 {
    x.to_bits()
}

fn v3(x: f32, y: f32, z: f32) -> Vector3 {
    Vector3::new(b(x), b(y), b(z))
}

fn v4(x: f32, y: f32, z: f32, w: f32) -> Vector4 {
    Vector4::new(b(x), b(y), b(z), b(w))
}

#[test]
fn add_commutative() {
    let a = v3(1.25, -3.5, 0.1);
    let c = v3(-0.7, 2.25, 9.0);
    assert!(a.add(c).approx_eq(&c.add(a)));
    let p = v4(1.2, -3.0, -4.2, 2.7);
    let r = v4(-3.4, 5.2, -1.0, 0.8);
    assert!(p.add(r).approx_eq(&r.add(p)));
}

#[test]
fn add_associative() {
    let a = v3(1.25, -3.5, 0.1);
    let c = v3(-0.7, 2.25, 9.0);
    let d = v3(100.0, -0.004, 7.5);
    assert!(a.add(c).add(d).approx_eq(&a.add(c.add(d))));
    let p = v4(1.2, -3.0, -4.2, 2.7);
    let r = v4(-3.4, 5.2, -1.0, 0.8);
    let s = v4(0.5, 0.25, -8.0, 3.125);
    assert!(p.add(r).add(s).approx_eq(&p.add(r.add(s))));
}

#[test]
fn mul_div_roundtrip() {
    let a = v3(1.25, -3.5, 0.1);
    let s = b(7.3);
    assert!(a.mul(s).div(s).approx_eq(&a));
    let p = v4(1.2, -3.0, -4.2, 2.7);
    assert!(p.mul(s).div(s).approx_eq(&p));
}

#[test]
fn cross_antisymmetric() {
    let a = v3(1.25, -3.5, 0.1);
    let c = v3(-0.7, 2.25, 9.0);
    assert!(Vector3::cross(a, c).approx_eq(&Vector3::cross(c, a).neg()));
}

#[test]
fn dot_matches_cross_orthogonality() {
    let a = v3(1.25, -3.5, 0.1);
    let c = v3(-0.7, 2.25, 9.0);
    let n = Vector3::cross(a, c);
    assert!((f32::from_bits(Vector3::dot(a, n))).abs() < 1e-4);
    assert!((f32::from_bits(Vector3::dot(c, n))).abs() < 1e-4);
}

#[test]
fn normalize_unit_length() {
    let a = v3(3.0, -4.0, 12.0);
    let n = a.normalize();
    assert!((f32::from_bits(n.abs()) - 1.0).abs() < 1e-4);
}
