use gmath::vector4::Vector4;

fn b(x: f32) -> u32 {
    x.to_bits()
}

fn v4(x: f32, y: f32, z: f32, w: f32) -> Vector4 {
    Vector4::new(b(x), b(y), b(z), b(w))
}

#[test]
fn vector4_add() {
    let v1 = v4(1.2, -3.0, -4.2, 2.7);
    let v2 = v4(-3.4, 5.2, -1.0, 0.8);
    assert!(v1.add(v2).approx_eq(&v4(-2.2, 2.2, -5.2, 3.5)));
}

#[test]
fn vector4_sub() {
    let v1 = v4(1.2, -3.0, -4.2, 2.7);
    let v2 = v4(-3.4, 5.2, -1.0, 0.8);
    assert!(v1.sub(v2).approx_eq(&v4(4.6, -8.2, -3.2, 1.9)));
}

#[test]
fn vector4_mul() {
    let v1 = v4(1.2, -3.0, -4.2, 2.7);
    assert!(v1.mul(b(2.0)).approx_eq(&v4(2.4, -6.0, -8.4, 5.4)));
    assert!(v1.mul(b(-3.0)).approx_eq(&v4(-3.6, 9.0, 12.6, -8.1)));
}

#[test]
fn vector4_div() {
    let v1 = v4(1.2, -3.0, -4.2, 2.7);
    assert!(v1.div(b(2.0)).approx_eq(&v4(0.6, -1.5, -2.1, 1.35)));
}

#[test]
fn dot() {
    let v1 = v4(1.0, -3.0, -4.0, 2.0);
    let v2 = v4(-3.0, 5.0, -1.0, 0.0);
    assert!((f32::from_bits(Vector4::dot(v1, v2)) + 14.0) < f32::EPSILON);
}

#[test]
fn vector4_indexing() {
    let v1 = v4(1.2, -3.0, -4.2, 2.7);
    assert!((f32::from_bits(v1.index(3)) - 2.7) < f32::EPSILON);
}

#[test]
#[should_panic]
fn vector4_indexing_fail() {
    let v1 = v4(1.2, -3.0, -4.2, 2.7);
    v1.index(4);
}

#[test]
fn vector4_units() {
    assert!(Vector4::zero().approx_eq(&v4(0.0, 0.0, 0.0, 0.0)));
    assert_eq!(f32::from_bits(Vector4::unit_x().x), 1.0);
    assert_eq!(f32::from_bits(Vector4::unit_x().y), 0.0);
    assert_eq!(f32::from_bits(Vector4::unit_y().y), 1.0);
    assert_eq!(f32::from_bits(Vector4::unit_z().z), 1.0);
    assert_eq!(f32::from_bits(Vector4::unit_w().w), 1.0);
    assert_eq!(f32::from_bits(Vector4::unit_w().x), 0.0);
}

#[test]
fn vector4_set() {
    let mut v = v4(1.0, 2.0, 3.0, 4.0);
    v.set(3, b(9.0));
    assert_eq!(f32::from_bits(v.index(3)), 9.0);
    assert_eq!(f32::from_bits(v.index(0)), 1.0);
    assert_eq!(f32::from_bits(v.index(1)), 2.0);
    assert_eq!(f32::from_bits(v.index(2)), 3.0);
}
