use geovec::scalar;
use geovec::{Vector2, Vector3, Vector4};

fn fadd(a: u32, b: u32) -> u32 {
    (f32::from_bits(a) + f32::from_bits(b)).to_bits()
}

fn fsub(a: u32, b: u32) -> u32 {
    (f32::from_bits(a) - f32::from_bits(b)).to_bits()
}

fn fmul(a: u32, b: u32) -> u32 {
    (f32::from_bits(a) * f32::from_bits(b)).to_bits()
}

fn v2(x: f32, y: f32) -> Vector2 {
    Vector2::new(x.to_bits(), y.to_bits())
}

fn v3(x: f32, y: f32, z: f32) -> Vector3 {
    Vector3::new(x.to_bits(), y.to_bits(), z.to_bits())
}

fn v4(x: f32, y: f32, z: f32, w: f32) -> Vector4 {
    Vector4::new(x.to_bits(), y.to_bits(), z.to_bits(), w.to_bits())
}

fn close(a: u32, b: u32) -> bool {
    (f32::from_bits(a) - f32::from_bits(b)).abs() < 1e-6
}

#[test]
fn it_works() {
    assert_eq!(2 + 2, 4);
}

#[test]
fn new_and_zero_hold_the_given_patterns() {
    let v = v3(1.5, -2.0, 0.25);
    assert_eq!(v.x, 1.5f32.to_bits());
    assert_eq!(v.y, (-2.0f32).to_bits());
    assert_eq!(v.z, 0.25f32.to_bits());
    let z2 = Vector2::zero();
    let z3 = Vector3::zero();
    let z4 = Vector4::zero();
    assert_eq!((z2.x, z2.y), (0.0f32.to_bits(), 0.0f32.to_bits()));
    assert_eq!((z3.x, z3.y, z3.z), (0, 0, 0));
    assert_eq!((z4.x, z4.y, z4.z, z4.w), (0, 0, 0, 0));
}

#[test]
fn vector2_add_concrete() {
    // Vector2(1, 2) + Vector2(3, 4) == Vector2(4, 6)
    let r = v2(1.0, 2.0).zip_with(v2(3.0, 4.0), fadd);
    assert_eq!(r.x, 4.0f32.to_bits());
    assert_eq!(r.y, 6.0f32.to_bits());
}

#[test]
fn cross_of_unit_x_and_unit_y_is_unit_z() {
    let r = v3(1.0, 0.0, 0.0).cross(&v3(0.0, 1.0, 0.0), fmul, fsub);
    assert_eq!(r.x, 0.0f32.to_bits());
    assert_eq!(r.y, 0.0f32.to_bits());
    assert_eq!(r.z, 1.0f32.to_bits());
}

#[test]
fn add_then_sub_restores_vector2() {
    let a = v2(1.25, -7.5);
    let b = v2(3.5, 0.125);
    let r = a.zip_with(b, fadd).zip_with(b, fsub);
    assert!(close(r.x, a.x) && close(r.y, a.y));
}

#[test]
fn add_then_sub_restores_vector3() {
    let a = v3(0.1, 2.0, -3.25);
    let b = v3(4.5, -0.75, 6.0);
    let r = a.zip_with(b, fadd).zip_with(b, fsub);
    assert!(close(r.x, a.x) && close(r.y, a.y) && close(r.z, a.z));
}

#[test]
fn add_then_sub_restores_vector4() {
    let a = v4(0.5, -1.5, 2.25, 8.0);
    let b = v4(3.0, 4.0, -5.5, 0.0625);
    let r = a.zip_with(b, fadd).zip_with(b, fsub);
    assert!(close(r.x, a.x) && close(r.y, a.y) && close(r.z, a.z) && close(r.w, a.w));
}

#[test]
fn add_commutes() {
    let a = v3(1.5, -2.0, 3.25);
    let b = v3(0.5, 7.0, -0.125);
    let ab = a.zip_with(b, fadd);
    let ba = b.zip_with(a, fadd);
    assert_eq!((ab.x, ab.y, ab.z), (ba.x, ba.y, ba.z));
}

#[test]
fn hadamard_product_commutes() {
    let a = v3(1.5, -2.0, 3.25);
    let b = v3(0.5, 7.0, -0.125);
    let ab = a.zip_with(b, fmul);
    let ba = b.zip_with(a, fmul);
    assert_eq!((ab.x, ab.y, ab.z), (ba.x, ba.y, ba.z));
}

#[test]
fn scalar_multiplication_commutes() {
    let a = v2(1.5, -2.0);
    let s: u32 = 2.5f32.to_bits();
    let right = a.map_with(s, fmul);
    let left = a.map_with(s, |c, t| fmul(t, c));
    assert_eq!((right.x, right.y), (left.x, left.y));
}

#[test]
fn sub_anticommutes() {
    // a - b == -(b - a), exactly, for finite operands
    let a = v2(1.5, -2.0);
    let b = v2(0.25, 8.0);
    let ab = a.zip_with(b, fsub);
    let ba = b.zip_with(a, fsub).neg();
    assert_eq!((ab.x, ab.y), (ba.x, ba.y));
}

#[test]
fn cross_anticommutes() {
    let a = v3(1.0, 2.0, 3.0);
    let b = v3(4.0, 5.0, 6.0);
    let ab = a.cross(&b, fmul, fsub);
    let ba = b.cross(&a, fmul, fsub).neg();
    assert_eq!((ab.x, ab.y, ab.z), (ba.x, ba.y, ba.z));
    // concrete value: (2*6 - 3*5, 3*4 - 1*6, 1*5 - 2*4) = (-3, 6, -3)
    assert_eq!(ab.x, (-3.0f32).to_bits());
    assert_eq!(ab.y, 6.0f32.to_bits());
    assert_eq!(ab.z, (-3.0f32).to_bits());
}

#[test]
fn cross_with_itself_is_zero() {
    let a = v3(1.0, 2.0, 3.0);
    let r = a.cross(&a, fmul, fsub);
    assert_eq!((r.x, r.y, r.z), (0, 0, 0));
}

#[test]
fn neg_flips_only_the_sign() {
    assert_eq!(scalar::neg_bits(1.5f32.to_bits()), (-1.5f32).to_bits());
    assert_eq!(scalar::neg_bits(0.0f32.to_bits()), (-0.0f32).to_bits());
    let v = v4(1.0, -2.0, 0.0, 3.5);
    let n = v.neg();
    assert_eq!(n.x, (-1.0f32).to_bits());
    assert_eq!(n.y, 2.0f32.to_bits());
    assert_eq!(n.z, (-0.0f32).to_bits());
    assert_eq!(n.w, (-3.5f32).to_bits());
    let nn = n.neg();
    assert_eq!((nn.x, nn.y, nn.z, nn.w), (v.x, v.y, v.z, v.w));
}

#[test]
fn scaling_by_inverse_magnitude_normalizes() {
    // magnitude of (3, 4, 0) is 5; scaling by 1/magnitude gives a unit
    // vector that is a positive multiple of the original
    let v = v3(3.0, 4.0, 0.0);
    let mag: f32 = (f32::from_bits(v.x).powi(2) + f32::from_bits(v.y).powi(2)
        + f32::from_bits(v.z).powi(2))
    .sqrt();
    assert_eq!(mag, 5.0);
    let n = v.map_with((1.0 / mag).to_bits(), fmul);
    let nmag: f32 = (f32::from_bits(n.x).powi(2) + f32::from_bits(n.y).powi(2)
        + f32::from_bits(n.z).powi(2))
    .sqrt();
    assert!((nmag - 1.0).abs() < 1e-6);
    assert!(f32::from_bits(n.x) > 0.0 && f32::from_bits(n.y) > 0.0);
    assert_eq!(f32::from_bits(n.z), 0.0);
}

#[test]
fn xy_drops_the_third_component() {
    let v = v3(4.0, 5.0, 6.0);
    let p = v.xy();
    assert_eq!(p.x, 4.0f32.to_bits());
    assert_eq!(p.y, 5.0f32.to_bits());
}

#[test]
fn array_round_trip_vector3() {
    let arr: [u32; 3] = [1.0f32.to_bits(), (-2.5f32).to_bits(), 3.25f32.to_bits()];
    let v = Vector3::from(arr);
    assert_eq!(v.to_slice(), arr);
}

#[test]
fn array_round_trip_vector4() {
    let arr: [u32; 4] = [
        0.5f32.to_bits(),
        f32::INFINITY.to_bits(),
        (-7.0f32).to_bits(),
        0.0f32.to_bits(),
    ];
    let v = Vector4::from(arr);
    assert_eq!(v.to_slice(), arr);
}

#[test]
fn array_conversion_vector2() {
    let arr: [u32; 2] = [9.0f32.to_bits(), (-0.125f32).to_bits()];
    let v = Vector2::from(arr);
    assert_eq!((v.x, v.y), (arr[0], arr[1]));
}
