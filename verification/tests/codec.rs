use geovec::{Vector2, Vector3, Vector4};

#[test]
fn bytes_round_trip_vector2() {
    let v = Vector2::new(1.5f32.to_bits(), (-2.0f32).to_bits());
    let b = v.to_bytes();
    assert_eq!(b.len(), 8);
    let r = Vector2::from_bytes(&b).unwrap();
    assert_eq!((r.x, r.y), (v.x, v.y));
}

#[test]
fn bytes_round_trip_vector3_with_nan_and_infinity() {
    let v = Vector3::new(f32::NAN.to_bits(), f32::NEG_INFINITY.to_bits(), 0.25f32.to_bits());
    let b = v.to_bytes();
    assert_eq!(b.len(), 12);
    let r = Vector3::from_bytes(&b).unwrap();
    assert_eq!((r.x, r.y, r.z), (v.x, v.y, v.z));
}

#[test]
fn bytes_round_trip_vector4() {
    let v = Vector4::new(
        1.0f32.to_bits(),
        (-0.0f32).to_bits(),
        3.5f32.to_bits(),
        f32::MAX.to_bits(),
    );
    let b = v.to_bytes();
    assert_eq!(b.len(), 16);
    let r = Vector4::from_bytes(&b).unwrap();
    assert_eq!((r.x, r.y, r.z, r.w), (v.x, v.y, v.z, v.w));
}

#[test]
fn bytes_layout_is_little_endian_in_field_order() {
    // 1.0f32 is pattern 0x3f80_0000; -2.0f32 is 0xc000_0000
    let v = Vector2::new(1.0f32.to_bits(), (-2.0f32).to_bits());
    let b = v.to_bytes();
    assert_eq!(b, vec![0x00, 0x00, 0x80, 0x3f, 0x00, 0x00, 0x00, 0xc0]);
}

#[test]
fn from_bytes_rejects_wrong_length() {
    let short: Vec<u8> = vec![0; 7];
    let long: Vec<u8> = vec![0; 9];
    assert!(Vector2::from_bytes(&short).is_none());
    assert!(Vector2::from_bytes(&long).is_none());
    assert!(Vector3::from_bytes(&short).is_none());
    assert!(Vector4::from_bytes(&long).is_none());
}

#[test]
fn deserialize_then_serialize_restores_bytes() {
    let data: Vec<u8> = vec![1, 2, 3, 4, 5, 6, 7, 8, 9, 10, 11, 12];
    let v = Vector3::from_bytes(&data).unwrap();
    assert_eq!(v.to_bytes(), data);
}
