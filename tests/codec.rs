use chmux::{Ciborium, DeserializationError};

#[test]
fn u32_exact_bytes() {
    assert_eq!(Ciborium::serialize_u32(0), vec![0x00]);
    assert_eq!(Ciborium::serialize_u32(23), vec![0x17]);
    assert_eq!(Ciborium::serialize_u32(24), vec![0x18, 0x18]);
    assert_eq!(Ciborium::serialize_u32(255), vec![0x18, 0xff]);
    assert_eq!(Ciborium::serialize_u32(256), vec![0x19, 0x01, 0x00]);
    assert_eq!(Ciborium::serialize_u32(65536), vec![0x1a, 0x00, 0x01, 0x00, 0x00]);
    assert_eq!(Ciborium::serialize_u32(u32::MAX), vec![0x1a, 0xff, 0xff, 0xff, 0xff]);
}

#[test]
fn u64_exact_bytes() {
    assert_eq!(Ciborium::serialize_u64(1 << 32), vec![0x1b, 0, 0, 0, 1, 0, 0, 0, 0]);
    assert_eq!(Ciborium::serialize_u64(2048), vec![0x19, 0x08, 0x00]);
}

#[test]
fn i32_exact_bytes() {
    assert_eq!(Ciborium::serialize_i32(-1), vec![0x20]);
    assert_eq!(Ciborium::serialize_i32(-24), vec![0x37]);
    assert_eq!(Ciborium::serialize_i32(-500), vec![0x39, 0x01, 0xf3]);
    assert_eq!(Ciborium::serialize_i32(1023), vec![0x19, 0x03, 0xff]);
    assert_eq!(Ciborium::serialize_i32(i32::MIN), vec![0x3a, 0x7f, 0xff, 0xff, 0xff]);
}

#[test]
fn bytes_exact_encoding() {
    assert_eq!(Ciborium::serialize_bytes(&vec![]), vec![0x80]);
    assert_eq!(Ciborium::serialize_bytes(&vec![1, 30]), vec![0x82, 0x01, 0x18, 0x1e]);
}

#[test]
fn integers_round_trip() {
    for v in [0u32, 5, 24, 300, 70000, u32::MAX] {
        assert_eq!(Ciborium::deserialize_u32(&Ciborium::serialize_u32(v)), Ok(v));
    }
    for v in [0u64, 1 << 40, u64::MAX] {
        assert_eq!(Ciborium::deserialize_u64(&Ciborium::serialize_u64(v)), Ok(v));
    }
    for i in 1..1024 {
        assert_eq!(Ciborium::deserialize_i32(&Ciborium::serialize_i32(-i)), Ok(-i));
    }
    assert_eq!(Ciborium::deserialize_i32(&Ciborium::serialize_i32(i32::MIN)), Ok(i32::MIN));
}

#[test]
fn bytes_round_trip() {
    let data: Vec<u8> = (0..=255u8).collect();
    assert_eq!(Ciborium::deserialize_bytes(&Ciborium::serialize_bytes(&data)), Ok(data));
}

#[test]
fn malformed_input_is_rejected() {
    assert_eq!(Ciborium::deserialize_u32(&vec![]), Err(DeserializationError::Malformed));
    assert_eq!(Ciborium::deserialize_u32(&vec![0x20]), Err(DeserializationError::Malformed));
    assert_eq!(Ciborium::deserialize_u32(&Ciborium::serialize_u64(1 << 33)), Err(DeserializationError::Malformed));
    assert_eq!(Ciborium::deserialize_u64(&vec![0x19, 0x01]), Err(DeserializationError::Malformed));
    assert_eq!(Ciborium::deserialize_i32(&vec![]), Err(DeserializationError::Malformed));
    assert_eq!(Ciborium::deserialize_bytes(&vec![0x82, 0x01]), Err(DeserializationError::Malformed));
    assert_eq!(Ciborium::deserialize_bytes(&vec![]), Err(DeserializationError::Malformed));
}
