//! Numbers as bytes.

use wat_ir::error::ErrorStage;
use wat_ir::helper::SerializedNumber;
use wat_ir::marker::SerializableWatType;

#[test]
fn i32_is_four_big_endian_bytes() {
    let n = SerializedNumber::from_i32(0x0102_0304);
    assert_eq!(n.typ(), SerializableWatType::I32);
    assert_eq!(n.first_bytes(), [1, 2, 3, 4]);
    assert_eq!(n.second_bytes(), None);
    assert_eq!(SerializedNumber::from_i32(-1).first_bytes(), [255, 255, 255, 255]);
    assert_eq!(SerializedNumber::from_i32(-2).first_bytes(), (-2i32).to_be_bytes());
    assert_eq!(SerializedNumber::from_i32(i32::MIN).first_bytes(), [128, 0, 0, 0]);
    assert_eq!(SerializedNumber::from_i32(i32::MAX).first_bytes(), [127, 255, 255, 255]);
    assert_eq!(SerializedNumber::from_i32(0).first_bytes(), [0, 0, 0, 0]);
}

#[test]
fn i64_is_high_half_then_low_half() {
    let n = SerializedNumber::from_i64(0x0102_0304_0506_0708);
    assert_eq!(n.typ(), SerializableWatType::I64);
    assert_eq!(n.first_bytes(), [1, 2, 3, 4]);
    assert_eq!(n.second_bytes(), Some([5, 6, 7, 8]));
    let minus = SerializedNumber::from_i64(-2);
    assert_eq!(minus.first_bytes(), [255, 255, 255, 255]);
    assert_eq!(minus.second_bytes(), Some([255, 255, 255, 254]));
    let least = SerializedNumber::from_i64(i64::MIN);
    assert_eq!(least.first_bytes(), [128, 0, 0, 0]);
    assert_eq!(least.second_bytes(), Some([0, 0, 0, 0]));
}

#[test]
fn floats_keep_their_bit_pattern() {
    let one = SerializedNumber::from_f32_bits(1.0f32.to_bits());
    assert_eq!(one.typ(), SerializableWatType::F32);
    assert_eq!(one.first_bytes(), [0x3f, 0x80, 0, 0]);
    assert_eq!(one.second_bytes(), None);
    let half = SerializedNumber::from_f64_bits(0.5f64.to_bits());
    assert_eq!(half.typ(), SerializableWatType::F64);
    assert_eq!(half.first_bytes(), [0x3f, 0xe0, 0, 0]);
    assert_eq!(half.second_bytes(), Some([0, 0, 0, 0]));
    let nan = SerializedNumber::from_f64_bits(u64::MAX);
    assert_eq!(nan.first_bytes(), [255; 4]);
    assert_eq!(nan.second_bytes(), Some([255; 4]));
}

#[test]
fn optional_limit() {
    let some = SerializedNumber::from_optional_i64(Some(3));
    assert_eq!(some, SerializedNumber::from_i64(3));
    let none = SerializedNumber::from_optional_i64(None);
    assert_eq!(none, SerializedNumber::from_i32(0));
}

#[test]
fn reading_as_u32() {
    assert_eq!(SerializedNumber::from_i32(65536).try_into_u32().unwrap(), 65536);
    assert_eq!(SerializedNumber::from_i32(-1).try_into_u32().unwrap(), u32::MAX);
    assert_eq!(SerializedNumber::from_i64(5).try_into_u32().unwrap(), 5);
    assert_eq!(SerializedNumber::from_i64(u32::MAX as i64).try_into_u32().unwrap(), u32::MAX);
    assert_eq!(SerializedNumber::from_f32_bits(0x0000_0100).try_into_u32().unwrap(), 256);
    let e = SerializedNumber::from_i64(1 << 32).try_into_u32().unwrap_err();
    assert_eq!(e.stage(), ErrorStage::TypeChecking);
    assert_eq!(e.message(), Some("Number does not fit in 32 bits".to_string()));
    assert!(SerializedNumber::from_i64(-1).try_into_u32().is_err());
}

#[test]
fn number_from_its_parts() {
    let n = SerializedNumber::from_parts([1, 2, 3, 4], Some([5, 6, 7, 8]), SerializableWatType::F64);
    assert_eq!(n.first_bytes(), [1, 2, 3, 4]);
    assert_eq!(n.second_bytes(), Some([5, 6, 7, 8]));
    assert_eq!(n.typ(), SerializableWatType::F64);
    assert_eq!(n, SerializedNumber::from_f64_bits(0x0102_0304_0506_0708));
}
