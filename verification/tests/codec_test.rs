use serdine::{
    deserialize_vec, serialize_vec, ByteSource, CodecError, Deserialize, F32Bits, F64Bits,
    Serialize,
};

fn encoded<T: Serialize>(v: &T) -> Vec<u8> {
    let mut w = Vec::new();
    v.serialize(&mut w).unwrap();
    w
}

fn decoded<T: Deserialize>(bytes: &[u8]) -> T {
    let mut r = ByteSource::new(bytes.to_vec());
    T::deserialize(&mut r).unwrap()
}

// ////////////////////////////////////////////////////////////////////
// WIDTH INVARIANTS
// ////////////////////////////////////////////////////////////////////

#[test]
fn test_integer_encoded_widths() {
    assert_eq!(1, encoded(&0x12_u8).len());
    assert_eq!(2, encoded(&0x1234_u16).len());
    assert_eq!(4, encoded(&0x12345678_u32).len());
    assert_eq!(8, encoded(&0x1234567812345678_u64).len());
    assert_eq!(16, encoded(&0x12345678_u128).len());
    assert_eq!(1, encoded(&-1_i8).len());
    assert_eq!(2, encoded(&-1_i16).len());
    assert_eq!(4, encoded(&-1_i32).len());
    assert_eq!(8, encoded(&-1_i64).len());
    assert_eq!(16, encoded(&-1_i128).len());
}

#[test]
fn test_float_encoded_widths() {
    assert_eq!(4, encoded(&F32Bits::new(1004.981_f32.to_bits())).len());
    assert_eq!(8, encoded(&F64Bits::new(10.04981_f64.to_bits())).len());
}

#[test]
fn test_bool_encoded_width() {
    assert_eq!(vec![1], encoded(&true));
    assert_eq!(vec![0], encoded(&false));
}

#[test]
fn test_array_encoded_width() {
    let arr: [u16; 2] = [7, 8];
    assert_eq!(4, encoded(&arr).len());
}

// ////////////////////////////////////////////////////////////////////
// EXACT IMAGES
// ////////////////////////////////////////////////////////////////////

#[test]
fn test_little_endian_images() {
    assert_eq!(vec![0x34, 0x12], encoded(&0x1234_u16));
    assert_eq!(vec![0x78, 0x56, 0x34, 0x12], encoded(&0x12345678_u32));
    assert_eq!(vec![0xFF, 0xFF], encoded(&-1_i16));
    assert_eq!(vec![0x80, 0xFF], encoded(&-128_i16));
    assert_eq!(vec![0x2A], encoded(&42_u8));
    assert_eq!(vec![0xD6], encoded(&-42_i8));
}

#[test]
fn test_float_bit_pattern_images() {
    // 1.0f32 is 0x3F800000; little-endian on the wire.
    assert_eq!(
        vec![0x00, 0x00, 0x80, 0x3F],
        encoded(&F32Bits::new(1.0_f32.to_bits()))
    );
    // 1.0f64 is 0x3FF0000000000000.
    assert_eq!(
        vec![0x00, 0x00, 0x00, 0x00, 0x00, 0x00, 0xF0, 0x3F],
        encoded(&F64Bits::new(1.0_f64.to_bits()))
    );
}

// ////////////////////////////////////////////////////////////////////
// ROUND TRIPS
// ////////////////////////////////////////////////////////////////////

#[test]
fn test_roundtrip_unsigned() {
    for v in [0_u8, 1, 127, 255] {
        assert_eq!(v, decoded::<u8>(&encoded(&v)));
    }
    for v in [0_u16, 1, 0x8000, u16::MAX] {
        assert_eq!(v, decoded::<u16>(&encoded(&v)));
    }
    for v in [0_u32, 1, 0xCAFEBABE, u32::MAX] {
        assert_eq!(v, decoded::<u32>(&encoded(&v)));
    }
    for v in [0_u64, 1, u64::MAX] {
        assert_eq!(v, decoded::<u64>(&encoded(&v)));
    }
    for v in [0_u128, 1, u128::MAX] {
        assert_eq!(v, decoded::<u128>(&encoded(&v)));
    }
}

#[test]
fn test_roundtrip_signed() {
    for v in [i8::MIN, -1, 0, 1, i8::MAX] {
        assert_eq!(v, decoded::<i8>(&encoded(&v)));
    }
    for v in [i16::MIN, -1, 0, 0x80, i16::MAX] {
        assert_eq!(v, decoded::<i16>(&encoded(&v)));
    }
    for v in [i32::MIN, -1, 0, 1, i32::MAX] {
        assert_eq!(v, decoded::<i32>(&encoded(&v)));
    }
    for v in [i64::MIN, -1, 0, 1, i64::MAX] {
        assert_eq!(v, decoded::<i64>(&encoded(&v)));
    }
    for v in [i128::MIN, -1, 0, 1, i128::MAX] {
        assert_eq!(v, decoded::<i128>(&encoded(&v)));
    }
}

#[test]
fn test_roundtrip_floats() {
    let f32_bits = F32Bits::new(1004.981_f32.to_bits());
    assert_eq!(f32_bits, decoded::<F32Bits>(&encoded(&f32_bits)));
    let f64_bits = F64Bits::new(10.04981_f64.to_bits());
    assert_eq!(f64_bits, decoded::<F64Bits>(&encoded(&f64_bits)));
}

#[test]
fn test_fixed_array_image_and_roundtrip() {
    // Scenario four: [0x0100, 0x0302] encodes to 00 01 02 03 and
    // decodes back identically.
    let arr: [u16; 2] = [0x0100, 0x0302];
    let bytes = encoded(&arr);
    assert_eq!(vec![0x00, 0x01, 0x02, 0x03], bytes);
    assert_eq!(arr, decoded::<[u16; 2]>(&bytes));
}

#[test]
fn test_fixed_array_truncated_fails() {
    let mut r = ByteSource::new(vec![0x00, 0x01, 0x02]);
    assert_eq!(Err(CodecError::Io), <[u16; 2]>::deserialize(&mut r));
}

// ////////////////////////////////////////////////////////////////////
// BOOLEAN TOLERANCE
// ////////////////////////////////////////////////////////////////////

#[test]
fn test_bool_nonzero_decodes_true_reencodes_canonical() {
    // Scenario three: 0xCA decodes to true; re-encoding yields 0x01.
    let decoded_value = decoded::<bool>(&[0xCA]);
    assert!(decoded_value);
    assert_eq!(vec![0x01], encoded(&decoded_value));
    assert!(!decoded::<bool>(&[0x00]));
}

#[test]
fn test_bool_empty_source_fails() {
    let mut r = ByteSource::new(Vec::new());
    assert_eq!(Err(CodecError::Io), bool::deserialize(&mut r));
}

#[test]
fn test_integer_truncated_fails() {
    let mut r = ByteSource::new(vec![0x01]);
    assert_eq!(Err(CodecError::Io), u16::deserialize(&mut r));
    let mut r = ByteSource::new(vec![0x01, 0x02, 0x03]);
    assert_eq!(Err(CodecError::Io), u32::deserialize(&mut r));
}

// ////////////////////////////////////////////////////////////////////
// OVERRIDE HOOKS
// ////////////////////////////////////////////////////////////////////

#[test]
fn test_vec_override_hooks() {
    let payload = vec![4_u8, 5, 6];
    let mut w = vec![0xAA];
    serialize_vec(&payload, &mut w).unwrap();
    assert_eq!(vec![0xAA, 4, 5, 6], w);

    let mut r = ByteSource::new(vec![7, 8]);
    let back = deserialize_vec(&mut r).unwrap();
    assert_eq!(vec![7, 8], back);
    let emptied = deserialize_vec(&mut r).unwrap();
    assert_eq!(Vec::<u8>::new(), emptied);
}
