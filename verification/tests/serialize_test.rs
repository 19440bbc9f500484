use serdine::{F32Bits, F64Bits, MyEnum, MyNamedFieldsStruct, Serialize};

// ////////////////////////////////////////////////////////////////////
// STRUCT WITH NAMED FIELDS
// ////////////////////////////////////////////////////////////////////

#[test]
fn test_serialize_named_fields_struct() {
    let instance = MyNamedFieldsStruct {
        my_i16: 0x80,
        my_u32: 0xCAFEBABE,
        my_f32: F32Bits::new(1004.981_f32.to_bits()),
        my_f64: F64Bits::new(10.04981_f64.to_bits()),
        my_arr: [0x0100, 0x0302],
        my_bool: true,
        my_vec: vec![4, 5, 6],
    };

    let mut serialized_instance = Vec::new();

    instance.serialize(&mut serialized_instance).unwrap();

    let expected_bytes: &[u8] = &[
        0x80, 0x00, //
        0xBE, 0xBA, 0xFE, 0xCA, //
        0xC9, 0x3E, 0x7B, 0x44, //
        0x0C, 0x07, 0x42, 0xB2, 0x80, 0x19, 0x24, 0x40, //
        0x00, 0x01, 0x02, 0x03, //
        0x01, //
        0x04, 0x05, 0x06,
    ];

    assert_eq!(expected_bytes, serialized_instance);
}

#[test]
fn test_serialize_is_deterministic() {
    // Byte-exactness: repeated encodes of the same value yield
    // identical byte sequences.
    let instance = MyNamedFieldsStruct {
        my_i16: -2,
        my_u32: 7,
        my_f32: F32Bits::new(1.5_f32.to_bits()),
        my_f64: F64Bits::new(2.5_f64.to_bits()),
        my_arr: [1, 2],
        my_bool: false,
        my_vec: vec![9],
    };
    let mut first = Vec::new();
    instance.serialize(&mut first).unwrap();
    let mut second = Vec::new();
    instance.serialize(&mut second).unwrap();
    assert_eq!(first, second);
}

// ////////////////////////////////////////////////////////////////////
// ENUMS
// ////////////////////////////////////////////////////////////////////

#[test]
fn test_serialize_enum() {
    let mut serialized_instance = Vec::new();

    MyEnum::VarA.serialize(&mut serialized_instance).unwrap();
    MyEnum::VarC.serialize(&mut serialized_instance).unwrap();
    MyEnum::VarB.serialize(&mut serialized_instance).unwrap();

    let expected_bytes: &[u8] = &[
        0x00, 0x00, //
        0xFE, 0xFF, //
        0x01, 0x00,
    ];

    assert_eq!(expected_bytes, serialized_instance);
}
