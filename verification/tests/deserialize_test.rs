use serdine::{ByteSource, CodecError, Deserialize, MyEnum, MyNamedFieldsStruct};

// ////////////////////////////////////////////////////////////////////
// STRUCT WITH NAMED FIELDS
// ////////////////////////////////////////////////////////////////////

#[test]
fn test_deserialize_named_fields_struct() {
    let serialized_bytes: &[u8] = &[
        0x80, 0x00, //
        0xBE, 0xBA, 0xFE, 0xCA, //
        0xC9, 0x3E, 0x7B, 0x44, //
        0x0C, 0x07, 0x42, 0xB2, 0x80, 0x19, 0x24, 0x40, //
        0x00, 0x01, 0x02, 0x03, //
        0xCA, //
        0x04, 0x05, 0x06,
    ];

    let mut source = ByteSource::new(serialized_bytes.to_vec());
    let instance = MyNamedFieldsStruct::deserialize(&mut source).unwrap();

    assert_eq!(0x80, instance.my_i16);
    assert_eq!(0xCAFEBABE, instance.my_u32);
    assert_eq!(1004.981_f32, f32::from_bits(instance.my_f32.to_bits()));
    assert_eq!(10.04981_f64, f64::from_bits(instance.my_f64.to_bits()));
    assert_eq!([0x0100, 0x0302], instance.my_arr);
    assert!(instance.my_bool);
    assert_eq!(vec![4, 5, 6], instance.my_vec);
}

#[test]
fn test_deserialize_struct_truncated_fails() {
    // A source exhausted part-way through the fixed-width prefix
    // surfaces the underlying I/O failure.
    let serialized_bytes: &[u8] = &[
        0x80, 0x00, //
        0xBE, 0xBA, 0xFE, 0xCA, //
        0xC9, 0x3E, 0x7B, 0x44, //
        0x0C, 0x07, 0x42, 0xB2, 0x80, 0x19, 0x24, 0x40, //
        0x00, 0x01, 0x02, 0x03,
    ];
    let mut source = ByteSource::new(serialized_bytes[..serialized_bytes.len() - 1].to_vec());
    let result = MyNamedFieldsStruct::deserialize(&mut source);
    assert_eq!(Err(CodecError::Io), result.map(|_| ()));
}

// ////////////////////////////////////////////////////////////////////
// ENUMS
// ////////////////////////////////////////////////////////////////////

#[test]
fn test_deserialize_enum() {
    let serialized_bytes: &[u8] = &[
        0x00, 0x00, //
        0xFE, 0xFF, //
        0x01, 0x00,
    ];

    let mut reader = ByteSource::new(serialized_bytes.to_vec());

    assert_eq!(MyEnum::VarA, MyEnum::deserialize(&mut reader).unwrap());
    assert_eq!(MyEnum::VarC, MyEnum::deserialize(&mut reader).unwrap());
    assert_eq!(MyEnum::VarB, MyEnum::deserialize(&mut reader).unwrap());
}

#[test]
fn test_deserialize_enum_truncated_fails() {
    // The sequence of scenario two cut by one byte: the third value
    // cannot be delivered.
    let serialized_bytes: &[u8] = &[0x00, 0x00, 0xFE, 0xFF, 0x01];
    let mut reader = ByteSource::new(serialized_bytes.to_vec());
    assert_eq!(MyEnum::VarA, MyEnum::deserialize(&mut reader).unwrap());
    assert_eq!(MyEnum::VarC, MyEnum::deserialize(&mut reader).unwrap());
    assert_eq!(Err(CodecError::Io), MyEnum::deserialize(&mut reader));
}

#[test]
fn test_deserialize_enum_single_byte_fails() {
    let mut reader = ByteSource::new(vec![0x02]);
    assert_eq!(Err(CodecError::Io), MyEnum::deserialize(&mut reader));
}

#[test]
fn test_deserialize_enum_unknown_discriminant_is_fatal() {
    // Discriminant 2 is not declared: the unrecoverable failure
    // carries the unrecognized value.
    let mut reader = ByteSource::new(vec![0x02, 0x00]);
    assert_eq!(
        Err(CodecError::UnknownDiscriminant(2)),
        MyEnum::deserialize(&mut reader)
    );
}
