use serdine::{
    collect_named_fields_data, collect_variants_data, find_type_numeric_repr, impl_deserialize,
    impl_serialize, AttrDecl, DataDecl, DiscriminantDecl, FieldDecl, LitDecl, MetaDecl, Target,
    TypeDecl, VariantDecl,
};

fn plain_field(name: &str) -> FieldDecl {
    FieldDecl {
        ident: name.to_string(),
        attrs: Vec::new(),
    }
}

fn override_attr(path: &str, hook: &str, span: usize) -> AttrDecl {
    AttrDecl {
        path: path.to_string(),
        meta: MetaDecl::NameValue(LitDecl::Str(hook.to_string())),
        arg_ident: None,
        span,
    }
}

fn unit_variant(name: &str, discriminant: &str, span: usize) -> VariantDecl {
    VariantDecl {
        ident: name.to_string(),
        discriminant: Some(DiscriminantDecl::IntLit(discriminant.to_string())),
        span,
    }
}

fn my_enum_decl() -> TypeDecl {
    TypeDecl {
        ident: "MyEnum".to_string(),
        attrs: vec![AttrDecl {
            path: "repr".to_string(),
            meta: MetaDecl::OtherMeta,
            arg_ident: Some("u16".to_string()),
            span: 7,
        }],
        data: DataDecl::EnumData(vec![
            unit_variant("VarA", "0", 1),
            unit_variant("VarB", "1", 2),
            unit_variant("VarC", "65534", 3),
        ]),
        span: 0,
    }
}

fn my_struct_decl() -> TypeDecl {
    TypeDecl {
        ident: "MyNamedFieldsStruct".to_string(),
        attrs: Vec::new(),
        data: DataDecl::NamedStruct(vec![
            plain_field("my_i16"),
            FieldDecl {
                ident: "my_vec".to_string(),
                attrs: vec![
                    override_attr("serialize", "serialize_vec", 11),
                    override_attr("deserialize", "deserialize_vec", 12),
                ],
            },
        ]),
        span: 0,
    }
}

// ////////////////////////////////////////////////////////////////////
// EMISSION
// ////////////////////////////////////////////////////////////////////

#[test]
fn test_impl_serialize_enum() {
    let emitted = impl_serialize(&my_enum_decl()).unwrap();
    assert_eq!(
        "impl serdine::Serialize for MyEnum {\n    fn serialize(&self, __serdine_w: &mut Vec<u8>) -> Result<(), serdine::CodecError> {\n        let __serdine_value: u16 = match self {\n            Self::VarA => 0,\n            Self::VarB => 1,\n            Self::VarC => 65534,\n        };\n        __serdine_value.serialize(__serdine_w)?;\n        Ok(())\n    }\n}\n",
        emitted
    );
}

#[test]
fn test_impl_deserialize_enum() {
    let emitted = impl_deserialize(&my_enum_decl()).unwrap();
    assert_eq!(
        "impl serdine::Deserialize for MyEnum {\n    fn deserialize(__serdine_r: &mut serdine::ByteSource) -> Result<Self, serdine::CodecError> {\n        let __serdine_value = u16::deserialize(__serdine_r)?;\n        let result = match __serdine_value {\n            0 => Self::VarA,\n            1 => Self::VarB,\n            65534 => Self::VarC,\n            __serdine_other => return Err(serdine::CodecError::UnknownDiscriminant(__serdine_other as u128)),\n        };\n        Ok(result)\n    }\n}\n",
        emitted
    );
}

#[test]
fn test_impl_serialize_struct() {
    let emitted = impl_serialize(&my_struct_decl()).unwrap();
    assert_eq!(
        "impl serdine::Serialize for MyNamedFieldsStruct {\n    fn serialize(&self, __serdine_w: &mut Vec<u8>) -> Result<(), serdine::CodecError> {\n        self.my_i16.serialize(__serdine_w)?;\n        serialize_vec(&self.my_vec, __serdine_w)?;\n        Ok(())\n    }\n}\n",
        emitted
    );
}

#[test]
fn test_impl_deserialize_struct() {
    let emitted = impl_deserialize(&my_struct_decl()).unwrap();
    assert_eq!(
        "impl serdine::Deserialize for MyNamedFieldsStruct {\n    fn deserialize(__serdine_r: &mut serdine::ByteSource) -> Result<Self, serdine::CodecError> {\n        let my_i16 = serdine::Deserialize::deserialize(__serdine_r)?;\n        let my_vec = deserialize_vec(__serdine_r)?;\n        let result = Self { my_i16, my_vec, };\n        Ok(result)\n    }\n}\n",
        emitted
    );
}

// ////////////////////////////////////////////////////////////////////
// UNSUPPORTED DECLARATION SHAPES
// ////////////////////////////////////////////////////////////////////

#[test]
fn test_reject_unnamed_fields() {
    let decl = TypeDecl {
        ident: "Pair".to_string(),
        attrs: Vec::new(),
        data: DataDecl::UnnamedStruct,
        span: 4,
    };
    let diag = impl_serialize(&decl).unwrap_err();
    assert_eq!("Unnamed fields not supported", diag.message);
    assert_eq!(4, diag.span);
}

#[test]
fn test_reject_unit_struct() {
    let decl = TypeDecl {
        ident: "Unit".to_string(),
        attrs: Vec::new(),
        data: DataDecl::UnitStruct,
        span: 5,
    };
    let diag = impl_deserialize(&decl).unwrap_err();
    assert_eq!("Unit fields not supported", diag.message);
    assert_eq!(5, diag.span);
}

#[test]
fn test_reject_union() {
    let decl = TypeDecl {
        ident: "Blob".to_string(),
        attrs: Vec::new(),
        data: DataDecl::UnionData,
        span: 6,
    };
    let diag = impl_serialize(&decl).unwrap_err();
    assert_eq!("Unions not supported", diag.message);
    assert_eq!(6, diag.span);
}

// ////////////////////////////////////////////////////////////////////
// ATTRIBUTE COLLECTION
// ////////////////////////////////////////////////////////////////////

#[test]
fn test_collect_named_fields_records_overrides() {
    let fields = vec![
        plain_field("my_i16"),
        FieldDecl {
            ident: "my_vec".to_string(),
            attrs: vec![
                override_attr("serialize", "serialize_vec", 11),
                override_attr("deserialize", "deserialize_vec", 12),
            ],
        },
    ];

    let collected = collect_named_fields_data(&fields, Target::ForSerialization).unwrap();
    assert_eq!(2, collected.len());
    assert_eq!("my_i16", collected[0].field);
    assert_eq!(None, collected[0].serialization_fn);
    assert_eq!(None, collected[0].deserialization_fn);
    assert_eq!("my_vec", collected[1].field);
    assert_eq!(Some("serialize_vec".to_string()), collected[1].serialization_fn);
    // The other direction's attribute is left alone on this pass.
    assert_eq!(None, collected[1].deserialization_fn);

    let collected = collect_named_fields_data(&fields, Target::ForDeserialization).unwrap();
    assert_eq!(
        Some("deserialize_vec".to_string()),
        collected[1].deserialization_fn
    );
    assert_eq!(None, collected[1].serialization_fn);
}

#[test]
fn test_attribute_requires_string_literal() {
    let fields = vec![FieldDecl {
        ident: "my_vec".to_string(),
        attrs: vec![AttrDecl {
            path: "serialize".to_string(),
            meta: MetaDecl::NameValue(LitDecl::Int("3".to_string())),
            arg_ident: None,
            span: 21,
        }],
    }];
    let diag = collect_named_fields_data(&fields, Target::ForSerialization).unwrap_err();
    assert_eq!("The `serialize` attribute requires a string literal", diag.message);
    assert_eq!(21, diag.span);
    // For the other direction the same attribute is ignored.
    assert!(collect_named_fields_data(&fields, Target::ForDeserialization).is_ok());
}

#[test]
fn test_unparsed_attribute_aborts_with_parser_message() {
    let fields = vec![FieldDecl {
        ident: "my_u32".to_string(),
        attrs: vec![AttrDecl {
            path: "serialize".to_string(),
            meta: MetaDecl::ParseFailed("expected literal".to_string()),
            arg_ident: None,
            span: 33,
        }],
    }];
    let diag = collect_named_fields_data(&fields, Target::ForDeserialization).unwrap_err();
    assert_eq!("expected literal", diag.message);
    assert_eq!(33, diag.span);
}

// ////////////////////////////////////////////////////////////////////
// STORAGE-REPRESENTATION DISCOVERY
// ////////////////////////////////////////////////////////////////////

fn repr_attr(arg: Option<&str>, span: usize) -> AttrDecl {
    AttrDecl {
        path: "repr".to_string(),
        meta: MetaDecl::OtherMeta,
        arg_ident: arg.map(|s| s.to_string()),
        span,
    }
}

fn enum_decl_with_attrs(attrs: Vec<AttrDecl>) -> TypeDecl {
    TypeDecl {
        ident: "MyEnum".to_string(),
        attrs,
        data: DataDecl::EnumData(vec![unit_variant("VarA", "0", 1)]),
        span: 9,
    }
}

#[test]
fn test_find_type_numeric_repr() {
    let decl = enum_decl_with_attrs(vec![repr_attr(Some("u16"), 2)]);
    assert_eq!("u16", find_type_numeric_repr(&decl).unwrap());

    // Attributes that do not qualify are passed over.
    let decl = enum_decl_with_attrs(vec![
        repr_attr(Some("f32"), 2),
        repr_attr(None, 3),
        repr_attr(Some("u300"), 4),
        repr_attr(Some("i64"), 5),
    ]);
    assert_eq!("i64", find_type_numeric_repr(&decl).unwrap());

    // Leading zeros still parse as an 8-bit width.
    let decl = enum_decl_with_attrs(vec![repr_attr(Some("u007"), 2)]);
    assert_eq!("u007", find_type_numeric_repr(&decl).unwrap());
}

#[test]
fn test_find_type_numeric_repr_not_found() {
    let decl = enum_decl_with_attrs(vec![repr_attr(Some("C"), 2)]);
    let diag = find_type_numeric_repr(&decl).unwrap_err();
    assert_eq!("Enum repr() not found", diag.message);
    assert_eq!(9, diag.span);

    let diag = impl_deserialize(&decl).unwrap_err();
    assert_eq!("Enum repr() not found", diag.message);
}

// ////////////////////////////////////////////////////////////////////
// VARIANT COLLECTION
// ////////////////////////////////////////////////////////////////////

#[test]
fn test_collect_variants_data() {
    let variants = vec![
        unit_variant("VarA", "0", 1),
        unit_variant("VarB", "1", 2),
        unit_variant("VarC", "65534", 3),
    ];
    let collected = collect_variants_data(&variants).unwrap();
    assert_eq!(3, collected.len());
    assert_eq!("VarA", collected[0].variant);
    assert_eq!("0", collected[0].discriminant);
    assert_eq!("VarC", collected[2].variant);
    assert_eq!("65534", collected[2].discriminant);
}

#[test]
fn test_variant_without_discriminant_is_rejected() {
    let variants = vec![
        unit_variant("VarA", "0", 1),
        VariantDecl {
            ident: "VarB".to_string(),
            discriminant: None,
            span: 2,
        },
    ];
    let diag = collect_variants_data(&variants).unwrap_err();
    assert_eq!("'VarB' variant discriminant not found", diag.message);
    assert_eq!(2, diag.span);

    let variants = vec![VariantDecl {
        ident: "VarA".to_string(),
        discriminant: Some(DiscriminantDecl::OtherExpr),
        span: 8,
    }];
    let diag = collect_variants_data(&variants).unwrap_err();
    assert_eq!("'VarA' variant discriminant not found", diag.message);
    assert_eq!(8, diag.span);
}

// ////////////////////////////////////////////////////////////////////
// TARGET
// ////////////////////////////////////////////////////////////////////

#[test]
fn test_target_attribute_name() {
    assert_eq!("serialize", Target::ForSerialization.attribute_name());
    assert_eq!("deserialize", Target::ForDeserialization.attribute_name());
}
