use crate::deserialize::{deserialize_vec, Deserialize};
use crate::error::CodecError;
use crate::primitive_types::{lemma_arr2_u16_decode_prefix, lemma_bool_decode_prefix,
    lemma_f32_decode_prefix, lemma_f64_decode_prefix, lemma_i16_decode_prefix,
    lemma_u32_decode_prefix, spec_encode_elems, F32Bits, F64Bits};
use crate::serialize::{serialize_vec, Serialize};
use crate::source::ByteSource;
use vstd::bytes::*;
use vstd::prelude::*;

verus! {

// ////////////////////////////////////////////////////////////////////
// STRUCT WITH NAMED FIELDS
// ////////////////////////////////////////////////////////////////////
// The capability implementations below follow the shape the emitters
// produce for these declarations — sequential per-field codecs with
// override delegation for the struct, discriminant case analysis for
// the enumeration — written out by hand and verified.

/// A record exercising every built-in field shape: integers, float
/// bit patterns, a fixed array, a boolean, and a trailing
/// variable-length byte field handled by the `serialize_vec` /
/// `deserialize_vec` override hooks.
pub struct MyNamedFieldsStruct {
    pub my_i16: i16,
    pub my_u32: u32,
    pub my_f32: F32Bits,
    pub my_f64: F64Bits,
    pub my_arr: [u16; 2],
    pub my_bool: bool,
    pub my_vec: Vec<u8>,
}

/// The mathematical contents of a [`MyNamedFieldsStruct`].
pub struct MyNamedFieldsStructView {
    pub my_i16: i16,
    pub my_u32: u32,
    pub my_f32: u32,
    pub my_f64: u64,
    pub my_arr: Seq<u16>,
    pub my_bool: bool,
    pub my_vec: Seq<u8>,
}

impl View for MyNamedFieldsStruct {
    type V = MyNamedFieldsStructView;

    open spec fn view(&self) -> MyNamedFieldsStructView {
        MyNamedFieldsStructView {
            my_i16: self.my_i16,
            my_u32: self.my_u32,
            my_f32: self.my_f32@,
            my_f64: self.my_f64@,
            my_arr: self.my_arr@,
            my_bool: self.my_bool,
            my_vec: self.my_vec@,
        }
    }
}

impl Serialize for MyNamedFieldsStruct {
    open spec fn wf_view(v: MyNamedFieldsStructView) -> bool {
        v.my_arr.len() == 2
    }

    open spec fn spec_encode(v: MyNamedFieldsStructView) -> Seq<u8> {
        <i16 as Serialize>::spec_encode(v.my_i16) + <u32 as Serialize>::spec_encode(v.my_u32)
            + <F32Bits as Serialize>::spec_encode(v.my_f32) + <F64Bits as Serialize>::spec_encode(
            v.my_f64,
        ) + spec_encode_elems::<u16>(v.my_arr) + <bool as Serialize>::spec_encode(v.my_bool)
            + v.my_vec
    }

    fn serialize(&self, w: &mut Vec<u8>) -> (res: Result<(), CodecError>) {
        self.my_i16.serialize(w)?;
        self.my_u32.serialize(w)?;
        self.my_f32.serialize(w)?;
        self.my_f64.serialize(w)?;
        self.my_arr.serialize(w)?;
        self.my_bool.serialize(w)?;
        serialize_vec(&self.my_vec, w)?;
        proof {
            assert(w@ =~= old(w)@ + Self::spec_encode(self@));
        }
        Ok(())
    }
}

impl Deserialize for MyNamedFieldsStruct {
    open spec fn spec_decode(bytes: Seq<u8>) -> Result<
        (MyNamedFieldsStructView, Seq<u8>),
        CodecError,
    > {
        match <i16 as Deserialize>::spec_decode(bytes) {
            Err(e) => Err(e),
            Ok((my_i16, b1)) => match <u32 as Deserialize>::spec_decode(b1) {
                Err(e) => Err(e),
                Ok((my_u32, b2)) => match <F32Bits as Deserialize>::spec_decode(b2) {
                    Err(e) => Err(e),
                    Ok((my_f32, b3)) => match <F64Bits as Deserialize>::spec_decode(b3) {
                        Err(e) => Err(e),
                        Ok((my_f64, b4)) => match <[u16; 2] as Deserialize>::spec_decode(b4) {
                            Err(e) => Err(e),
                            Ok((my_arr, b5)) => match <bool as Deserialize>::spec_decode(b5) {
                                Err(e) => Err(e),
                                Ok((my_bool, b6)) => Ok(
                                    (
                                        MyNamedFieldsStructView {
                                            my_i16,
                                            my_u32,
                                            my_f32,
                                            my_f64,
                                            my_arr,
                                            my_bool,
                                            my_vec: b6,
                                        },
                                        Seq::<u8>::empty(),
                                    ),
                                ),
                            },
                        },
                    },
                },
            },
        }
    }

    fn deserialize(r: &mut ByteSource) -> (res: Result<MyNamedFieldsStruct, CodecError>) {
        let my_i16 = i16::deserialize(r)?;
        let my_u32 = u32::deserialize(r)?;
        let my_f32 = F32Bits::deserialize(r)?;
        let my_f64 = F64Bits::deserialize(r)?;
        let my_arr = <[u16; 2]>::deserialize(r)?;
        let my_bool = bool::deserialize(r)?;
        let my_vec = deserialize_vec(r)?;
        let result = MyNamedFieldsStruct { my_i16, my_u32, my_f32, my_f64, my_arr, my_bool, my_vec };
        Ok(result)
    }

    proof fn theorem_round_trip(v: MyNamedFieldsStructView) {
        let e_i16 = <i16 as Serialize>::spec_encode(v.my_i16);
        let e_u32 = <u32 as Serialize>::spec_encode(v.my_u32);
        let e_f32 = <F32Bits as Serialize>::spec_encode(v.my_f32);
        let e_f64 = <F64Bits as Serialize>::spec_encode(v.my_f64);
        let e_arr = spec_encode_elems::<u16>(v.my_arr);
        let e_bool = <bool as Serialize>::spec_encode(v.my_bool);
        let whole = <MyNamedFieldsStruct as Serialize>::spec_encode(v);
        assert(whole =~= e_i16 + (e_u32 + (e_f32 + (e_f64 + (e_arr + (e_bool + v.my_vec))))));
        lemma_i16_decode_prefix(v.my_i16, e_u32 + (e_f32 + (e_f64 + (e_arr + (e_bool
            + v.my_vec)))));
        lemma_u32_decode_prefix(v.my_u32, e_f32 + (e_f64 + (e_arr + (e_bool + v.my_vec))));
        lemma_f32_decode_prefix(v.my_f32, e_f64 + (e_arr + (e_bool + v.my_vec)));
        lemma_f64_decode_prefix(v.my_f64, e_arr + (e_bool + v.my_vec));
        lemma_arr2_u16_decode_prefix(v.my_arr, e_bool + v.my_vec);
        lemma_bool_decode_prefix(v.my_bool, v.my_vec);
    }
}

/// Declaration-order property: the wire image of a record is the
/// concatenation of its fields' images, in declaration order, with no
/// separator.
pub proof fn lemma_struct_encode_is_field_concat(v: MyNamedFieldsStructView)
    ensures
        <MyNamedFieldsStruct as Serialize>::spec_encode(v) == <i16 as Serialize>::spec_encode(
            v.my_i16,
        ) + <u32 as Serialize>::spec_encode(v.my_u32) + <F32Bits as Serialize>::spec_encode(
            v.my_f32,
        ) + <F64Bits as Serialize>::spec_encode(v.my_f64) + spec_encode_elems::<u16>(v.my_arr)
            + <bool as Serialize>::spec_encode(v.my_bool) + v.my_vec,
{
}

/// Failure propagation: a source exhausted part-way through the
/// record's fixed-width prefix (23 bytes) makes decoding fail with
/// the I/O failure; no partial record is produced.
pub proof fn lemma_struct_decode_short_input(bytes: Seq<u8>)
    requires
        bytes.len() < 23,
    ensures
        <MyNamedFieldsStruct as Deserialize>::spec_decode(bytes) == Err::<
            (MyNamedFieldsStructView, Seq<u8>),
            CodecError,
        >(CodecError::Io),
{
    lemma_auto_spec_u16_to_from_le_bytes();
    lemma_auto_spec_u32_to_from_le_bytes();
    lemma_auto_spec_u64_to_from_le_bytes();
}

// ////////////////////////////////////////////////////////////////////
// ENUMS
// ////////////////////////////////////////////////////////////////////

/// An enumeration with storage representation `u16` and explicit
/// discriminants: `VarA` is 0, `VarB` is 1 and `VarC` is 65534 on the
/// wire.
#[derive(Clone, Copy, Debug, PartialEq, Eq, Structural)]
pub enum MyEnum {
    VarA,
    VarB,
    VarC,
}

/// The declared discriminant of each variant.
pub open spec fn spec_my_enum_discriminant(v: MyEnum) -> u16 {
    match v {
        MyEnum::VarA => 0,
        MyEnum::VarB => 1,
        MyEnum::VarC => 65534,
    }
}

impl View for MyEnum {
    type V = MyEnum;

    open spec fn view(&self) -> MyEnum {
        *self
    }
}

impl Serialize for MyEnum {
    open spec fn spec_encode(v: MyEnum) -> Seq<u8> {
        spec_u16_to_le_bytes(spec_my_enum_discriminant(v))
    }

    fn serialize(&self, w: &mut Vec<u8>) -> (res: Result<(), CodecError>) {
        let value: u16 = match self {
            MyEnum::VarA => 0,
            MyEnum::VarB => 1,
            MyEnum::VarC => 65534,
        };
        value.serialize(w)?;
        Ok(())
    }
}

impl Deserialize for MyEnum {
    open spec fn spec_decode(bytes: Seq<u8>) -> Result<(MyEnum, Seq<u8>), CodecError> {
        match <u16 as Deserialize>::spec_decode(bytes) {
            Err(e) => Err(e),
            Ok((value, rest)) => if value == 0 {
                Ok((MyEnum::VarA, rest))
            } else if value == 1 {
                Ok((MyEnum::VarB, rest))
            } else if value == 65534 {
                Ok((MyEnum::VarC, rest))
            } else {
                Err(CodecError::UnknownDiscriminant(value as u128))
            },
        }
    }

    fn deserialize(r: &mut ByteSource) -> (res: Result<MyEnum, CodecError>) {
        let value = u16::deserialize(r)?;
        let result = match value {
            0 => MyEnum::VarA,
            1 => MyEnum::VarB,
            65534 => MyEnum::VarC,
            _ => {
                return Err(CodecError::UnknownDiscriminant(value as u128));
            },
        };
        Ok(result)
    }

    proof fn theorem_round_trip(v: MyEnum) {
        <u16 as Deserialize>::theorem_round_trip(spec_my_enum_discriminant(v));
    }
}

/// Width invariant: the enumeration with storage `u16` encodes to
/// exactly 2 bytes.
pub proof fn lemma_my_enum_encoded_width()
    ensures
        forall|v: MyEnum| (#[trigger] <MyEnum as Serialize>::spec_encode(v)).len() == 2,
{
    lemma_auto_spec_u16_to_from_le_bytes();
}

/// Enumeration fatality: a two-byte image whose numeric value matches
/// no declared variant fails with the unrecoverable
/// `UnknownDiscriminant` error carrying that value.
pub proof fn lemma_my_enum_unknown_discriminant(bytes: Seq<u8>)
    requires
        bytes.len() >= 2,
        spec_u16_from_le_bytes(bytes.take(2)) != 0,
        spec_u16_from_le_bytes(bytes.take(2)) != 1,
        spec_u16_from_le_bytes(bytes.take(2)) != 65534,
    ensures
        <MyEnum as Deserialize>::spec_decode(bytes) == Err::<(MyEnum, Seq<u8>), CodecError>(
            CodecError::UnknownDiscriminant(spec_u16_from_le_bytes(bytes.take(2)) as u128),
        ),
{
}

/// Failure propagation: a source with fewer bytes than the storage
/// width fails with the I/O failure.
pub proof fn lemma_my_enum_decode_short_input(bytes: Seq<u8>)
    requires
        bytes.len() < 2,
    ensures
        <MyEnum as Deserialize>::spec_decode(bytes) == Err::<(MyEnum, Seq<u8>), CodecError>(
            CodecError::Io,
        ),
{
}

} // verus!

