//! A minimalist binary serialization framework for fixed-layout
//! records.
//!
//! A record type is written to a byte sink as the concatenation of the
//! little-endian images of its fields, in declaration order, with no
//! prefixes, tags or padding; decoding reads that same concatenation
//! back.

pub mod ast;
pub mod collection;
pub mod deserialize;
pub mod diag;
pub mod emit_deserialize;
pub mod emit_serialize;
pub mod error;
pub mod fields_data;
pub mod primitive_types;
pub mod samples;
pub mod serialize;
pub mod source;
pub mod target;

pub use ast::{AttrDecl, DataDecl, DiscriminantDecl, FieldDecl, LitDecl, MetaDecl, TypeDecl,
    VariantDecl};
pub use collection::{collect_named_fields_data, collect_variants_data, find_type_numeric_repr};
pub use deserialize::{deserialize_vec, Deserialize};
pub use diag::Diag;
pub use emit_deserialize::impl_deserialize;
pub use emit_serialize::impl_serialize;
pub use error::CodecError;
pub use fields_data::{NamedFieldData, VariantData};
pub use primitive_types::{F32Bits, F64Bits};
pub use samples::{MyEnum, MyNamedFieldsStruct};
pub use serialize::{serialize_vec, Serialize};
pub use source::ByteSource;
pub use target::Target;
