use crate::deserialize::Deserialize;
use crate::error::CodecError;
use crate::serialize::Serialize;
use crate::source::ByteSource;
use vstd::bytes::*;
use vstd::prelude::*;

verus! {

// ////////////////////////////////////////////////////////////////////
// UNSIGNED INTEGERS
// ////////////////////////////////////////////////////////////////////

impl Serialize for u8 {
    open spec fn spec_encode(v: u8) -> Seq<u8> {
        seq![v]
    }

    fn serialize(&self, w: &mut Vec<u8>) -> (res: Result<(), CodecError>) {
        w.push(*self);
        proof {
            assert(w@ =~= old(w)@ + seq![*self]);
        }
        Ok(())
    }
}

impl Deserialize for u8 {
    open spec fn spec_decode(bytes: Seq<u8>) -> Result<(u8, Seq<u8>), CodecError> {
        if bytes.len() < 1 {
            Err(CodecError::Io)
        } else {
            Ok((bytes[0], bytes.skip(1)))
        }
    }

    fn deserialize(r: &mut ByteSource) -> (res: Result<u8, CodecError>) {
        let bytes = r.read_exact(1)?;
        Ok(bytes[0])
    }

    proof fn theorem_round_trip(v: u8) {
        let img = seq![v];
        assert(img.skip(1) =~= Seq::<u8>::empty());
    }
}

impl Serialize for u16 {
    open spec fn spec_encode(v: u16) -> Seq<u8> {
        spec_u16_to_le_bytes(v)
    }

    fn serialize(&self, w: &mut Vec<u8>) -> (res: Result<(), CodecError>) {
        let mut bytes = u16_to_le_bytes(*self);
        w.append(&mut bytes);
        Ok(())
    }
}

impl Deserialize for u16 {
    open spec fn spec_decode(bytes: Seq<u8>) -> Result<(u16, Seq<u8>), CodecError> {
        if bytes.len() < 2 {
            Err(CodecError::Io)
        } else {
            Ok((spec_u16_from_le_bytes(bytes.take(2)), bytes.skip(2)))
        }
    }

    fn deserialize(r: &mut ByteSource) -> (res: Result<u16, CodecError>) {
        let bytes = r.read_exact(2)?;
        Ok(u16_from_le_bytes(bytes.as_slice()))
    }

    proof fn theorem_round_trip(v: u16) {
        lemma_auto_spec_u16_to_from_le_bytes();
        let img = spec_u16_to_le_bytes(v);
        assert(img.take(2) =~= img);
        assert(img.skip(2) =~= Seq::<u8>::empty());
    }
}

impl Serialize for u32 {
    open spec fn spec_encode(v: u32) -> Seq<u8> {
        spec_u32_to_le_bytes(v)
    }

    fn serialize(&self, w: &mut Vec<u8>) -> (res: Result<(), CodecError>) {
        let mut bytes = u32_to_le_bytes(*self);
        w.append(&mut bytes);
        Ok(())
    }
}

impl Deserialize for u32 {
    open spec fn spec_decode(bytes: Seq<u8>) -> Result<(u32, Seq<u8>), CodecError> {
        if bytes.len() < 4 {
            Err(CodecError::Io)
        } else {
            Ok((spec_u32_from_le_bytes(bytes.take(4)), bytes.skip(4)))
        }
    }

    fn deserialize(r: &mut ByteSource) -> (res: Result<u32, CodecError>) {
        let bytes = r.read_exact(4)?;
        Ok(u32_from_le_bytes(bytes.as_slice()))
    }

    proof fn theorem_round_trip(v: u32) {
        lemma_auto_spec_u32_to_from_le_bytes();
        let img = spec_u32_to_le_bytes(v);
        assert(img.take(4) =~= img);
        assert(img.skip(4) =~= Seq::<u8>::empty());
    }
}

impl Serialize for u64 {
    open spec fn spec_encode(v: u64) -> Seq<u8> {
        spec_u64_to_le_bytes(v)
    }

    fn serialize(&self, w: &mut Vec<u8>) -> (res: Result<(), CodecError>) {
        let mut bytes = u64_to_le_bytes(*self);
        w.append(&mut bytes);
        Ok(())
    }
}

impl Deserialize for u64 {
    open spec fn spec_decode(bytes: Seq<u8>) -> Result<(u64, Seq<u8>), CodecError> {
        if bytes.len() < 8 {
            Err(CodecError::Io)
        } else {
            Ok((spec_u64_from_le_bytes(bytes.take(8)), bytes.skip(8)))
        }
    }

    fn deserialize(r: &mut ByteSource) -> (res: Result<u64, CodecError>) {
        let bytes = r.read_exact(8)?;
        Ok(u64_from_le_bytes(bytes.as_slice()))
    }

    proof fn theorem_round_trip(v: u64) {
        lemma_auto_spec_u64_to_from_le_bytes();
        let img = spec_u64_to_le_bytes(v);
        assert(img.take(8) =~= img);
        assert(img.skip(8) =~= Seq::<u8>::empty());
    }
}

impl Serialize for u128 {
    open spec fn spec_encode(v: u128) -> Seq<u8> {
        spec_u128_to_le_bytes(v)
    }

    fn serialize(&self, w: &mut Vec<u8>) -> (res: Result<(), CodecError>) {
        let mut bytes = u128_to_le_bytes(*self);
        w.append(&mut bytes);
        Ok(())
    }
}

impl Deserialize for u128 {
    open spec fn spec_decode(bytes: Seq<u8>) -> Result<(u128, Seq<u8>), CodecError> {
        if bytes.len() < 16 {
            Err(CodecError::Io)
        } else {
            Ok((spec_u128_from_le_bytes(bytes.take(16)), bytes.skip(16)))
        }
    }

    fn deserialize(r: &mut ByteSource) -> (res: Result<u128, CodecError>) {
        let bytes = r.read_exact(16)?;
        Ok(u128_from_le_bytes(bytes.as_slice()))
    }

    proof fn theorem_round_trip(v: u128) {
        lemma_auto_spec_u128_to_from_le_bytes();
        let img = spec_u128_to_le_bytes(v);
        assert(img.take(16) =~= img);
        assert(img.skip(16) =~= Seq::<u8>::empty());
    }
}

// ////////////////////////////////////////////////////////////////////
// SIGNED INTEGERS
// ////////////////////////////////////////////////////////////////////
// A signed value is carried on the wire as the unsigned value with the
// same two's-complement bit pattern.

pub open spec fn i8_bits(x: i8) -> u8 {
    if x >= 0 {
        x as u8
    } else {
        (x + 0x100) as u8
    }
}

pub open spec fn i8_from_bits(u: u8) -> i8 {
    if u < 0x80 {
        u as i8
    } else {
        (u - 0x100) as i8
    }
}

pub open spec fn i16_bits(x: i16) -> u16 {
    if x >= 0 {
        x as u16
    } else {
        (x + 0x10000) as u16
    }
}

pub open spec fn i16_from_bits(u: u16) -> i16 {
    if u < 0x8000 {
        u as i16
    } else {
        (u - 0x10000) as i16
    }
}

pub open spec fn i32_bits(x: i32) -> u32 {
    if x >= 0 {
        x as u32
    } else {
        (x + 0x1_0000_0000) as u32
    }
}

pub open spec fn i32_from_bits(u: u32) -> i32 {
    if u < 0x8000_0000 {
        u as i32
    } else {
        (u - 0x1_0000_0000) as i32
    }
}

pub open spec fn i64_bits(x: i64) -> u64 {
    if x >= 0 {
        x as u64
    } else {
        (x + 0x1_0000_0000_0000_0000) as u64
    }
}

pub open spec fn i64_from_bits(u: u64) -> i64 {
    if u < 0x8000_0000_0000_0000 {
        u as i64
    } else {
        (u - 0x1_0000_0000_0000_0000) as i64
    }
}

pub open spec fn i128_bits(x: i128) -> u128 {
    if x >= 0 {
        x as u128
    } else {
        (x + 0x1_0000_0000_0000_0000_0000_0000_0000_0000) as u128
    }
}

pub open spec fn i128_from_bits(u: u128) -> i128 {
    if u < 0x8000_0000_0000_0000_0000_0000_0000_0000 {
        u as i128
    } else {
        (u - 0x1_0000_0000_0000_0000_0000_0000_0000_0000) as i128
    }
}

impl Serialize for i8 {
    open spec fn spec_encode(v: i8) -> Seq<u8> {
        seq![i8_bits(v)]
    }

    fn serialize(&self, w: &mut Vec<u8>) -> (res: Result<(), CodecError>) {
        let bits: u8 = if *self >= 0 {
            *self as u8
        } else {
            ((*self as i16) + 0x100) as u8
        };
        w.push(bits);
        proof {
            assert(w@ =~= old(w)@ + Self::spec_encode(*self));
        }
        Ok(())
    }
}

impl Deserialize for i8 {
    open spec fn spec_decode(bytes: Seq<u8>) -> Result<(i8, Seq<u8>), CodecError> {
        if bytes.len() < 1 {
            Err(CodecError::Io)
        } else {
            Ok((i8_from_bits(bytes[0]), bytes.skip(1)))
        }
    }

    fn deserialize(r: &mut ByteSource) -> (res: Result<i8, CodecError>) {
        let bits = u8::deserialize(r)?;
        Ok(
            if bits < 0x80 {
                bits as i8
            } else {
                ((bits as i16) - 0x100) as i8
            },
        )
    }

    proof fn theorem_round_trip(v: i8) {
        let img = seq![i8_bits(v)];
        assert(img.skip(1) =~= Seq::<u8>::empty());
    }
}

impl Serialize for i16 {
    open spec fn spec_encode(v: i16) -> Seq<u8> {
        spec_u16_to_le_bytes(i16_bits(v))
    }

    fn serialize(&self, w: &mut Vec<u8>) -> (res: Result<(), CodecError>) {
        let bits: u16 = if *self >= 0 {
            *self as u16
        } else {
            ((*self as i32) + 0x10000) as u16
        };
        let mut bytes = u16_to_le_bytes(bits);
        w.append(&mut bytes);
        Ok(())
    }
}

impl Deserialize for i16 {
    open spec fn spec_decode(bytes: Seq<u8>) -> Result<(i16, Seq<u8>), CodecError> {
        match <u16 as Deserialize>::spec_decode(bytes) {
            Ok((bits, rest)) => Ok((i16_from_bits(bits), rest)),
            Err(e) => Err(e),
        }
    }

    fn deserialize(r: &mut ByteSource) -> (res: Result<i16, CodecError>) {
        let bits = u16::deserialize(r)?;
        Ok(
            if bits < 0x8000 {
                bits as i16
            } else {
                ((bits as i32) - 0x10000) as i16
            },
        )
    }

    proof fn theorem_round_trip(v: i16) {
        <u16 as Deserialize>::theorem_round_trip(i16_bits(v));
    }
}

impl Serialize for i32 {
    open spec fn spec_encode(v: i32) -> Seq<u8> {
        spec_u32_to_le_bytes(i32_bits(v))
    }

    fn serialize(&self, w: &mut Vec<u8>) -> (res: Result<(), CodecError>) {
        let bits: u32 = if *self >= 0 {
            *self as u32
        } else {
            ((*self as i64) + 0x1_0000_0000) as u32
        };
        let mut bytes = u32_to_le_bytes(bits);
        w.append(&mut bytes);
        Ok(())
    }
}

impl Deserialize for i32 {
    open spec fn spec_decode(bytes: Seq<u8>) -> Result<(i32, Seq<u8>), CodecError> {
        match <u32 as Deserialize>::spec_decode(bytes) {
            Ok((bits, rest)) => Ok((i32_from_bits(bits), rest)),
            Err(e) => Err(e),
        }
    }

    fn deserialize(r: &mut ByteSource) -> (res: Result<i32, CodecError>) {
        let bits = u32::deserialize(r)?;
        Ok(
            if bits < 0x8000_0000 {
                bits as i32
            } else {
                ((bits as i64) - 0x1_0000_0000) as i32
            },
        )
    }

    proof fn theorem_round_trip(v: i32) {
        <u32 as Deserialize>::theorem_round_trip(i32_bits(v));
    }
}

impl Serialize for i64 {
    open spec fn spec_encode(v: i64) -> Seq<u8> {
        spec_u64_to_le_bytes(i64_bits(v))
    }

    fn serialize(&self, w: &mut Vec<u8>) -> (res: Result<(), CodecError>) {
        let bits: u64 = if *self >= 0 {
            *self as u64
        } else {
            ((*self as i128) + 0x1_0000_0000_0000_0000) as u64
        };
        let mut bytes = u64_to_le_bytes(bits);
        w.append(&mut bytes);
        Ok(())
    }
}

impl Deserialize for i64 {
    open spec fn spec_decode(bytes: Seq<u8>) -> Result<(i64, Seq<u8>), CodecError> {
        match <u64 as Deserialize>::spec_decode(bytes) {
            Ok((bits, rest)) => Ok((i64_from_bits(bits), rest)),
            Err(e) => Err(e),
        }
    }

    fn deserialize(r: &mut ByteSource) -> (res: Result<i64, CodecError>) {
        let bits = u64::deserialize(r)?;
        Ok(
            if bits < 0x8000_0000_0000_0000 {
                bits as i64
            } else {
                ((bits as i128) - 0x1_0000_0000_0000_0000) as i64
            },
        )
    }

    proof fn theorem_round_trip(v: i64) {
        <u64 as Deserialize>::theorem_round_trip(i64_bits(v));
    }
}

impl Serialize for i128 {
    open spec fn spec_encode(v: i128) -> Seq<u8> {
        spec_u128_to_le_bytes(i128_bits(v))
    }

    fn serialize(&self, w: &mut Vec<u8>) -> (res: Result<(), CodecError>) {
        let bits: u128 = if *self >= 0 {
            *self as u128
        } else {
            u128::MAX - ((-(*self + 1)) as u128)
        };
        proof {
            assert(bits == i128_bits(*self));
        }
        let mut bytes = u128_to_le_bytes(bits);
        w.append(&mut bytes);
        Ok(())
    }
}

impl Deserialize for i128 {
    open spec fn spec_decode(bytes: Seq<u8>) -> Result<(i128, Seq<u8>), CodecError> {
        match <u128 as Deserialize>::spec_decode(bytes) {
            Ok((bits, rest)) => Ok((i128_from_bits(bits), rest)),
            Err(e) => Err(e),
        }
    }

    fn deserialize(r: &mut ByteSource) -> (res: Result<i128, CodecError>) {
        let bits = u128::deserialize(r)?;
        let v: i128 = if bits < 0x8000_0000_0000_0000_0000_0000_0000_0000 {
            bits as i128
        } else {
            -((u128::MAX - bits) as i128) - 1
        };
        proof {
            assert(v == i128_from_bits(bits));
        }
        Ok(v)
    }

    proof fn theorem_round_trip(v: i128) {
        <u128 as Deserialize>::theorem_round_trip(i128_bits(v));
    }
}

// ////////////////////////////////////////////////////////////////////
// BOOLEAN
// ////////////////////////////////////////////////////////////////////

impl Serialize for bool {
    open spec fn spec_encode(v: bool) -> Seq<u8> {
        seq![if v { 1u8 } else { 0u8 }]
    }

    fn serialize(&self, w: &mut Vec<u8>) -> (res: Result<(), CodecError>) {
        w.push(if *self { 1 } else { 0 });
        proof {
            assert(w@ =~= old(w)@ + Self::spec_encode(*self));
        }
        Ok(())
    }
}

impl Deserialize for bool {
    /// Decoding is deliberately tolerant: any nonzero byte decodes to
    /// `true`, while the encoder only ever writes `1`.
    open spec fn spec_decode(bytes: Seq<u8>) -> Result<(bool, Seq<u8>), CodecError> {
        if bytes.len() < 1 {
            Err(CodecError::Io)
        } else {
            Ok((bytes[0] != 0, bytes.skip(1)))
        }
    }

    fn deserialize(r: &mut ByteSource) -> (res: Result<bool, CodecError>) {
        let bytes = r.read_exact(1)?;
        Ok(bytes[0] != 0)
    }

    proof fn theorem_round_trip(v: bool) {
        let img = <bool as Serialize>::spec_encode(v);
        assert(img.skip(1) =~= Seq::<u8>::empty());
    }
}

// ////////////////////////////////////////////////////////////////////
// FLOATING-POINT BIT PATTERNS
// ////////////////////////////////////////////////////////////////////
// A floating-point number is carried on the wire as the little-endian
// image of its IEEE-754 bit pattern.  The codec holds the pattern as
// a plain unsigned integer; hosts convert with `f32::to_bits` /
// `f32::from_bits` (and the `f64` pair) at the boundary.

/// The bit pattern of a 32-bit IEEE-754 value.  Its view is the
/// pattern itself.
#[derive(Clone, Copy, Debug, PartialEq, Eq, Structural)]
pub struct F32Bits {
    pub bits: u32,
}

impl View for F32Bits {
    type V = u32;

    open spec fn view(&self) -> u32 {
        self.bits
    }
}

impl F32Bits {
    pub fn new(bits: u32) -> (r: Self)
        ensures
            r@ == bits,
    {
        F32Bits { bits }
    }

    pub fn to_bits(&self) -> (r: u32)
        ensures
            r == self@,
    {
        self.bits
    }
}

impl Serialize for F32Bits {
    open spec fn spec_encode(v: u32) -> Seq<u8> {
        spec_u32_to_le_bytes(v)
    }

    fn serialize(&self, w: &mut Vec<u8>) -> (res: Result<(), CodecError>) {
        let mut bytes = u32_to_le_bytes(self.bits);
        w.append(&mut bytes);
        Ok(())
    }
}

impl Deserialize for F32Bits {
    open spec fn spec_decode(bytes: Seq<u8>) -> Result<(u32, Seq<u8>), CodecError> {
        <u32 as Deserialize>::spec_decode(bytes)
    }

    fn deserialize(r: &mut ByteSource) -> (res: Result<F32Bits, CodecError>) {
        let bits = u32::deserialize(r)?;
        Ok(F32Bits { bits })
    }

    proof fn theorem_round_trip(v: u32) {
        <u32 as Deserialize>::theorem_round_trip(v);
    }
}

/// The bit pattern of a 64-bit IEEE-754 value.  Its view is the
/// pattern itself.
#[derive(Clone, Copy, Debug, PartialEq, Eq, Structural)]
pub struct F64Bits {
    pub bits: u64,
}

impl View for F64Bits {
    type V = u64;

    open spec fn view(&self) -> u64 {
        self.bits
    }
}

impl F64Bits {
    pub fn new(bits: u64) -> (r: Self)
        ensures
            r@ == bits,
    {
        F64Bits { bits }
    }

    pub fn to_bits(&self) -> (r: u64)
        ensures
            r == self@,
    {
        self.bits
    }
}

impl Serialize for F64Bits {
    open spec fn spec_encode(v: u64) -> Seq<u8> {
        spec_u64_to_le_bytes(v)
    }

    fn serialize(&self, w: &mut Vec<u8>) -> (res: Result<(), CodecError>) {
        let mut bytes = u64_to_le_bytes(self.bits);
        w.append(&mut bytes);
        Ok(())
    }
}

impl Deserialize for F64Bits {
    open spec fn spec_decode(bytes: Seq<u8>) -> Result<(u64, Seq<u8>), CodecError> {
        <u64 as Deserialize>::spec_decode(bytes)
    }

    fn deserialize(r: &mut ByteSource) -> (res: Result<F64Bits, CodecError>) {
        let bits = u64::deserialize(r)?;
        Ok(F64Bits { bits })
    }

    proof fn theorem_round_trip(v: u64) {
        <u64 as Deserialize>::theorem_round_trip(v);
    }
}

// ////////////////////////////////////////////////////////////////////
// FIXED-LENGTH ARRAYS
// ////////////////////////////////////////////////////////////////////

/// The wire image of a sequence of elements: the concatenation of the
/// elements' images in positional order, with no separator.
pub open spec fn spec_encode_elems<T: Serialize>(s: Seq<T>) -> Seq<u8>
    decreases s.len(),
{
    if s.len() == 0 {
        Seq::empty()
    } else {
        spec_encode_elems(s.drop_last()) + T::spec_encode(s.last()@)
    }
}

impl<T: Serialize, const N: usize> Serialize for [T; N] {
    /// The view of an array always has exactly `N` elements.
    open spec fn wf_view(v: Seq<T>) -> bool {
        v.len() == N
    }

    open spec fn spec_encode(v: Seq<T>) -> Seq<u8> {
        spec_encode_elems(v)
    }

    fn serialize(&self, w: &mut Vec<u8>) -> (res: Result<(), CodecError>) {
        let mut i: usize = 0;
        while i < N
            invariant
                i <= N,
                w@ == old(w)@ + spec_encode_elems(self@.take(i as int)),
            decreases N - i,
        {
            let elem = vstd::array::array_index_get(self, i);
            match elem.serialize(w) {
                Ok(u) => u,
                Err(e) => {
                    proof {
                        assert(false);
                    }
                    return Err(e);
                },
            };
            proof {
                assert(self@.take(i + 1).drop_last() =~= self@.take(i as int));
                assert(self@.take(i + 1).last() == self@[i as int]);
            }
            i = i + 1;
        }
        proof {
            assert(self@.take(N as int) =~= self@);
        }
        Ok(())
    }
}

impl Deserialize for [u16; 2] {
    open spec fn spec_decode(bytes: Seq<u8>) -> Result<(Seq<u16>, Seq<u8>), CodecError> {
        match <u16 as Deserialize>::spec_decode(bytes) {
            Ok((x0, rest0)) => match <u16 as Deserialize>::spec_decode(rest0) {
                Ok((x1, rest1)) => Ok((seq![x0, x1], rest1)),
                Err(e) => Err(e),
            },
            Err(e) => Err(e),
        }
    }

    fn deserialize(r: &mut ByteSource) -> (res: Result<[u16; 2], CodecError>) {
        let x0 = u16::deserialize(r)?;
        let x1 = u16::deserialize(r)?;
        let arr = [x0, x1];
        proof {
            assert(arr@ =~= seq![x0, x1]);
        }
        Ok(arr)
    }

    proof fn theorem_round_trip(v: Seq<u16>) {
        lemma_auto_spec_u16_to_from_le_bytes();
        let img0 = spec_u16_to_le_bytes(v[0]);
        let img1 = spec_u16_to_le_bytes(v[1]);
        let s1 = seq![v[0]];
        let s0 = Seq::<u16>::empty();
        assert(v.drop_last() =~= s1);
        assert(s1.drop_last() =~= s0);
        assert(spec_encode_elems::<u16>(s0) == Seq::<u8>::empty());
        assert(spec_encode_elems::<u16>(s1) == spec_encode_elems::<u16>(s0) + img0);
        assert(spec_encode_elems::<u16>(v) == spec_encode_elems::<u16>(s1) + img1);
        assert(spec_encode_elems::<u16>(v) =~= img0 + img1);
        let img = img0 + img1;
        assert(img.take(2) =~= img0);
        assert(img.skip(2).take(2) =~= img1);
        assert(img.skip(2).skip(2) =~= Seq::<u8>::empty());
        assert(seq![v[0], v[1]] =~= v);
    }
}

// ////////////////////////////////////////////////////////////////////
// WIDTH INVARIANTS
// ////////////////////////////////////////////////////////////////////

/// Width invariant: a signed or unsigned integer of width W encodes
/// to exactly W/8 bytes.
pub proof fn lemma_integer_encoded_width()
    ensures
        forall|v: u8| (#[trigger] <u8 as Serialize>::spec_encode(v)).len() == 1,
        forall|v: u16| (#[trigger] <u16 as Serialize>::spec_encode(v)).len() == 2,
        forall|v: u32| (#[trigger] <u32 as Serialize>::spec_encode(v)).len() == 4,
        forall|v: u64| (#[trigger] <u64 as Serialize>::spec_encode(v)).len() == 8,
        forall|v: u128| (#[trigger] <u128 as Serialize>::spec_encode(v)).len() == 16,
        forall|v: i8| (#[trigger] <i8 as Serialize>::spec_encode(v)).len() == 1,
        forall|v: i16| (#[trigger] <i16 as Serialize>::spec_encode(v)).len() == 2,
        forall|v: i32| (#[trigger] <i32 as Serialize>::spec_encode(v)).len() == 4,
        forall|v: i64| (#[trigger] <i64 as Serialize>::spec_encode(v)).len() == 8,
        forall|v: i128| (#[trigger] <i128 as Serialize>::spec_encode(v)).len() == 16,
{
    lemma_auto_spec_u16_to_from_le_bytes();
    lemma_auto_spec_u32_to_from_le_bytes();
    lemma_auto_spec_u64_to_from_le_bytes();
    lemma_auto_spec_u128_to_from_le_bytes();
}

/// Width invariant: a floating-point bit pattern of width W encodes
/// to exactly W/8 bytes.
pub proof fn lemma_float_encoded_width()
    ensures
        forall|v: u32| (#[trigger] <F32Bits as Serialize>::spec_encode(v)).len() == 4,
        forall|v: u64| (#[trigger] <F64Bits as Serialize>::spec_encode(v)).len() == 8,
{
    lemma_auto_spec_u32_to_from_le_bytes();
    lemma_auto_spec_u64_to_from_le_bytes();
}

/// Width invariant: a boolean encodes to exactly 1 byte.
pub proof fn lemma_bool_encoded_width()
    ensures
        forall|v: bool| (#[trigger] <bool as Serialize>::spec_encode(v)).len() == 1,
{
}

/// Width invariant: a sequence of elements that each encode to `k`
/// bytes encodes to exactly `len * k` bytes.  In particular a fixed
/// array `[T; N]` encodes to `N * k` bytes.
pub proof fn lemma_array_encoded_width<T: Serialize>(s: Seq<T>, k: nat)
    requires
        forall|i: int| 0 <= i < s.len() ==> (#[trigger] T::spec_encode(s[i]@)).len() == k,
    ensures
        spec_encode_elems::<T>(s).len() == s.len() * k,
    decreases s.len(),
{
    if s.len() == 0 {
    } else {
        let d = s.drop_last();
        assert(forall|i: int| 0 <= i < d.len() ==> d[i] == s[i]);
        lemma_array_encoded_width::<T>(d, k);
        assert(s.last() == s[s.len() - 1]);
        assert((s.len() - 1) * k + k == s.len() * k) by (nonlinear_arith);
    }
}

// ////////////////////////////////////////////////////////////////////
// DECODING A STREAM THAT BEGINS WITH AN IMAGE
// ////////////////////////////////////////////////////////////////////
// Sequential composition rests on these laws: when a stream begins
// with the wire image of a value, decoding yields that value and
// leaves exactly the bytes that follow the image.

pub proof fn lemma_u16_decode_prefix(v: u16, rest: Seq<u8>)
    ensures
        <u16 as Deserialize>::spec_decode(<u16 as Serialize>::spec_encode(v) + rest) == Ok::<
            (u16, Seq<u8>),
            CodecError,
        >((v, rest)),
{
    lemma_auto_spec_u16_to_from_le_bytes();
    let img = spec_u16_to_le_bytes(v);
    assert((img + rest).take(2) =~= img);
    assert((img + rest).skip(2) =~= rest);
}

pub proof fn lemma_u32_decode_prefix(v: u32, rest: Seq<u8>)
    ensures
        <u32 as Deserialize>::spec_decode(<u32 as Serialize>::spec_encode(v) + rest) == Ok::<
            (u32, Seq<u8>),
            CodecError,
        >((v, rest)),
{
    lemma_auto_spec_u32_to_from_le_bytes();
    let img = spec_u32_to_le_bytes(v);
    assert((img + rest).take(4) =~= img);
    assert((img + rest).skip(4) =~= rest);
}

pub proof fn lemma_u64_decode_prefix(v: u64, rest: Seq<u8>)
    ensures
        <u64 as Deserialize>::spec_decode(<u64 as Serialize>::spec_encode(v) + rest) == Ok::<
            (u64, Seq<u8>),
            CodecError,
        >((v, rest)),
{
    lemma_auto_spec_u64_to_from_le_bytes();
    let img = spec_u64_to_le_bytes(v);
    assert((img + rest).take(8) =~= img);
    assert((img + rest).skip(8) =~= rest);
}

pub proof fn lemma_u128_decode_prefix(v: u128, rest: Seq<u8>)
    ensures
        <u128 as Deserialize>::spec_decode(<u128 as Serialize>::spec_encode(v) + rest) == Ok::<
            (u128, Seq<u8>),
            CodecError,
        >((v, rest)),
{
    lemma_auto_spec_u128_to_from_le_bytes();
    let img = spec_u128_to_le_bytes(v);
    assert((img + rest).take(16) =~= img);
    assert((img + rest).skip(16) =~= rest);
}

pub proof fn lemma_u8_decode_prefix(v: u8, rest: Seq<u8>)
    ensures
        <u8 as Deserialize>::spec_decode(<u8 as Serialize>::spec_encode(v) + rest) == Ok::<
            (u8, Seq<u8>),
            CodecError,
        >((v, rest)),
{
    let img = seq![v];
    assert((img + rest)[0] == v);
    assert((img + rest).skip(1) =~= rest);
}

pub proof fn lemma_i8_decode_prefix(v: i8, rest: Seq<u8>)
    ensures
        <i8 as Deserialize>::spec_decode(<i8 as Serialize>::spec_encode(v) + rest) == Ok::<
            (i8, Seq<u8>),
            CodecError,
        >((v, rest)),
{
    let img = seq![i8_bits(v)];
    assert((img + rest)[0] == i8_bits(v));
    assert((img + rest).skip(1) =~= rest);
}

pub proof fn lemma_i16_decode_prefix(v: i16, rest: Seq<u8>)
    ensures
        <i16 as Deserialize>::spec_decode(<i16 as Serialize>::spec_encode(v) + rest) == Ok::<
            (i16, Seq<u8>),
            CodecError,
        >((v, rest)),
{
    lemma_u16_decode_prefix(i16_bits(v), rest);
}

pub proof fn lemma_i32_decode_prefix(v: i32, rest: Seq<u8>)
    ensures
        <i32 as Deserialize>::spec_decode(<i32 as Serialize>::spec_encode(v) + rest) == Ok::<
            (i32, Seq<u8>),
            CodecError,
        >((v, rest)),
{
    lemma_u32_decode_prefix(i32_bits(v), rest);
}

pub proof fn lemma_i64_decode_prefix(v: i64, rest: Seq<u8>)
    ensures
        <i64 as Deserialize>::spec_decode(<i64 as Serialize>::spec_encode(v) + rest) == Ok::<
            (i64, Seq<u8>),
            CodecError,
        >((v, rest)),
{
    lemma_u64_decode_prefix(i64_bits(v), rest);
}

pub proof fn lemma_i128_decode_prefix(v: i128, rest: Seq<u8>)
    ensures
        <i128 as Deserialize>::spec_decode(<i128 as Serialize>::spec_encode(v) + rest) == Ok::<
            (i128, Seq<u8>),
            CodecError,
        >((v, rest)),
{
    lemma_u128_decode_prefix(i128_bits(v), rest);
}

pub proof fn lemma_f32_decode_prefix(v: u32, rest: Seq<u8>)
    ensures
        <F32Bits as Deserialize>::spec_decode(<F32Bits as Serialize>::spec_encode(v) + rest)
            == Ok::<(u32, Seq<u8>), CodecError>((v, rest)),
{
    lemma_u32_decode_prefix(v, rest);
}

pub proof fn lemma_f64_decode_prefix(v: u64, rest: Seq<u8>)
    ensures
        <F64Bits as Deserialize>::spec_decode(<F64Bits as Serialize>::spec_encode(v) + rest)
            == Ok::<(u64, Seq<u8>), CodecError>((v, rest)),
{
    lemma_u64_decode_prefix(v, rest);
}

pub proof fn lemma_bool_decode_prefix(v: bool, rest: Seq<u8>)
    ensures
        <bool as Deserialize>::spec_decode(<bool as Serialize>::spec_encode(v) + rest) == Ok::<
            (bool, Seq<u8>),
            CodecError,
        >((v, rest)),
{
    let img = <bool as Serialize>::spec_encode(v);
    assert((img + rest)[0] == img[0]);
    assert((img + rest).skip(1) =~= rest);
}

pub proof fn lemma_arr2_u16_decode_prefix(v: Seq<u16>, rest: Seq<u8>)
    requires
        v.len() == 2,
    ensures
        <[u16; 2] as Deserialize>::spec_decode(<[u16; 2] as Serialize>::spec_encode(v) + rest)
            == Ok::<(Seq<u16>, Seq<u8>), CodecError>((v, rest)),
{
    let img0 = spec_u16_to_le_bytes(v[0]);
    let img1 = spec_u16_to_le_bytes(v[1]);
    let s1 = seq![v[0]];
    let s0 = Seq::<u16>::empty();
    assert(v.drop_last() =~= s1);
    assert(s1.drop_last() =~= s0);
    assert(spec_encode_elems::<u16>(s0) == Seq::<u8>::empty());
    assert(spec_encode_elems::<u16>(s1) == spec_encode_elems::<u16>(s0) + img0);
    assert(spec_encode_elems::<u16>(v) == spec_encode_elems::<u16>(s1) + img1);
    assert(spec_encode_elems::<u16>(v) =~= img0 + img1);
    assert(spec_encode_elems::<u16>(v) + rest =~= img0 + (img1 + rest));
    lemma_u16_decode_prefix(v[0], img1 + rest);
    lemma_u16_decode_prefix(v[1], rest);
    assert(seq![v[0], v[1]] =~= v);
}

/// The tolerated asymmetry of the boolean codec: any nonzero byte
/// decodes to `true`, though the encoder writes only `1`.
pub proof fn lemma_bool_decode_tolerant(b: u8, rest: Seq<u8>)
    requires
        b != 0,
    ensures
        <bool as Deserialize>::spec_decode(seq![b] + rest) == Ok::<(bool, Seq<u8>), CodecError>(
            (true, rest),
        ),
{
    assert((seq![b] + rest)[0] == b);
    assert((seq![b] + rest).skip(1) =~= rest);
}

} // verus!
