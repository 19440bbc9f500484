use crate::error::CodecError;
use crate::serialize::Serialize;
use crate::source::ByteSource;
use vstd::prelude::*;

verus! {

/// The decode capability: a type that can read itself from a byte
/// source.
///
/// `spec_decode` says, for the full sequence of bytes remaining in the
/// source, exactly what `deserialize` does: either the view of the
/// value returned together with the bytes left unread, or the error
/// returned.  On success the source holds exactly those leftover
/// bytes; after a failure the source is poisoned and only its
/// well-formedness is promised.
pub trait Deserialize: View + Sized {
    /// Total description of decoding from `bytes`: the decoded view
    /// and the remaining bytes, or the failure.
    spec fn spec_decode(bytes: Seq<u8>) -> Result<(Self::V, Seq<u8>), CodecError>;

    /// Read one value from the source.
    fn deserialize(r: &mut ByteSource) -> (res: Result<Self, CodecError>)
        requires
            old(r).wf(),
        ensures
            final(r).wf(),
            match res {
                Ok(v) => Self::spec_decode(old(r)@) == Ok::<(Self::V, Seq<u8>), CodecError>(
                    (v@, final(r)@),
                ),
                Err(e) => Self::spec_decode(old(r)@) == Err::<(Self::V, Seq<u8>), CodecError>(e),
            },
    ;

    /// The round-trip law: decoding the wire image of a value yields
    /// that value back and consumes the image exactly.
    proof fn theorem_round_trip(v: Self::V) where Self: Serialize
        requires
            <Self as Serialize>::wf_view(v),
        ensures
            Self::spec_decode(<Self as Serialize>::spec_encode(v)) == Ok::<
                (Self::V, Seq<u8>),
                CodecError,
            >((v, Seq::<u8>::empty())),
    ;
}

/// Override hook for a trailing variable-length byte field: consumes
/// the source to its end and yields the bytes read.  On an in-memory
/// source this cannot fail.
pub fn deserialize_vec(r: &mut ByteSource) -> (res: Result<Vec<u8>, CodecError>)
    requires
        old(r).wf(),
    ensures
        final(r).wf(),
        match res {
            Ok(v) => v@ == old(r)@ && final(r)@ == Seq::<u8>::empty(),
            Err(_) => false,
        },
{
    Ok(r.read_to_end())
}

} // verus!
