use crate::error::CodecError;
use vstd::prelude::*;

verus! {

/// The encode capability: a type that can write itself to a byte sink.
///
/// `spec_encode` is the wire image of a value: the exact byte sequence
/// that `serialize` appends to the sink.  It is a function of the
/// value alone, so repeated encodes of equal values yield identical
/// byte sequences.
///
/// The sink is an in-memory buffer, which never refuses a write, so
/// `serialize` always returns `Ok`; the `Result` is the shape shared
/// with user-supplied override hooks, which may fail.
pub trait Serialize: View + Sized {
    /// Which views are views of actual values.  The view of any value
    /// of the type satisfies this; it constrains the views for which
    /// laws such as the round-trip theorem are claimed.
    open spec fn wf_view(v: Self::V) -> bool {
        true
    }

    /// The little-endian wire image of a value with view `v`.
    spec fn spec_encode(v: Self::V) -> Seq<u8>;

    /// Append the wire image of `self` to the sink `w`.
    fn serialize(&self, w: &mut Vec<u8>) -> (res: Result<(), CodecError>)
        ensures
            res is Ok,
            final(w)@ == old(w)@ + Self::spec_encode(self@),
    ;
}

/// Byte-exactness: the wire image is a pure function of the value
/// alone, so values with equal views — in particular, one value
/// encoded twice — always yield identical byte sequences.
pub proof fn lemma_encode_deterministic<T: Serialize>(a: &T, b: &T)
    requires
        a@ == b@,
    ensures
        T::spec_encode(a@) == T::spec_encode(b@),
{
}

/// Override hook for a trailing variable-length byte field: writes the
/// bytes verbatim, with no length prefix.
pub fn serialize_vec(v: &Vec<u8>, w: &mut Vec<u8>) -> (res: Result<(), CodecError>)
    ensures
        res is Ok,
        final(w)@ == old(w)@ + v@,
{
    let mut bytes = v.clone();
    w.append(&mut bytes);
    Ok(())
}

} // verus!
