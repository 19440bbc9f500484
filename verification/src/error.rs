use vstd::prelude::*;

verus! {

/// Failure conditions of the codec runtime.
///
/// `Io` is the I/O failure: the byte source could not deliver the
/// requested number of bytes (short read).  After an `Io` failure the
/// source must be treated as poisoned.
///
/// `UnknownDiscriminant` carries the numeric value read for an
/// enumeration when that value matches no declared variant.  The
/// condition is unrecoverable for the caller: no variant exists that
/// could represent the value, so decoding cannot continue in any
/// meaningful way.
#[derive(Clone, Copy, Debug, PartialEq, Eq, Structural)]
pub enum CodecError {
    Io,
    UnknownDiscriminant(u128),
}

} // verus!
