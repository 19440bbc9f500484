use vstd::prelude::*;

verus! {

/// A build-time diagnostic: a message anchored to the offending
/// syntactic location.  The span is an index the host assigned to the
/// source location when it described the declaration.
#[derive(Debug)]
pub struct Diag {
    pub message: String,
    pub span: usize,
}

/// The mathematical contents of a [`Diag`].
pub struct DiagView {
    pub message: Seq<char>,
    pub span: nat,
}

impl View for Diag {
    type V = DiagView;

    open spec fn view(&self) -> DiagView {
        DiagView { message: self.message@, span: self.span as nat }
    }
}

} // verus!
