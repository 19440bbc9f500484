use crate::error::CodecError;
use vstd::prelude::*;

verus! {

/// A streaming byte source over an in-memory buffer.
///
/// The view of a `ByteSource` is the sequence of bytes that have not
/// yet been read.  Reading advances through the buffer; a request for
/// more bytes than remain fails with [`CodecError::Io`] and leaves the
/// source poisoned (no promise is made about its remaining contents).
pub struct ByteSource {
    data: Vec<u8>,
    pos: usize,
}

impl View for ByteSource {
    type V = Seq<u8>;

    closed spec fn view(&self) -> Seq<u8> {
        self.data@.skip(self.pos as int)
    }
}

impl ByteSource {
    pub closed spec fn wf(&self) -> bool {
        self.pos <= self.data@.len()
    }

    /// A source that will deliver exactly the bytes of `data`.
    pub fn new(data: Vec<u8>) -> (s: Self)
        ensures
            s.wf(),
            s@ == data@,
    {
        let s = ByteSource { data, pos: 0 };
        proof {
            assert(s@ =~= s.data@);
        }
        s
    }

    /// Read exactly `n` bytes, or fail with `CodecError::Io` when fewer
    /// than `n` remain.
    pub fn read_exact(&mut self, n: usize) -> (res: Result<Vec<u8>, CodecError>)
        requires
            old(self).wf(),
        ensures
            final(self).wf(),
            n <= old(self)@.len() ==> (match res {
                Ok(bytes) => bytes@ == old(self)@.take(n as int) && final(self)@ == old(
                    self,
                )@.skip(n as int),
                Err(_) => false,
            }),
            n > old(self)@.len() ==> res == Err::<Vec<u8>, CodecError>(CodecError::Io),
    {
        if n > self.data.len() - self.pos {
            return Err(CodecError::Io);
        }
        let mut bytes: Vec<u8> = Vec::new();
        let start = self.pos;
        let mut i: usize = 0;
        while i < n
            invariant
                start + n <= self.data@.len(),
                self.data@.len() <= usize::MAX,
                i <= n,
                self.pos == start,
                bytes@ =~= self.data@.subrange(start as int, start + i),
            decreases n - i,
        {
            bytes.push(self.data[start + i]);
            i = i + 1;
        }
        self.pos = start + n;
        proof {
            assert(bytes@ =~= old(self)@.take(n as int));
            assert(self@ =~= old(self)@.skip(n as int));
        }
        Ok(bytes)
    }

    /// Read all remaining bytes, leaving the source empty.  On an
    /// in-memory source this cannot fail.
    pub fn read_to_end(&mut self) -> (bytes: Vec<u8>)
        requires
            old(self).wf(),
        ensures
            final(self).wf(),
            bytes@ == old(self)@,
            final(self)@ == Seq::<u8>::empty(),
    {
        let n = self.data.len() - self.pos;
        let res = self.read_exact(n);
        match res {
            Ok(bytes) => {
                proof {
                    assert(bytes@ =~= old(self)@);
                    assert(self@ =~= Seq::<u8>::empty());
                }
                bytes
            },
            Err(_) => {
                proof {
                    assert(false);
                }
                Vec::new()
            },
        }
    }
}

} // verus!
