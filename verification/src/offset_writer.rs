//! A writer that counts.

use vstd::prelude::*;

use crate::error::Error;
use crate::stream::count_on;
use crate::stream::Write;

verus! {

/// Hands every buffer on to the stream inside it, and counts the bytes that
/// the stream took.
pub struct OffsetWriter<W> {
    inner: W,
    offset: usize,
}

impl<W: Write> OffsetWriter<W> {
    /// The stream inside.
    pub closed spec fn inner(&self) -> W {
        self.inner
    }

    /// The number of bytes written so far.
    pub closed spec fn spec_offset(&self) -> usize {
        self.offset
    }

    /// A writer around `inner` that has counted nothing yet.
    pub fn new(inner: W) -> (s: Self)
        ensures
            s.inner() == inner,
            s.offset() == 0,
    {
        Self { inner, offset: 0 }
    }

    /// The number of bytes written so far.
    #[verifier::when_used_as_spec(spec_offset)]
    pub fn offset(&self) -> (n: usize)
        ensures
            n == self.offset(),
    {
        self.offset
    }

    /// A look at the stream inside.
    pub fn get_ref(&self) -> (w: &W)
        ensures
            *w == self.inner(),
    {
        &self.inner
    }

    /// Gives up the count and hands back the stream inside.
    pub fn into_inner(self) -> (w: W)
        ensures
            w == self.inner(),
    {
        self.inner
    }
}

impl<W: Write> Write for OffsetWriter<W> {
    open spec fn reliable(&self) -> bool {
        self.inner().reliable()
    }

    open spec fn wrote(&self, before: &Self, bytes: Seq<u8>) -> bool {
        &&& self.offset() == count_on(before.offset(), bytes.len())
        &&& self.inner().wrote(&before.inner(), bytes)
    }

    proof fn lemma_wrote_nothing(&self) {
        self.inner().lemma_wrote_nothing();
    }

    proof fn lemma_wrote_more(&self, mid: &Self, before: &Self, first: Seq<u8>, then: Seq<u8>) {
        self.inner().lemma_wrote_more(&mid.inner(), &before.inner(), first, then);
    }

    proof fn lemma_wrote_reliable(&self, before: &Self, bytes: Seq<u8>) {
        self.inner().lemma_wrote_reliable(&before.inner(), bytes);
    }

    /// Offers `buf` to the stream inside and counts what it took.
    fn write(&mut self, buf: &[u8]) -> (r: Result<usize, Error>)
        ensures
            match r {
                Ok(n) => final(self).offset() == count_on(old(self).offset(), n as nat),
                Err(_) => final(self).offset() == old(self).offset(),
            },
    {
        let n = match self.inner.write(buf) {
            Ok(n) => n,
            Err(e) => {
                return Err(e);
            },
        };
        self.offset = self.offset.saturating_add(n);
        Ok(n)
    }

    fn flush(&mut self) -> (r: Result<(), Error>)
        ensures
            final(self).offset() == old(self).offset(),
    {
        self.inner.flush()
    }
}

} // verus!
