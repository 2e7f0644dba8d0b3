//! A reader that counts.

use vstd::prelude::*;

use crate::error::Error;
use crate::stream::count_on;
use crate::stream::Read;

verus! {

/// Reads from the stream inside it, and counts the bytes that came.
pub struct OffsetReader<R> {
    inner: R,
    offset: usize,
}

impl<R: Read> OffsetReader<R> {
    /// The stream inside.
    pub closed spec fn inner(&self) -> R {
        self.inner
    }

    /// The number of bytes read so far.
    pub closed spec fn spec_offset(&self) -> usize {
        self.offset
    }

    /// A reader around `inner` that has counted nothing yet.
    pub fn new(inner: R) -> (s: Self)
        ensures
            s.inner() == inner,
            s.offset() == 0,
    {
        Self { inner, offset: 0 }
    }

    /// The number of bytes read so far.
    #[verifier::when_used_as_spec(spec_offset)]
    pub fn offset(&self) -> (n: usize)
        ensures
            n == self.offset(),
    {
        self.offset
    }

    /// A look at the stream inside.
    pub fn get_ref(&self) -> (r: &R)
        ensures
            *r == self.inner(),
    {
        &self.inner
    }

    /// Gives up the count and hands back the stream inside.
    pub fn into_inner(self) -> (r: R)
        ensures
            r == self.inner(),
    {
        self.inner
    }
}

impl<R: Read> Read for OffsetReader<R> {
    open spec fn pending(&self) -> Seq<u8> {
        self.inner().pending()
    }

    open spec fn reliable(&self) -> bool {
        self.inner().reliable()
    }

    open spec fn took(&self, before: &Self, bytes: Seq<u8>) -> bool {
        &&& self.offset() == count_on(before.offset(), bytes.len())
        &&& self.inner().took(&before.inner(), bytes)
    }

    proof fn lemma_took_nothing(&self) {
        self.inner().lemma_took_nothing();
    }

    proof fn lemma_took_more(&self, mid: &Self, before: &Self, first: Seq<u8>, then: Seq<u8>) {
        self.inner().lemma_took_more(&mid.inner(), &before.inner(), first, then);
    }

    proof fn lemma_took_pending(&self, before: &Self, bytes: Seq<u8>) {
        self.inner().lemma_took_pending(&before.inner(), bytes);
    }

    /// Reads from the stream inside and counts what came.
    fn read(&mut self, buf: &mut [u8]) -> (r: Result<usize, Error>)
        ensures
            match r {
                Ok(n) => final(self).offset() == count_on(old(self).offset(), n as nat),
                Err(_) => final(self).offset() == old(self).offset(),
            },
    {
        let n = match self.inner.read(buf) {
            Ok(n) => n,
            Err(e) => {
                return Err(e);
            },
        };
        self.offset = self.offset.saturating_add(n);
        Ok(n)
    }
}

} // verus!
