//! A writer that checksums what it is given.

use vstd::prelude::*;

use crate::byte_order::be_bytes;
use crate::byte_order::write_u64;
use crate::config::ChecksumConfig;
use crate::config::HashAlgorithm;
use crate::error::Error;
use crate::stream::Write;

verus! {

/// Hands every buffer on to the stream inside it, and feeds it to a checksum
/// accumulator on the way.
///
/// The accumulator sees each buffer in full before the stream inside is
/// asked to take it: the checksum covers what the caller meant to write,
/// also where the stream took only part of it.
pub struct ChecksumWriter<C, W> where C: ChecksumConfig {
    hasher: C::Hasher,
    inner: W,
}

impl<C, W> ChecksumWriter<C, W> where C: ChecksumConfig, W: Write {
    /// The bytes that the checksum covers so far.
    pub closed spec fn hashed(&self) -> Seq<u8> {
        self.hasher.fed()
    }

    /// The stream inside.
    pub closed spec fn inner(&self) -> W {
        self.inner
    }

    /// What `write_checksum` appends: the digest of the bytes hashed so far,
    /// as eight bytes, big end first.
    pub open spec fn trailer(&self) -> Seq<u8> {
        be_bytes(C::Hasher::checksum(self.hashed()) as nat, 8)
    }

    /// A writer around `inner` that has hashed nothing yet.
    pub fn new(inner: W) -> (s: Self)
        ensures
            s.hashed() == Seq::<u8>::empty(),
            s.inner() == inner,
    {
        ChecksumWriter { hasher: C::Hasher::new(), inner }
    }

    /// The digest of all that was written, without touching the stream.
    pub fn finalize_checksum(self) -> (d: u64)
        ensures
            d == C::Hasher::checksum(self.hashed()),
    {
        self.hasher.finalize()
    }

    /// Appends the digest of all that was written to the stream inside, as
    /// eight bytes with the big end first, and hands the stream back with the
    /// number of bytes appended.
    pub fn write_checksum(self) -> (res: (Result<usize, Error>, W))
        ensures
            res.0 matches Ok(n) ==> n == 8,
            self.inner().reliable() ==> {
                &&& res.0 is Ok
                &&& res.1.wrote(&self.inner(), self.trailer())
            },
    {
        let mut w = self.inner;
        let crc = self.hasher.finalize();
        match write_u64(&mut w, crc) {
            Ok(()) => (Ok(8), w),
            Err(e) => (Err(e), w),
        }
    }

    /// A look at the stream inside.
    pub fn get_ref(&self) -> (w: &W)
        ensures
            *w == self.inner(),
    {
        &self.inner
    }

    /// Gives up the checksum and hands back the stream inside.
    pub fn into_inner(self) -> (w: W)
        ensures
            w == self.inner(),
    {
        self.inner
    }
}

impl<C, W> Write for ChecksumWriter<C, W> where C: ChecksumConfig, W: Write {
    open spec fn reliable(&self) -> bool {
        self.inner().reliable()
    }

    open spec fn wrote(&self, before: &Self, bytes: Seq<u8>) -> bool {
        &&& self.hashed() == before.hashed() + bytes
        &&& self.inner().wrote(&before.inner(), bytes)
    }

    proof fn lemma_wrote_nothing(&self) {
        self.inner().lemma_wrote_nothing();
        assert(self.hashed() + Seq::<u8>::empty() =~= self.hashed());
    }

    proof fn lemma_wrote_more(&self, mid: &Self, before: &Self, first: Seq<u8>, then: Seq<u8>) {
        self.inner().lemma_wrote_more(&mid.inner(), &before.inner(), first, then);
        assert((before.hashed() + first) + then =~= before.hashed() + (first + then));
    }

    proof fn lemma_wrote_reliable(&self, before: &Self, bytes: Seq<u8>) {
        self.inner().lemma_wrote_reliable(&before.inner(), bytes);
    }

    /// Feeds all of `buf` to the checksum, then offers it to the stream
    /// inside.
    fn write(&mut self, buf: &[u8]) -> (r: Result<usize, Error>)
        ensures
            final(self).hashed() == old(self).hashed() + buf@,
    {
        self.hasher.update(buf);
        self.inner.write(buf)
    }

    fn flush(&mut self) -> (r: Result<(), Error>)
        ensures
            final(self).hashed() == old(self).hashed(),
    {
        assert(self.hashed() + Seq::<u8>::empty() =~= self.hashed());
        self.inner.flush()
    }
}

} // verus!
