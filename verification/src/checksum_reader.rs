//! A reader that checksums what it hands out.

use vstd::prelude::*;
use vstd::slice::slice_subrange;

use crate::byte_order::be_value;
use crate::byte_order::read_u64;
use crate::config::ChecksumConfig;
use crate::config::HashAlgorithm;
use crate::digits::hex;
use crate::digits::push_hex;
use crate::error::Error;
use crate::error::ErrorKind;
use crate::stream::Read;

verus! {

/// What a failed verification says: both digests in hexadecimal, then what
/// the caller was doing.
pub open spec fn mismatch_message(expected: u64, got: u64, context: Seq<char>) -> Seq<char> {
    "crc32 checksum mismatch: expected "@ + hex(expected as nat) + ", got "@ + hex(got as nat)
        + ", while "@ + context
}

/// Reads from the stream inside it, and feeds the bytes that were read to a
/// checksum accumulator.
pub struct ChecksumReader<C, R> where C: ChecksumConfig {
    hasher: C::Hasher,
    inner: R,
}

impl<C, R> ChecksumReader<C, R> where C: ChecksumConfig, R: Read {
    /// The bytes that the checksum covers so far.
    pub closed spec fn hashed(&self) -> Seq<u8> {
        self.hasher.fed()
    }

    /// The stream inside.
    pub closed spec fn inner(&self) -> R {
        self.inner
    }

    /// The digest of the bytes hashed so far.
    pub open spec fn digest(&self) -> u64 {
        C::Hasher::checksum(self.hashed())
    }

    /// The pending bytes begin with the digest of the bytes hashed so far.
    pub open spec fn matches_trailer(&self) -> bool {
        &&& self.inner().pending().len() >= 8
        &&& be_value(self.inner().pending().take(8)) == self.digest()
    }

    /// A reader around `inner` that has hashed nothing yet.
    pub fn new(inner: R) -> (s: Self)
        ensures
            s.hashed() == Seq::<u8>::empty(),
            s.inner() == inner,
    {
        ChecksumReader { hasher: C::Hasher::new(), inner }
    }

    /// The digest of all that was read, without touching the stream.
    pub fn finalize_checksum(self) -> (d: u64)
        ensures
            d == self.digest(),
    {
        self.hasher.finalize()
    }

    /// A look at the stream inside.
    pub fn get_ref(&self) -> (r: &R)
        ensures
            *r == self.inner(),
    {
        &self.inner
    }

    /// Gives up the checksum and hands back the stream inside.
    pub fn into_inner(self) -> (r: R)
        ensures
            r == self.inner(),
    {
        self.inner
    }

    /// Reads eight more bytes from the stream inside and holds them, as a
    /// number with the big end first, against the digest of all that was
    /// read before. Hands the stream back.
    ///
    /// A difference is an error of kind `InvalidData`; its message names both
    /// numbers and ends with `context`.
    pub fn verify_checksum(self, context: &str) -> (res: (Result<(), Error>, R))
        ensures
            res.0 is Ok ==> {
                &&& self.matches_trailer()
                &&& res.1.took(&self.inner(), self.inner().pending().take(8))
            },
            self.inner().reliable() ==> {
                if self.inner().pending().len() < 8 {
                    res.0 matches Err(e) && e.kind == ErrorKind::UnexpectedEof
                } else if self.matches_trailer() {
                    res.0 is Ok
                } else {
                    &&& res.1.took(&self.inner(), self.inner().pending().take(8))
                    &&& res.0 matches Err(e)
                    &&& e.kind == ErrorKind::InvalidData
                    &&& e.message@ == mismatch_message(
                        self.digest(),
                        be_value(self.inner().pending().take(8)) as u64,
                        context@,
                    )
                }
            },
    {
        let mut r = self.inner;
        let actual = self.hasher.finalize();
        match read_u64(&mut r) {
            Ok(got) => {
                if actual != got {
                    let mut message = "crc32 checksum mismatch: expected ".to_owned();
                    push_hex(&mut message, actual);
                    message.append(", got ");
                    push_hex(&mut message, got);
                    message.append(", while ");
                    message.append(context);
                    (Err(Error::new(ErrorKind::InvalidData, message)), r)
                } else {
                    (Ok(()), r)
                }
            },
            Err(e) => (Err(e), r),
        }
    }
}

impl<C, R> Read for ChecksumReader<C, R> where C: ChecksumConfig, R: Read {
    open spec fn pending(&self) -> Seq<u8> {
        self.inner().pending()
    }

    open spec fn reliable(&self) -> bool {
        self.inner().reliable()
    }

    open spec fn took(&self, before: &Self, bytes: Seq<u8>) -> bool {
        &&& self.hashed() == before.hashed() + bytes
        &&& self.inner().took(&before.inner(), bytes)
    }

    proof fn lemma_took_nothing(&self) {
        self.inner().lemma_took_nothing();
        assert(self.hashed() + Seq::<u8>::empty() =~= self.hashed());
    }

    proof fn lemma_took_more(&self, mid: &Self, before: &Self, first: Seq<u8>, then: Seq<u8>) {
        self.inner().lemma_took_more(&mid.inner(), &before.inner(), first, then);
        assert((before.hashed() + first) + then =~= before.hashed() + (first + then));
    }

    proof fn lemma_took_pending(&self, before: &Self, bytes: Seq<u8>) {
        self.inner().lemma_took_pending(&before.inner(), bytes);
    }

    /// Reads from the stream inside, then feeds the bytes that came to the
    /// checksum. A read of no bytes leaves the checksum alone.
    fn read(&mut self, buf: &mut [u8]) -> (r: Result<usize, Error>)
        ensures
            r is Err ==> final(self).hashed() == old(self).hashed(),
    {
        match self.inner.read(buf) {
            Ok(n) => {
                if n > 0 {
                    self.hasher.update(slice_subrange(buf, 0, n));
                } else {
                    assert(self.hashed() + Seq::<u8>::empty() =~= self.hashed());
                }
                Ok(n)
            },
            Err(e) => Err(e),
        }
    }
}

} // verus!
