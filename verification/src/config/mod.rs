//! The choice of a checksum algorithm.

use core::fmt::Debug;

use vstd::prelude::*;

use crate::checksum_reader::ChecksumReader;
use crate::checksum_writer::ChecksumWriter;
use crate::segment::Segment;
use crate::stream::Read;
use crate::stream::Write;
use crate::with_checksum::WithChecksum;

pub mod crc32fast_impl;
pub mod crc64fast_nvme_impl;
pub mod hash_algorithm;

pub use crc32fast_impl::Crc32fast;
pub use crc64fast_nvme_impl::Crc64fastNvme;
pub use crc64fast_nvme_impl::Crc64fastNvmeHasher;
pub use hash_algorithm::HashAlgorithm;

verus! {

/// Binds the codec to one checksum algorithm.
///
/// The type that implements this trait holds nothing; it is a name for the
/// algorithm. What was encoded under one configuration does not decode
/// under another, unless the two happen to agree on its checksum.
pub trait ChecksumConfig: Debug + Clone + Copy + Default + PartialEq + Eq + PartialOrd + Ord + Sized {
    /// The accumulator of the algorithm.
    type Hasher: HashAlgorithm;
}

/// What every configuration offers: the checksum of a buffer, and the
/// streams and values that are bound to its algorithm. Call sites name the
/// configuration and never the algorithm.
pub trait CodeqConfig: ChecksumConfig {
    /// The checksum of `buf`.
    fn hash(buf: &[u8]) -> (d: u64)
        ensures
            d == Self::Hasher::checksum(buf@),
    {
        let mut hasher = Self::Hasher::new();
        hasher.update(buf);
        assert(Seq::<u8>::empty() + buf@ =~= buf@);
        hasher.finalize()
    }

    /// A writer around `inner` that checksums what is written.
    fn new_writer<W: Write>(inner: W) -> (w: ChecksumWriter<Self, W>)
        ensures
            w.hashed() == Seq::<u8>::empty(),
            w.inner() == inner,
    {
        ChecksumWriter::new(inner)
    }

    /// A reader around `inner` that checksums what is read.
    fn new_reader<R: Read>(inner: R) -> (r: ChecksumReader<Self, R>)
        ensures
            r.hashed() == Seq::<u8>::empty(),
            r.inner() == inner,
    {
        ChecksumReader::new(inner)
    }

    /// `data`, to be written with its checksum behind it.
    fn wrap<T>(data: T) -> (w: WithChecksum<Self, T>)
        ensures
            w.data() == data,
    {
        WithChecksum::<Self, T>::new(data)
    }

    /// The segment of `size` bytes that begins at `offset`.
    fn segment(offset: u64, size: u64) -> (s: Segment<Self>)
        ensures
            s.offset == offset,
            s.size == size,
    {
        Segment::<Self>::new(offset, size)
    }
}

impl<C: ChecksumConfig> CodeqConfig for C {
}

} // verus!
