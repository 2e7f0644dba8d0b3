//! CRC-64/NVME by the `crc64fast-nvme` crate.

use vstd::prelude::*;

use super::hash_algorithm::HashAlgorithm;
use super::ChecksumConfig;

verus! {

/// The digest of `crc64fast-nvme`. Nothing is known of what is inside one
/// but what the functions below say.
#[verifier::external_type_specification]
#[verifier::external_body]
pub struct ExDigest(crc64fast_nvme::Digest);

/// The CRC-64/NVME checksum of `bytes`: what `Digest::sum64` returns for a
/// digest into which they were written.
pub uninterp spec fn crc64_nvme(bytes: Seq<u8>) -> u64;

/// The bytes that were written into a digest, in the order in which they
/// came.
pub uninterp spec fn digest_bytes(digest: crc64fast_nvme::Digest) -> Seq<u8>;

/// `Digest::new`: a digest into which nothing was written.
#[verifier::external_body]
fn digest_new() -> (digest: crc64fast_nvme::Digest)
    ensures
        digest_bytes(digest) == Seq::<u8>::empty(),
{
    crc64fast_nvme::Digest::new()
}

/// `Digest::write`: adds `bytes` to what the digest has seen.
#[verifier::external_body]
fn digest_write(digest: &mut crc64fast_nvme::Digest, bytes: &[u8])
    ensures
        digest_bytes(*final(digest)) == digest_bytes(*old(digest)) + bytes@,
{
    digest.write(bytes)
}

/// `Digest::sum64`: the checksum of what the digest has seen.
#[verifier::external_body]
fn digest_sum64(digest: &crc64fast_nvme::Digest) -> (sum: u64)
    ensures
        sum == crc64_nvme(digest_bytes(*digest)),
{
    digest.sum64()
}

/// An accumulator for CRC-64/NVME.
pub struct Crc64fastNvmeHasher(crc64fast_nvme::Digest);

impl HashAlgorithm for Crc64fastNvmeHasher {
    open spec fn checksum(bytes: Seq<u8>) -> u64 {
        crc64_nvme(bytes)
    }

    closed spec fn fed(&self) -> Seq<u8> {
        digest_bytes(self.0)
    }

    fn new() -> (h: Self) {
        Crc64fastNvmeHasher(digest_new())
    }

    fn update(&mut self, bytes: &[u8]) {
        digest_write(&mut self.0, bytes);
    }

    fn finalize(&self) -> (d: u64) {
        digest_sum64(&self.0)
    }
}

impl Default for Crc64fastNvmeHasher {
    fn default() -> (h: Self)
        ensures
            h.fed() == Seq::<u8>::empty(),
    {
        Self::new()
    }
}

/// Checksums by CRC-64/NVME.
#[derive(Debug, Clone, Copy, Default, PartialEq, Eq, PartialOrd, Ord, Hash)]
pub struct Crc64fastNvme;

impl ChecksumConfig for Crc64fastNvme {
    type Hasher = Crc64fastNvmeHasher;
}

} // verus!
