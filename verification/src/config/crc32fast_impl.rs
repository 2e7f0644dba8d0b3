//! CRC-32 by the `crc32fast` crate.

use vstd::prelude::*;

use super::hash_algorithm::HashAlgorithm;
use super::ChecksumConfig;

verus! {

/// The CRC-32 (IEEE) checksum of `bytes`: what `crc32fast::hash` returns
/// for them, and what a `crc32fast::Hasher` holds after it was fed them.
pub uninterp spec fn crc32(bytes: Seq<u8>) -> u32;

/// The state of a `crc32fast::Hasher` that has seen no bytes, which is the
/// checksum of the empty sequence.
#[verifier::external_body]
fn crc32_start() -> (state: u32)
    ensures
        state == crc32(Seq::<u8>::empty()),
{
    crc32fast::Hasher::new().finalize()
}

/// Takes up a computation at `state` with `crc32fast::Hasher::new_with_initial`
/// and feeds it `bytes`. What comes out is the checksum of everything seen:
/// of whatever gave `state`, followed by `bytes`.
#[verifier::external_body]
fn crc32_resume(state: u32, bytes: &[u8]) -> (next: u32)
    ensures
        forall|seen: Seq<u8>| state == #[trigger] crc32(seen) ==> next == crc32(seen + bytes@),
{
    let mut hasher = crc32fast::Hasher::new_with_initial(state);
    hasher.update(bytes);
    hasher.finalize()
}

/// An accumulator for CRC-32.
///
/// It holds the checksum of the bytes seen so far, which is all that
/// `crc32fast` needs to go on.
pub struct Crc32fastHasher {
    state: u32,
    seen: Ghost<Seq<u8>>,
}

impl Crc32fastHasher {
    #[verifier::type_invariant]
    spec fn well_formed(self) -> bool {
        self.state == crc32(self.seen@)
    }
}

impl HashAlgorithm for Crc32fastHasher {
    open spec fn checksum(bytes: Seq<u8>) -> u64 {
        crc32(bytes) as u64
    }

    closed spec fn fed(&self) -> Seq<u8> {
        self.seen@
    }

    fn new() -> (h: Self) {
        Crc32fastHasher { state: crc32_start(), seen: Ghost(Seq::<u8>::empty()) }
    }

    fn update(&mut self, bytes: &[u8]) {
        proof {
            use_type_invariant(&*self);
        }
        let next = crc32_resume(self.state, bytes);
        *self = Crc32fastHasher { state: next, seen: Ghost(self.seen@ + bytes@) };
    }

    fn finalize(&self) -> (d: u64) {
        proof {
            use_type_invariant(self);
        }
        self.state as u64
    }
}

impl Default for Crc32fastHasher {
    fn default() -> (h: Self)
        ensures
            h.fed() == Seq::<u8>::empty(),
    {
        Self::new()
    }
}

/// Checksums by CRC-32.
#[derive(Debug, Clone, Copy, Default, PartialEq, Eq, PartialOrd, Ord, Hash)]
pub struct Crc32fast;

impl ChecksumConfig for Crc32fast {
    type Hasher = Crc32fastHasher;
}

} // verus!
