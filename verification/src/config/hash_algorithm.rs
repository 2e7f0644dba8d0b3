//! What a checksum algorithm has to offer.

use vstd::prelude::*;

verus! {

/// A checksum that is computed piece by piece.
///
/// An accumulator stands for the bytes fed into it so far, whatever the
/// pieces were in which they came.
pub trait HashAlgorithm: Sized {
    /// The digest that this algorithm gives `bytes`.
    spec fn checksum(bytes: Seq<u8>) -> u64;

    /// The bytes fed into this accumulator so far.
    spec fn fed(&self) -> Seq<u8>;

    /// An accumulator that has seen no bytes yet.
    fn new() -> (h: Self)
        ensures
            h.fed() == Seq::<u8>::empty(),
    ;

    /// Feeds `bytes` into the accumulator.
    fn update(&mut self, bytes: &[u8])
        ensures
            final(self).fed() == old(self).fed() + bytes@,
    ;

    /// The digest of all bytes fed so far. A digest narrower than 64 bits
    /// fills the low bits.
    fn finalize(&self) -> (d: u64)
        ensures
            d == Self::checksum(self.fed()),
    ;
}

} // verus!
