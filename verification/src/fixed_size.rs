//! Types with a wire form of one length.

use vstd::prelude::*;

use crate::codec::WireFormat;
use crate::stream::count_on;

verus! {

/// A type that declares how many bytes its values take on the wire.
pub trait FixedSize: WireFormat {
    /// The declared number of bytes.
    spec fn encoded_len() -> nat;

    /// This value takes the declared number of bytes. That is so of every
    /// value of a type whose wire form never varies.
    spec fn fills_size(&self) -> bool;

    /// The declared number of bytes, as far as `usize` goes.
    fn encoded_size() -> (n: usize)
        ensures
            n == count_on(0, Self::encoded_len()),
    ;

    /// A value that fills the declared size has a wire form of that length.
    proof fn lemma_encoded_size(&self)
        requires
            self.fills_size(),
        ensures
            self.wire().len() == Self::encoded_len(),
    ;
}

} // verus!
