//! Values that can be written to a stream.

use vstd::prelude::*;

use super::wire_format::WireFormat;
use crate::error::Error;
use crate::sealed::Sealed;
use crate::stream::count_on;
use crate::stream::Write;

verus! {

/// A value that can be written to a stream.
///
/// The stream is taken by value and handed back with the outcome, so that a
/// value can wrap it in a stream of its own while it writes.
pub trait Encode: WireFormat {
    /// Writes the wire form of the value to `w`, and says how many bytes
    /// that was. The count stops at `usize::MAX`.
    fn encode<W: Write>(&self, w: W) -> (res: (Result<usize, Error>, W))
        ensures
            res.0 matches Ok(n) ==> n == count_on(0, self.wire().len()),
            w.reliable() ==> res.0 is Ok && res.1.wrote(&w, self.wire()),
    ;

    /// The wire form of the value in a new `Vec<u8>`.
    ///
    /// The bound on `Self` keeps other crates from putting a method of their
    /// own in the place of this one.
    fn encode_to_vec(&self) -> (r: Result<Vec<u8>, Error>) where Self: Sealed
        ensures
            r matches Ok(buf) && buf@ == self.wire(),
    {
        let (r, buf) = self.encode(Vec::new());
        assert(Seq::<u8>::empty() + self.wire() =~= self.wire());
        match r {
            Ok(_) => Ok(buf),
            Err(e) => Err(e),
        }
    }
}

/// A reference is written as what it points to.
impl<T: Encode> Encode for &T {
    fn encode<W: Write>(&self, w: W) -> (res: (Result<usize, Error>, W)) {
        (*self).encode(w)
    }
}

} // verus!
