//! Values that can be read from a stream.

use vstd::prelude::*;

use super::wire_format::WireFormat;
use crate::error::Error;
use crate::stream::Read;

verus! {

/// `res` is a fair outcome of decoding a `T` from `r`.
///
/// A value that comes back is the one that `parse` finds at the front of the
/// pending bytes, and exactly the bytes that spell it are gone from the
/// stream. On a reliable stream the outcome is that of `parse`, in success
/// and in the kind of failure.
pub open spec fn decodes<T: WireFormat, R: Read>(r: R, res: (Result<T, Error>, R)) -> bool {
    &&& res.0 matches Ok(v) ==> {
        &&& v.fits()
        &&& T::parse(r.pending()) matches Ok((m, used))
        &&& m == v.deep_view()
        &&& used <= r.pending().len()
        &&& res.1.took(&r, r.pending().take(used as int))
    }
    &&& r.reliable() ==> match T::parse(r.pending()) {
        Ok(_) => res.0 is Ok,
        Err(kind) => res.0 matches Err(e) && e.kind == kind,
    }
}

/// A value that can be read from a stream.
///
/// The stream is taken by value and handed back with the outcome, so that a
/// value can wrap it in a stream of its own while it reads.
pub trait Decode: WireFormat {
    /// Reads one value from `r`.
    fn decode<R: Read>(r: R) -> (res: (Result<Self, Error>, R))
        ensures
            decodes(r, res),
    ;
}

} // verus!
