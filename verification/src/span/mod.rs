//! Positions, lengths and the regions they describe.

use vstd::pervasive::unreached;
use vstd::prelude::*;

mod offset;
mod size;

pub use offset::Offset;
pub use size::Size;

verus! {

/// A region: it begins at an offset and has a size.
pub trait Span {
    /// Where the region begins.
    spec fn span_offset(&self) -> Offset;

    /// How long the region is.
    spec fn span_size(&self) -> Size;

    /// Where the region begins.
    fn offset(&self) -> (r: Offset)
        ensures
            r == self.span_offset(),
    ;

    /// How long the region is.
    fn size(&self) -> (r: Size)
        ensures
            r == self.span_size(),
    ;

    /// Where the region begins; another name for `offset`.
    fn start(&self) -> (r: Offset)
        ensures
            r == self.span_offset(),
    {
        self.offset()
    }

    /// Where the region ends: the first position behind it.
    fn end(&self) -> (r: Offset)
        requires
            self.span_offset().0 + self.span_size().0 <= u64::MAX,
        ensures
            r.0 == self.span_offset().0 + self.span_size().0,
    {
        match self.offset().0.checked_add(self.size().0) {
            Some(end) => Offset(end),
            None => unreached(),
        }
    }
}

impl<T> Span for &T where T: Span {
    open spec fn span_offset(&self) -> Offset {
        (**self).span_offset()
    }

    open spec fn span_size(&self) -> Size {
        (**self).span_size()
    }

    fn offset(&self) -> (r: Offset) {
        (*self).offset()
    }

    fn size(&self) -> (r: Size) {
        (*self).size()
    }
}

} // verus!
