//! The two directions of a wire format, as mathematics.

use vstd::prelude::*;

use crate::error::ErrorKind;

verus! {

/// What parsing makes of a byte sequence: the value found at its front, as
/// its deep view, and the number of bytes that spell it; or the kind of
/// failure.
pub type Parsed<V> = Result<(V, nat), ErrorKind>;

/// A type whose values have a form on the wire.
///
/// `wire` says how a value is written and `parse` how bytes are read. The
/// first is a function, so the same value always gives the same bytes. Two
/// laws tie them together: what was written is read back, whatever follows
/// it (`lemma_parse_wire`), and what was read is what writing the value
/// gives (`lemma_wire_parsed`).
///
/// Values are told apart by their deep view.
pub trait WireFormat: DeepView + Sized {
    /// The bytes that stand for this value.
    spec fn wire(&self) -> Seq<u8>;

    /// The value is within what the format can hold. A length, for one, has
    /// to fit the field that carries it.
    spec fn fits(&self) -> bool;

    /// Reads one value off the front of `bytes`.
    spec fn parse(bytes: Seq<u8>) -> Parsed<Self::V>;

    /// A value that fits is read back from its wire form, and reading stops
    /// where the wire form ends.
    proof fn lemma_parse_wire(&self, rest: Seq<u8>)
        requires
            self.fits(),
        ensures
            Self::parse(self.wire() + rest) == Ok::<(Self::V, nat), ErrorKind>(
                (self.deep_view(), self.wire().len()),
            ),
    ;

    /// Parsing uses no more bytes than there are.
    proof fn lemma_parse_within(bytes: Seq<u8>)
        ensures
            Self::parse(bytes) matches Ok((_, used)) ==> used <= bytes.len(),
    ;

    /// The bytes that parsing used for a value are the wire form of that
    /// value: no value is spelled in two ways.
    proof fn lemma_wire_parsed(&self, bytes: Seq<u8>)
        requires
            self.fits(),
            Self::parse(bytes) matches Ok((found, _)) && found == self.deep_view(),
        ensures
            Self::parse(bytes) matches Ok((_, used)) && used <= bytes.len() && self.wire()
                == bytes.take(used as int),
    ;
}

/// A reference has the wire form of what it points to.
impl<T: WireFormat> WireFormat for &T {
    open spec fn wire(&self) -> Seq<u8> {
        (**self).wire()
    }

    open spec fn fits(&self) -> bool {
        (**self).fits()
    }

    open spec fn parse(bytes: Seq<u8>) -> Parsed<T::V> {
        T::parse(bytes)
    }

    proof fn lemma_parse_wire(&self, rest: Seq<u8>) {
        (**self).lemma_parse_wire(rest);
    }

    proof fn lemma_parse_within(bytes: Seq<u8>) {
        T::lemma_parse_within(bytes);
    }

    proof fn lemma_wire_parsed(&self, bytes: Seq<u8>) {
        (**self).lemma_wire_parsed(bytes);
    }
}

} // verus!
