use vstd::prelude::*;

use crate::byte_order::read_u8;
use crate::byte_order::write_u8;
use crate::codec::Decode;
use crate::codec::Encode;
use crate::codec::Parsed;
use crate::codec::WireFormat;
use crate::error::Error;
use crate::error::ErrorKind;
use crate::fixed_size::FixedSize;
use crate::stream::Read;
use crate::stream::Write;

verus! {

/// A `u8` is itself.
impl WireFormat for u8 {
    open spec fn wire(&self) -> Seq<u8> {
        seq![*self]
    }

    open spec fn fits(&self) -> bool {
        true
    }

    open spec fn parse(bytes: Seq<u8>) -> Parsed<u8> {
        if bytes.len() < 1 {
            Err(ErrorKind::UnexpectedEof)
        } else {
            Ok((bytes[0], 1))
        }
    }

    proof fn lemma_parse_wire(&self, rest: Seq<u8>) {
    }

    proof fn lemma_parse_within(bytes: Seq<u8>) {
    }

    proof fn lemma_wire_parsed(&self, bytes: Seq<u8>) {
        assert(bytes.take(1) =~= seq![bytes[0]]);
    }
}

impl FixedSize for u8 {
    open spec fn encoded_len() -> nat {
        1
    }

    open spec fn fills_size(&self) -> bool {
        true
    }

    fn encoded_size() -> (n: usize) {
        assert(Self::encoded_len() == 1);
        1
    }

    proof fn lemma_encoded_size(&self) {
    }
}

impl Encode for u8 {
    fn encode<W: Write>(&self, w: W) -> (res: (Result<usize, Error>, W)) {
        let mut w = w;
        match write_u8(&mut w, *self) {
            Ok(()) => (Ok(Self::encoded_size()), w),
            Err(e) => (Err(e), w),
        }
    }
}

impl Decode for u8 {
    fn decode<R: Read>(r: R) -> (res: (Result<Self, Error>, R)) {
        let mut r = r;
        match read_u8(&mut r) {
            Ok(v) => (Ok(v), r),
            Err(e) => (Err(e), r),
        }
    }
}

} // verus!
