use vstd::prelude::*;

use crate::codec::Decode;
use crate::codec::Encode;
use crate::codec::Parsed;
use crate::codec::WireFormat;
use crate::error::Error;
use crate::fixed_size::FixedSize;
use crate::stream::Read;
use crate::stream::Write;

verus! {

/// The unit value takes no bytes.
impl WireFormat for () {
    open spec fn wire(&self) -> Seq<u8> {
        Seq::<u8>::empty()
    }

    open spec fn fits(&self) -> bool {
        true
    }

    open spec fn parse(bytes: Seq<u8>) -> Parsed<()> {
        Ok(((), 0))
    }

    proof fn lemma_parse_wire(&self, rest: Seq<u8>) {
    }

    proof fn lemma_parse_within(bytes: Seq<u8>) {
    }

    proof fn lemma_wire_parsed(&self, bytes: Seq<u8>) {
        assert(bytes.take(0) =~= Seq::<u8>::empty());
    }
}

impl FixedSize for () {
    open spec fn encoded_len() -> nat {
        0
    }

    open spec fn fills_size(&self) -> bool {
        true
    }

    fn encoded_size() -> (n: usize) {
        assert(Self::encoded_len() == 0);
        0
    }

    proof fn lemma_encoded_size(&self) {
    }
}

impl Encode for () {
    fn encode<W: Write>(&self, w: W) -> (res: (Result<usize, Error>, W)) {
        proof {
            w.lemma_wrote_nothing();
        }
        (Ok(0), w)
    }
}

impl Decode for () {
    fn decode<R: Read>(r: R) -> (res: (Result<Self, Error>, R)) {
        proof {
            r.lemma_took_nothing();
            assert(r.pending().take(0) =~= Seq::<u8>::empty());
        }
        (Ok(()), r)
    }
}

} // verus!
