use vstd::prelude::*;

use crate::byte_order::be_bytes;
use crate::byte_order::be_value;
use crate::byte_order::lemma_be_bytes_len;
use crate::byte_order::lemma_be_bytes_of_value;
use crate::byte_order::lemma_be_value_bound;
use crate::byte_order::lemma_be_limits;
use crate::byte_order::lemma_be_value_of_bytes;
use crate::byte_order::read_u64;
use crate::byte_order::write_u64;
use crate::codec::Decode;
use crate::codec::Encode;
use crate::codec::Parsed;
use crate::codec::WireFormat;
use crate::error::Error;
use crate::error::ErrorKind;
use crate::fixed_size::FixedSize;
use crate::stream::Read;
use crate::stream::Write;

verus! {

/// A `u64` is eight bytes, big end first.
impl WireFormat for u64 {
    open spec fn wire(&self) -> Seq<u8> {
        be_bytes(*self as nat, 8)
    }

    open spec fn fits(&self) -> bool {
        true
    }

    open spec fn parse(bytes: Seq<u8>) -> Parsed<u64> {
        if bytes.len() < 8 {
            Err(ErrorKind::UnexpectedEof)
        } else {
            Ok((be_value(bytes.take(8)) as u64, 8))
        }
    }

    proof fn lemma_parse_wire(&self, rest: Seq<u8>) {
        lemma_be_bytes_len(*self as nat, 8);
        lemma_be_limits();
        lemma_be_value_of_bytes(*self as nat, 8);
        assert((self.wire() + rest).take(8) =~= self.wire());
    }

    proof fn lemma_parse_within(bytes: Seq<u8>) {
    }

    proof fn lemma_wire_parsed(&self, bytes: Seq<u8>) {
        lemma_be_limits();
        lemma_be_value_bound(bytes.take(8));
        lemma_be_bytes_of_value(bytes.take(8));
    }
}

impl FixedSize for u64 {
    open spec fn encoded_len() -> nat {
        8
    }

    open spec fn fills_size(&self) -> bool {
        true
    }

    fn encoded_size() -> (n: usize) {
        assert(Self::encoded_len() == 8);
        8
    }

    proof fn lemma_encoded_size(&self) {
        lemma_be_bytes_len(*self as nat, 8);
    }
}

impl Encode for u64 {
    fn encode<W: Write>(&self, w: W) -> (res: (Result<usize, Error>, W)) {
        let mut w = w;
        proof {
            lemma_be_bytes_len(*self as nat, 8);
        }
        match write_u64(&mut w, *self) {
            Ok(()) => (Ok(Self::encoded_size()), w),
            Err(e) => (Err(e), w),
        }
    }
}

impl Decode for u64 {
    fn decode<R: Read>(r: R) -> (res: (Result<Self, Error>, R)) {
        let mut r = r;
        match read_u64(&mut r) {
            Ok(v) => (Ok(v), r),
            Err(e) => (Err(e), r),
        }
    }
}

} // verus!
