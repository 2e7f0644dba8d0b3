use vstd::prelude::*;

use crate::byte_order::read_u8;
use crate::byte_order::write_u8;
use crate::codec::decodes;
use crate::codec::Decode;
use crate::codec::Encode;
use crate::codec::Parsed;
use crate::codec::WireFormat;
use crate::digits::decimal;
use crate::digits::push_decimal;
use crate::error::Error;
use crate::error::ErrorKind;
use crate::fixed_size::FixedSize;
use crate::stream::Read;
use crate::stream::Write;

verus! {

/// What decoding says of a byte that is neither 0 nor 1.
pub open spec fn invalid_bool_message(byte: u8) -> Seq<char> {
    "Invalid bool value: "@ + decimal(byte as nat)
}

/// Reads a `bool`: one byte, which has to be 0 or 1. Any other byte is an
/// error of kind `InvalidData` whose message names the byte.
pub fn read_bool<R: Read>(r: R) -> (res: (Result<bool, Error>, R))
    ensures
        decodes(r, res),
        r.reliable() && r.pending().len() >= 1 && r.pending()[0] > 1 ==> (res.0 matches Err(e)
            && e.message@ == invalid_bool_message(r.pending()[0])),
{
    let mut r = r;
    match read_u8(&mut r) {
        Ok(b) => {
            if b > 1 {
                let mut message = "Invalid bool value: ".to_owned();
                push_decimal(&mut message, b as u64);
                (Err(Error::new(ErrorKind::InvalidData, message)), r)
            } else {
                (Ok(b != 0), r)
            }
        },
        Err(e) => (Err(e), r),
    }
}

/// A `bool` is one byte: 0 for `false`, 1 for `true`.
impl WireFormat for bool {
    open spec fn wire(&self) -> Seq<u8> {
        seq![if *self { 1u8 } else { 0u8 }]
    }

    open spec fn fits(&self) -> bool {
        true
    }

    open spec fn parse(bytes: Seq<u8>) -> Parsed<bool> {
        if bytes.len() < 1 {
            Err(ErrorKind::UnexpectedEof)
        } else if bytes[0] > 1 {
            Err(ErrorKind::InvalidData)
        } else {
            Ok((bytes[0] != 0, 1))
        }
    }

    proof fn lemma_parse_wire(&self, rest: Seq<u8>) {
    }

    proof fn lemma_parse_within(bytes: Seq<u8>) {
    }

    proof fn lemma_wire_parsed(&self, bytes: Seq<u8>) {
        assert(bytes.take(1) =~= seq![bytes[0]]);
    }
}

impl FixedSize for bool {
    open spec fn encoded_len() -> nat {
        1
    }

    open spec fn fills_size(&self) -> bool {
        true
    }

    fn encoded_size() -> (n: usize) {
        assert(Self::encoded_len() == 1);
        1
    }

    proof fn lemma_encoded_size(&self) {
    }
}

impl Encode for bool {
    fn encode<W: Write>(&self, w: W) -> (res: (Result<usize, Error>, W)) {
        let mut w = w;
        match write_u8(&mut w, if *self { 1 } else { 0 }) {
            Ok(()) => (Ok(1), w),
            Err(e) => (Err(e), w),
        }
    }
}

impl Decode for bool {
    fn decode<R: Read>(r: R) -> (res: (Result<Self, Error>, R)) {
        read_bool(r)
    }
}

} // verus!
