use vstd::prelude::*;
use vstd::utf8::decode_utf8;
use vstd::utf8::decode_utf8_encode_utf8;
use vstd::utf8::encode_utf8;
use vstd::utf8::encode_utf8_decode_utf8;
use vstd::utf8::encode_utf8_valid_utf8;
use vstd::utf8::valid_utf8;

use super::vec_u8_impl::lemma_length_prefixed_parsed;
use super::vec_u8_impl::lemma_parse_length_prefixed;
use super::vec_u8_impl::length_prefix;
use super::vec_u8_impl::length_prefixed;
use super::vec_u8_impl::parse_length_prefixed;
use super::vec_u8_impl::read_length_prefixed;
use crate::byte_order::lemma_be_bytes_len;
use crate::byte_order::write_u32;
use crate::codec::Decode;
use crate::codec::Encode;
use crate::codec::Parsed;
use crate::codec::WireFormat;
use crate::error::Error;
use crate::error::ErrorKind;
use crate::stream::Read;
use crate::stream::Write;

verus! {

/// The error of `String::from_utf8`, of which only the text is used.
#[verifier::external_type_specification]
#[verifier::external_body]
pub struct ExFromUtf8Error(std::string::FromUtf8Error);

/// `String::from_utf8` makes a string of the bytes where they are valid
/// UTF-8, and fails where they are not.
pub assume_specification[ String::from_utf8 ](vec: Vec<u8>) -> (r: Result<
    String,
    std::string::FromUtf8Error,
>)
    ensures
        r is Ok <==> valid_utf8(vec@),
        r matches Ok(s) ==> encode_utf8(s@) == vec@,
;

/// A `String` is the length of its UTF-8 form in four bytes, then that form.
impl WireFormat for String {
    open spec fn wire(&self) -> Seq<u8> {
        length_prefixed(encode_utf8(self@))
    }

    open spec fn fits(&self) -> bool {
        encode_utf8(self@).len() <= u32::MAX
    }

    open spec fn parse(bytes: Seq<u8>) -> Parsed<Seq<char>> {
        match parse_length_prefixed(bytes) {
            Ok((payload, used)) => if valid_utf8(payload) {
                Ok((decode_utf8(payload), used))
            } else {
                Err(ErrorKind::InvalidData)
            },
            Err(kind) => Err(kind),
        }
    }

    proof fn lemma_parse_wire(&self, rest: Seq<u8>) {
        lemma_parse_length_prefixed(encode_utf8(self@), rest);
        encode_utf8_valid_utf8(self@);
        encode_utf8_decode_utf8(self@);
    }

    proof fn lemma_parse_within(bytes: Seq<u8>) {
    }

    proof fn lemma_wire_parsed(&self, bytes: Seq<u8>) {
        lemma_length_prefixed_parsed(bytes);
        decode_utf8_encode_utf8(parse_length_prefixed(bytes)->Ok_0.0);
    }
}

impl Encode for String {
    fn encode<W: Write>(&self, w: W) -> (res: (Result<usize, Error>, W)) {
        let mut w = w;
        let ghost start = w;
        let bytes = self.as_str().as_bytes();
        proof {
            lemma_be_bytes_len((#[verifier::truncate] (bytes@.len() as u32)) as nat, 4);
        }
        match write_u32(&mut w, #[verifier::truncate] (bytes.len() as u32)) {
            Ok(()) => {},
            Err(e) => {
                return (Err(e), w);
            },
        }
        let ghost mid = w;
        proof {
            if start.reliable() {
                mid.lemma_wrote_reliable(&start, length_prefix(bytes@.len()));
            }
        }
        match w.write_all(bytes) {
            Ok(()) => {},
            Err(e) => {
                return (Err(e), w);
            },
        }
        proof {
            if start.reliable() {
                w.lemma_wrote_more(&mid, &start, length_prefix(bytes@.len()), bytes@);
            }
        }
        (Ok(bytes.len().saturating_add(4)), w)
    }
}

impl Decode for String {
    fn decode<R: Read>(r: R) -> (res: (Result<Self, Error>, R)) {
        let mut r = r;
        let buf = match read_length_prefixed(&mut r) {
            Ok(buf) => buf,
            Err(e) => {
                return (Err(e), r);
            },
        };
        match String::from_utf8(buf) {
            Ok(s) => {
                proof {
                    encode_utf8_decode_utf8(s@);
                }
                (Ok(s), r)
            },
            Err(e) => (Err(Error::new(ErrorKind::InvalidData, e.to_string())), r),
        }
    }
}

} // verus!
