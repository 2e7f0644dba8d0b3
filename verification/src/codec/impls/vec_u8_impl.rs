use vstd::prelude::*;

use crate::byte_order::be_bytes;
use crate::byte_order::be_value;
use crate::byte_order::lemma_be_bytes_len;
use crate::byte_order::lemma_be_bytes_of_value;
use crate::byte_order::lemma_be_value_bound;
use crate::byte_order::lemma_be_limits;
use crate::byte_order::lemma_be_value_of_bytes;
use crate::byte_order::read_u32;
use crate::byte_order::write_u32;
use crate::codec::Decode;
use crate::codec::Encode;
use crate::codec::Parsed;
use crate::codec::WireFormat;
use crate::error::Error;
use crate::error::ErrorKind;
use crate::stream::lemma_took_in_turn;
use crate::stream::Read;
use crate::stream::Write;

verus! {

/// The four bytes that carry a length: its low 32 bits, big end first.
pub open spec fn length_prefix(len: nat) -> Seq<u8> {
    be_bytes((#[verifier::truncate] (len as u32)) as nat, 4)
}

/// `payload` behind the four bytes of its length.
pub open spec fn length_prefixed(payload: Seq<u8>) -> Seq<u8> {
    length_prefix(payload.len()) + payload
}

/// Takes a length and then as many bytes off the front of `bytes`.
pub open spec fn parse_length_prefixed(bytes: Seq<u8>) -> Parsed<Seq<u8>> {
    if bytes.len() < 4 {
        Err(ErrorKind::UnexpectedEof)
    } else {
        let len = be_value(bytes.take(4));
        if bytes.len() < 4 + len {
            Err(ErrorKind::UnexpectedEof)
        } else {
            Ok((bytes.subrange(4, 4 + len as int), 4 + len))
        }
    }
}

/// A payload whose length fits 32 bits is read back from behind its length.
pub proof fn lemma_parse_length_prefixed(payload: Seq<u8>, rest: Seq<u8>)
    requires
        payload.len() <= u32::MAX,
    ensures
        length_prefixed(payload).len() == 4 + payload.len(),
        parse_length_prefixed(length_prefixed(payload) + rest) == Ok::<(Seq<u8>, nat), ErrorKind>(
            (payload, 4 + payload.len()),
        ),
{
    let len = payload.len();
    let all = length_prefixed(payload) + rest;
    lemma_be_bytes_len(len, 4);
    lemma_be_limits();
    lemma_be_value_of_bytes(len, 4);
    assert(all.take(4) =~= length_prefix(len));
    assert(all.subrange(4, 4 + len as int) =~= payload);
}

/// What was taken off the front of `bytes` is the payload behind its length.
pub proof fn lemma_length_prefixed_parsed(bytes: Seq<u8>)
    ensures
        parse_length_prefixed(bytes) matches Ok((payload, used)) ==> {
            &&& payload.len() <= u32::MAX
            &&& used == 4 + payload.len()
            &&& used <= bytes.len()
            &&& length_prefixed(payload) == bytes.take(used as int)
        },
{
    if let Ok((payload, used)) = parse_length_prefixed(bytes) {
        lemma_be_limits();
        lemma_be_value_bound(bytes.take(4));
        lemma_be_bytes_of_value(bytes.take(4));
        assert(bytes.take(4) + payload =~= bytes.take(used as int));
    }
}

/// A `Vec<u8>` is its length in four bytes, then its bytes.
impl WireFormat for Vec<u8> {
    open spec fn wire(&self) -> Seq<u8> {
        length_prefixed(self@)
    }

    open spec fn fits(&self) -> bool {
        self@.len() <= u32::MAX
    }

    open spec fn parse(bytes: Seq<u8>) -> Parsed<Seq<u8>> {
        parse_length_prefixed(bytes)
    }

    proof fn lemma_parse_wire(&self, rest: Seq<u8>) {
        lemma_parse_length_prefixed(self@, rest);
        assert(self.deep_view() =~= self@);
    }

    proof fn lemma_parse_within(bytes: Seq<u8>) {
    }

    proof fn lemma_wire_parsed(&self, bytes: Seq<u8>) {
        lemma_length_prefixed_parsed(bytes);
        assert(self.deep_view() =~= self@);
    }
}

impl Encode for Vec<u8> {
    fn encode<W: Write>(&self, w: W) -> (res: (Result<usize, Error>, W)) {
        let mut w = w;
        let ghost start = w;
        proof {
            lemma_be_bytes_len((#[verifier::truncate] (self@.len() as u32)) as nat, 4);
        }
        match write_u32(&mut w, #[verifier::truncate] (self.len() as u32)) {
            Ok(()) => {},
            Err(e) => {
                return (Err(e), w);
            },
        }
        let ghost mid = w;
        proof {
            if start.reliable() {
                mid.lemma_wrote_reliable(&start, length_prefix(self@.len()));
            }
        }
        match w.write_all(self.as_slice()) {
            Ok(()) => {},
            Err(e) => {
                return (Err(e), w);
            },
        }
        proof {
            if start.reliable() {
                w.lemma_wrote_more(&mid, &start, length_prefix(self@.len()), self@);
            }
        }
        (Ok(self.len().saturating_add(4)), w)
    }
}

/// Reads a length and then as many bytes.
pub fn read_length_prefixed<R: Read>(r: &mut R) -> (res: Result<Vec<u8>, Error>)
    ensures
        res matches Ok(buf) ==> {
            &&& buf@.len() <= u32::MAX
            &&& parse_length_prefixed(old(r).pending()) == Ok::<(Seq<u8>, nat), ErrorKind>(
                (buf@, 4 + buf@.len()),
            )
            &&& 4 + buf@.len() <= old(r).pending().len()
            &&& final(r).took(old(r), old(r).pending().take(4 + buf@.len() as int))
        },
        old(r).reliable() ==> match parse_length_prefixed(old(r).pending()) {
            Ok(_) => res is Ok,
            Err(kind) => res matches Err(e) && e.kind == kind,
        },
{
    let len = match read_u32(r) {
        Ok(len) => len as usize,
        Err(e) => {
            return Err(e);
        },
    };
    let ghost mid = *r;
    proof {
        crate::stream::lemma_took_front(&mid, old(r), 4);
    }
    let mut buf = vec![0u8; len];
    match r.read_exact(buf.as_mut_slice()) {
        Ok(()) => {},
        Err(e) => {
            return Err(e);
        },
    }
    proof {
        let all = old(r).pending();
        lemma_took_in_turn(&*r, &mid, old(r), 4, len as nat);
        assert(all.skip(4).take(len as int) =~= all.subrange(4, 4 + len));
    }
    Ok(buf)
}

impl Decode for Vec<u8> {
    fn decode<R: Read>(r: R) -> (res: (Result<Self, Error>, R)) {
        let mut r = r;
        match read_length_prefixed(&mut r) {
            Ok(buf) => {
                assert(buf.deep_view() =~= buf@);
                (Ok(buf), r)
            },
            Err(e) => (Err(e), r),
        }
    }
}

} // verus!
