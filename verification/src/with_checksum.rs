//! A value with a checksum behind it.

use core::marker::PhantomData;

use vstd::prelude::*;

use crate::byte_order::be_bytes;
use crate::byte_order::be_value;
use crate::byte_order::lemma_be_bytes_len;
use crate::byte_order::lemma_be_bytes_of_value;
use crate::byte_order::lemma_be_limits;
use crate::byte_order::lemma_be_value_of_bytes;
use crate::checksum_reader::mismatch_message;
use crate::checksum_reader::ChecksumReader;
use crate::checksum_writer::ChecksumWriter;
use crate::codec::decodes;
use crate::codec::Decode;
use crate::codec::Encode;
use crate::codec::Parsed;
use crate::codec::WireFormat;
use crate::config::ChecksumConfig;
use crate::config::HashAlgorithm;
use crate::error::Error;
use crate::error::ErrorKind;
use crate::fixed_size::FixedSize;
use crate::stream::lemma_took_front;
use crate::stream::lemma_took_in_turn;
use crate::stream::Read;
use crate::stream::Write;

verus! {

/// The eight bytes that follow `payload` on the wire under configuration
/// `C`: the digest of `payload`, big end first.
pub open spec fn trailer_of<C: ChecksumConfig>(payload: Seq<u8>) -> Seq<u8> {
    be_bytes(C::Hasher::checksum(payload) as nat, 8)
}

/// `payload` with its trailer behind it.
pub open spec fn with_trailer<C: ChecksumConfig>(payload: Seq<u8>) -> Seq<u8> {
    payload + trailer_of::<C>(payload)
}

/// Holds the trailer behind the first `used` bytes of `bytes` against their
/// digest: too few bytes for a trailer is `UnexpectedEof`, a trailer that
/// differs is `InvalidData`.
pub open spec fn check_trailer<C: ChecksumConfig>(bytes: Seq<u8>, used: nat) -> Result<
    nat,
    ErrorKind,
> {
    if bytes.len() < used + 8 {
        Err(ErrorKind::UnexpectedEof)
    } else if be_value(bytes.subrange(used as int, used + 8 as int)) != C::Hasher::checksum(
        bytes.take(used as int),
    ) {
        Err(ErrorKind::InvalidData)
    } else {
        Ok(used + 8)
    }
}

/// What is said of a trailer behind the first `used` bytes of `bytes` that
/// is not their digest.
pub open spec fn trailer_mismatch<C: ChecksumConfig>(
    bytes: Seq<u8>,
    used: nat,
    context: Seq<char>,
) -> Seq<char> {
    mismatch_message(
        C::Hasher::checksum(bytes.take(used as int)),
        be_value(bytes.subrange(used as int, used + 8 as int)) as u64,
        context,
    )
}

/// A payload with its trailer passes the check, whatever follows.
pub proof fn lemma_trailer_passes<C: ChecksumConfig>(payload: Seq<u8>, rest: Seq<u8>)
    ensures
        trailer_of::<C>(payload).len() == 8,
        check_trailer::<C>(with_trailer::<C>(payload) + rest, payload.len()) == Ok::<
            nat,
            ErrorKind,
        >(payload.len() + 8),
{
    let digest = C::Hasher::checksum(payload);
    let all = with_trailer::<C>(payload) + rest;
    lemma_be_bytes_len(digest as nat, 8);
    lemma_be_limits();
    lemma_be_value_of_bytes(digest as nat, 8);
    assert(all.take(payload.len() as int) =~= payload);
    assert(all.subrange(payload.len() as int, payload.len() + 8 as int) =~= trailer_of::<C>(payload));
}

/// Bytes that pass the check are a payload with its trailer.
pub proof fn lemma_passed_has_trailer<C: ChecksumConfig>(bytes: Seq<u8>, used: nat)
    requires
        check_trailer::<C>(bytes, used) is Ok,
    ensures
        with_trailer::<C>(bytes.take(used as int)) == bytes.take(used + 8 as int),
{
    let trailer = bytes.subrange(used as int, used + 8 as int);
    lemma_be_bytes_of_value(trailer);
    assert(bytes.take(used as int) + trailer =~= bytes.take(used + 8 as int));
}

/// A trailer that differs from the one that belongs behind `payload` does
/// not pass the check.
pub proof fn lemma_wrong_trailer<C: ChecksumConfig>(payload: Seq<u8>, trailer: Seq<u8>, rest: Seq<u8>)
    requires
        trailer.len() == 8,
        trailer != trailer_of::<C>(payload),
    ensures
        check_trailer::<C>(payload + trailer + rest, payload.len()) == Err::<nat, ErrorKind>(
            ErrorKind::InvalidData,
        ),
{
    let all = payload + trailer + rest;
    assert(all.take(payload.len() as int) =~= payload);
    assert(all.subrange(payload.len() as int, payload.len() + 8 as int) =~= trailer);
    lemma_be_bytes_of_value(trailer);
}

/// The trailer of `payload` does not pass the check behind another payload
/// of the same length, unless the two have the same digest.
pub proof fn lemma_wrong_payload<C: ChecksumConfig>(payload: Seq<u8>, other: Seq<u8>, rest: Seq<u8>)
    requires
        other.len() == payload.len(),
    ensures
        check_trailer::<C>(other + trailer_of::<C>(payload) + rest, other.len()) is Ok
            <==> C::Hasher::checksum(other) == C::Hasher::checksum(payload),
{
    let trailer = trailer_of::<C>(payload);
    let all = other + trailer + rest;
    lemma_trailer_passes::<C>(payload, rest);
    assert(all.take(other.len() as int) =~= other);
    assert(all.subrange(other.len() as int, other.len() + 8 as int) =~= trailer);
    assert((payload + trailer + rest).subrange(payload.len() as int, payload.len() + 8 as int)
        =~= trailer);
    assert((payload + trailer + rest).take(payload.len() as int) =~= payload);
    assert(with_trailer::<C>(payload) + rest =~= payload + trailer + rest);
}

/// A value that is written with the digest of its wire form behind it, and
/// read back only if the digest is right.
#[derive(Debug, PartialEq, Eq)]
pub struct WithChecksum<C, T> where C: ChecksumConfig {
    pub(crate) data: T,
    _p: PhantomData<C>,
}

impl<C, T> WithChecksum<C, T> where C: ChecksumConfig {
    /// The value inside.
    pub closed spec fn data(&self) -> T {
        self.data
    }

    /// Wraps `data`.
    pub fn new(data: T) -> (s: Self)
        ensures
            s.data() == data,
    {
        Self { data, _p: PhantomData }
    }

    /// Unwraps the value inside.
    pub fn into_inner(self) -> (data: T)
        ensures
            data == self.data(),
    {
        self.data
    }
}

impl<C, T> Clone for WithChecksum<C, T> where C: ChecksumConfig, T: Clone {
    /// A wrapper around a clone of the value inside.
    fn clone(&self) -> (s: Self)
        ensures
            cloned(self.data(), s.data()),
    {
        Self { data: self.data.clone(), _p: PhantomData }
    }
}

impl<C, T> DeepView for WithChecksum<C, T> where C: ChecksumConfig, T: DeepView {
    type V = T::V;

    open spec fn deep_view(&self) -> T::V {
        self.data().deep_view()
    }
}

/// The wire form is that of the value inside, then the digest of those bytes
/// in eight bytes, big end first.
impl<C, T> WireFormat for WithChecksum<C, T> where C: ChecksumConfig, T: WireFormat {
    open spec fn wire(&self) -> Seq<u8> {
        with_trailer::<C>(self.data().wire())
    }

    open spec fn fits(&self) -> bool {
        self.data().fits()
    }

    open spec fn parse(bytes: Seq<u8>) -> Parsed<T::V> {
        match T::parse(bytes) {
            Ok((v, used)) => match check_trailer::<C>(bytes, used) {
                Ok(all) => Ok((v, all)),
                Err(kind) => Err(kind),
            },
            Err(kind) => Err(kind),
        }
    }

    proof fn lemma_parse_wire(&self, rest: Seq<u8>) {
        let payload = self.data().wire();
        self.data().lemma_parse_wire(trailer_of::<C>(payload) + rest);
        lemma_trailer_passes::<C>(payload, rest);
        assert(payload + (trailer_of::<C>(payload) + rest) =~= self.wire() + rest);
    }

    proof fn lemma_parse_within(bytes: Seq<u8>) {
    }

    proof fn lemma_wire_parsed(&self, bytes: Seq<u8>) {
        let used = T::parse(bytes)->Ok_0.1;
        self.data().lemma_wire_parsed(bytes);
        lemma_passed_has_trailer::<C>(bytes, used);
    }
}

impl<C, T> FixedSize for WithChecksum<C, T> where C: ChecksumConfig, T: FixedSize {
    open spec fn encoded_len() -> nat {
        T::encoded_len() + 8
    }

    open spec fn fills_size(&self) -> bool {
        self.data().fills_size()
    }

    fn encoded_size() -> (n: usize) {
        assert(Self::encoded_len() == T::encoded_len() + 8);
        T::encoded_size().saturating_add(8)
    }

    proof fn lemma_encoded_size(&self) {
        self.data().lemma_encoded_size();
        lemma_be_bytes_len(C::Hasher::checksum(self.data().wire()) as nat, 8);
    }
}

impl<C, T> Encode for WithChecksum<C, T> where C: ChecksumConfig, T: Encode {
    fn encode<W: Write>(&self, w: W) -> (res: (Result<usize, Error>, W)) {
        let ghost payload = self.data().wire();
        proof {
            lemma_be_bytes_len(C::Hasher::checksum(payload) as nat, 8);
        }
        let cw = ChecksumWriter::<C, W>::new(w);
        let ghost fresh = cw;
        let (n, cw) = self.data.encode(cw);
        let n = match n {
            Ok(n) => n,
            Err(e) => {
                return (Err(e), cw.into_inner());
            },
        };
        let ghost fed = cw;
        proof {
            if w.reliable() {
                fed.lemma_wrote_reliable(&fresh, payload);
                assert(Seq::<u8>::empty() + payload =~= payload);
            }
        }
        let (m, w2) = cw.write_checksum();
        let m = match m {
            Ok(m) => m,
            Err(e) => {
                return (Err(e), w2);
            },
        };
        proof {
            if w.reliable() {
                w2.lemma_wrote_more(&fed.inner(), &w, payload, trailer_of::<C>(payload));
            }
        }
        (Ok(n.saturating_add(m)), w2)
    }
}

impl<C, T> WithChecksum<C, T> where C: ChecksumConfig, T: Decode {
    /// Reads a value through a checksum reader, then the trailer, which has
    /// to be the digest of the bytes that were read.
    ///
    /// A trailer that differs is an error of kind `InvalidData`; its message
    /// is that of `verify_checksum` in the context `WithChecksum::decode()`.
    pub fn read_from<R: Read>(r: R) -> (res: (Result<Self, Error>, R))
        ensures
            decodes(r, res),
            r.reliable() ==> match T::parse(r.pending()) {
                Ok((_, used)) => check_trailer::<C>(r.pending(), used) == Err::<nat, ErrorKind>(
                    ErrorKind::InvalidData,
                ) ==> (res.0 matches Err(e) && e.message@ == trailer_mismatch::<C>(
                    r.pending(),
                    used,
                    "WithChecksum::decode()"@,
                )),
                Err(_) => true,
            },
    {
        let cr = ChecksumReader::<C, R>::new(r);
        let ghost fresh = cr;
        let ghost all = r.pending();
        let (data, cr) = T::decode(cr);
        let data = match data {
            Ok(data) => data,
            Err(e) => {
                return (Err(e), cr.into_inner());
            },
        };
        let ghost used = T::parse(all)->Ok_0.1;
        let ghost read = cr;
        proof {
            lemma_took_front(&read.inner(), &r, used);
            assert(Seq::<u8>::empty() + all.take(used as int) =~= all.take(used as int));
            if used + 8 <= all.len() {
                assert(all.skip(used as int).take(8) =~= all.subrange(
                    used as int,
                    used + 8 as int,
                ));
            }
        }
        let (checked, r2) = cr.verify_checksum("WithChecksum::decode()");
        match checked {
            Ok(()) => {
                proof {
                    lemma_took_in_turn(&r2, &read.inner(), &r, used, 8);
                }
                (Ok(Self { data, _p: PhantomData }), r2)
            },
            Err(e) => (Err(e), r2),
        }
    }
}

impl<C, T> Decode for WithChecksum<C, T> where C: ChecksumConfig, T: Decode {
    fn decode<R: Read>(r: R) -> (res: (Result<Self, Error>, R)) {
        Self::read_from(r)
    }
}

} // verus!
