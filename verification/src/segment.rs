//! A region of a file or a buffer, with a checksum of its own.

use core::marker::PhantomData;

use vstd::prelude::*;

use crate::byte_order::be_bytes;
use crate::byte_order::be_value;
use crate::byte_order::lemma_be_bytes_len;
use crate::byte_order::lemma_be_bytes_of_value;
use crate::byte_order::lemma_be_value_bound;
use crate::byte_order::lemma_be_limits;
use crate::byte_order::lemma_be_value_of_bytes;
use crate::byte_order::read_u64;
use crate::byte_order::write_u64;
use crate::checksum_reader::ChecksumReader;
use crate::checksum_writer::ChecksumWriter;
use crate::codec::decodes;
use crate::codec::Decode;
use crate::codec::Encode;
use crate::codec::Parsed;
use crate::codec::WireFormat;
use crate::config::ChecksumConfig;
use crate::config::HashAlgorithm;
use crate::error::Error;
use crate::error::ErrorKind;
use crate::fixed_size::FixedSize;
use crate::span::Offset;
use crate::span::Size;
use crate::span::Span;
use crate::stream::lemma_took_front;
use crate::stream::lemma_took_in_turn;
use crate::stream::Read;
use crate::stream::Write;
use crate::with_checksum::check_trailer;
use crate::with_checksum::trailer_mismatch;
use crate::with_checksum::lemma_trailer_passes;
use crate::with_checksum::lemma_passed_has_trailer;
use crate::with_checksum::with_trailer;

verus! {

/// The sixteen bytes that a segment's checksum covers: its offset and its
/// size, each in eight bytes with the big end first.
pub open spec fn segment_payload(offset: u64, size: u64) -> Seq<u8> {
    be_bytes(offset as nat, 8) + be_bytes(size as nat, 8)
}

/// The payload of a segment is sixteen bytes, and the two numbers are read
/// back from its halves.
pub proof fn lemma_segment_payload(offset: u64, size: u64)
    ensures
        segment_payload(offset, size).len() == 16,
        be_value(segment_payload(offset, size).take(8)) == offset,
        be_value(segment_payload(offset, size).subrange(8, 16)) == size,
{
    let payload = segment_payload(offset, size);
    lemma_be_bytes_len(offset as nat, 8);
    lemma_be_bytes_len(size as nat, 8);
    lemma_be_limits();
    lemma_be_value_of_bytes(offset as nat, 8);
    lemma_be_value_of_bytes(size as nat, 8);
    assert(payload.take(8) =~= be_bytes(offset as nat, 8));
    assert(payload.subrange(8, 16) =~= be_bytes(size as nat, 8));
}

/// A region that begins at `offset` and is `size` bytes long.
///
/// A segment is a plain value: nothing holds it against the file or buffer
/// that it speaks of. On the wire it is 24 bytes, the last eight of them the
/// checksum of the first sixteen under configuration `C`.
#[derive(Debug, PartialEq, Eq)]
pub struct Segment<C> where C: ChecksumConfig {
    /// Where the region begins, in bytes.
    pub offset: u64,
    /// How long the region is, in bytes.
    pub size: u64,
    pub _p: PhantomData<C>,
}

impl<C> Segment<C> where C: ChecksumConfig {
    /// The segment of `size` bytes that begins at `offset`.
    pub fn new(offset: u64, size: u64) -> (s: Self)
        ensures
            s.offset == offset,
            s.size == size,
    {
        Self { offset, size, _p: PhantomData }
    }
}

impl<C> Clone for Segment<C> where C: ChecksumConfig {
    fn clone(&self) -> (s: Self)
        ensures
            s == *self,
    {
        *self
    }
}

impl<C> Copy for Segment<C> where C: ChecksumConfig {

}

impl<C> Default for Segment<C> where C: ChecksumConfig {
    fn default() -> (s: Self)
        ensures
            s.offset == 0,
            s.size == 0,
    {
        Self { offset: 0, size: 0, _p: PhantomData }
    }
}

impl<C> Span for Segment<C> where C: ChecksumConfig {
    open spec fn span_offset(&self) -> Offset {
        Offset(self.offset)
    }

    open spec fn span_size(&self) -> Size {
        Size(self.size)
    }

    fn offset(&self) -> (r: Offset) {
        Offset(self.offset)
    }

    fn size(&self) -> (r: Size) {
        Size(self.size)
    }
}

impl<C> DeepView for Segment<C> where C: ChecksumConfig {
    type V = (u64, u64);

    open spec fn deep_view(&self) -> (u64, u64) {
        (self.offset, self.size)
    }
}

/// The wire form is the offset, the size and the digest of those sixteen
/// bytes, each in eight bytes with the big end first.
impl<C> WireFormat for Segment<C> where C: ChecksumConfig {
    open spec fn wire(&self) -> Seq<u8> {
        with_trailer::<C>(segment_payload(self.offset, self.size))
    }

    open spec fn fits(&self) -> bool {
        true
    }

    open spec fn parse(bytes: Seq<u8>) -> Parsed<(u64, u64)> {
        if bytes.len() < 16 {
            Err(ErrorKind::UnexpectedEof)
        } else {
            match check_trailer::<C>(bytes, 16) {
                Ok(all) => Ok(
                    (
                        (
                            be_value(bytes.take(8)) as u64,
                            be_value(bytes.subrange(8, 16)) as u64,
                        ),
                        all,
                    ),
                ),
                Err(kind) => Err(kind),
            }
        }
    }

    proof fn lemma_parse_wire(&self, rest: Seq<u8>) {
        let payload = segment_payload(self.offset, self.size);
        let all = self.wire() + rest;
        lemma_segment_payload(self.offset, self.size);
        lemma_trailer_passes::<C>(payload, rest);
        assert(all.take(8) =~= payload.take(8));
        assert(all.subrange(8, 16) =~= payload.subrange(8, 16));
    }

    proof fn lemma_parse_within(bytes: Seq<u8>) {
    }

    proof fn lemma_wire_parsed(&self, bytes: Seq<u8>) {
        lemma_be_limits();
        lemma_be_value_bound(bytes.take(8));
        lemma_be_value_bound(bytes.subrange(8, 16));
        lemma_be_bytes_of_value(bytes.take(8));
        lemma_be_bytes_of_value(bytes.subrange(8, 16));
        lemma_passed_has_trailer::<C>(bytes, 16);
        assert(bytes.take(8) + bytes.subrange(8, 16) =~= bytes.take(16));
    }
}

impl<C> FixedSize for Segment<C> where C: ChecksumConfig {
    open spec fn encoded_len() -> nat {
        24
    }

    open spec fn fills_size(&self) -> bool {
        true
    }

    /// 24: eight bytes each for the offset, the size and the checksum.
    fn encoded_size() -> (n: usize) {
        assert(Self::encoded_len() == 24);
        8 + 8 + 8
    }

    proof fn lemma_encoded_size(&self) {
        lemma_segment_payload(self.offset, self.size);
        lemma_trailer_passes::<C>(segment_payload(self.offset, self.size), Seq::<u8>::empty());
        assert(Self::encoded_len() == 24);
    }
}

impl<C> Encode for Segment<C> where C: ChecksumConfig {
    fn encode<W: Write>(&self, w: W) -> (res: (Result<usize, Error>, W)) {
        let ghost first = be_bytes(self.offset as nat, 8);
        let ghost second = be_bytes(self.size as nat, 8);
        proof {
            self.lemma_encoded_size();
        }
        let mut n: usize = 0;
        let mut cw = ChecksumWriter::<C, W>::new(w);
        let ghost fresh = cw;

        match write_u64(&mut cw, self.offset) {
            Ok(()) => {},
            Err(e) => {
                return (Err(e), cw.into_inner());
            },
        }
        n += 8;
        let ghost half = cw;
        proof {
            if w.reliable() {
                half.lemma_wrote_reliable(&fresh, first);
            }
        }

        match write_u64(&mut cw, self.size) {
            Ok(()) => {},
            Err(e) => {
                return (Err(e), cw.into_inner());
            },
        }
        n += 8;
        let ghost full = cw;
        proof {
            if w.reliable() {
                full.lemma_wrote_more(&half, &fresh, first, second);
                full.lemma_wrote_reliable(&fresh, first + second);
                assert(Seq::<u8>::empty() + (first + second) =~= first + second);
            }
        }

        let (m, w2) = cw.write_checksum();
        match m {
            Ok(m) => {
                proof {
                    if w.reliable() {
                        w2.lemma_wrote_more(&full.inner(), &w, first + second, full.trailer());
                    }
                }
                (Ok(n + m), w2)
            },
            Err(e) => (Err(e), w2),
        }
    }
}

impl<C> Segment<C> where C: ChecksumConfig {
    /// Reads the offset and the size through a checksum reader, then the
    /// checksum, which has to be the digest of those sixteen bytes.
    ///
    /// A checksum that differs is an error of kind `InvalidData`; its
    /// message is that of `verify_checksum` in the context
    /// `Segment::decode()`.
    pub fn read_from<R: Read>(r: R) -> (res: (Result<Self, Error>, R))
        ensures
            decodes(r, res),
            r.reliable() && r.pending().len() >= 24 && Self::parse(r.pending()) is Err ==> (
            res.0 matches Err(e) && e.message@ == trailer_mismatch::<C>(
                r.pending(),
                16,
                "Segment::decode()"@,
            )),
    {
        let ghost all = r.pending();
        let mut cr = ChecksumReader::<C, R>::new(r);
        let ghost fresh = cr;

        let offset = match read_u64(&mut cr) {
            Ok(v) => v,
            Err(e) => {
                return (Err(e), cr.into_inner());
            },
        };
        let ghost half = cr;
        proof {
            lemma_took_front(&half, &fresh, 8);
        }
        let size = match read_u64(&mut cr) {
            Ok(v) => v,
            Err(e) => {
                return (Err(e), cr.into_inner());
            },
        };
        let ghost full = cr;
        proof {
            lemma_took_in_turn(&full, &half, &fresh, 8, 8);
            lemma_took_front(&full.inner(), &r, 16);
            assert(all.skip(8).take(8) =~= all.subrange(8, 16));
            assert(Seq::<u8>::empty() + all.take(16) =~= all.take(16));
            if all.len() >= 24 {
                assert(all.skip(16).take(8) =~= all.subrange(16, 24));
            }
        }

        let (checked, r2) = cr.verify_checksum("Segment::decode()");
        match checked {
            Ok(()) => {
                proof {
                    lemma_took_in_turn(&r2, &full.inner(), &r, 16, 8);
                }
                (Ok(Self { offset, size, _p: PhantomData }), r2)
            },
            Err(e) => (Err(e), r2),
        }
    }
}

impl<C> Decode for Segment<C> where C: ChecksumConfig {
    fn decode<R: Read>(r: R) -> (res: (Result<Self, Error>, R)) {
        Self::read_from(r)
    }
}

} // verus!
