//! What holds of the codec as a whole.

use vstd::prelude::*;

use crate::byte_order::lemma_be_bytes_agree;
use crate::codec::Codec;
use crate::codec::Decode;
use crate::codec::Encode;
use crate::codec::WireFormat;
use crate::config::ChecksumConfig;
use crate::config::CodeqConfig;
use crate::config::HashAlgorithm;
use crate::error::Error;
use crate::error::ErrorKind;
use crate::fixed_size::FixedSize;
use crate::segment::lemma_segment_payload;
use crate::segment::segment_payload;
use crate::segment::Segment;
use crate::stream::count_on;
use crate::stream::lemma_took_front;
use crate::stream::Read;
use crate::stream::Write;
use crate::with_checksum::lemma_trailer_passes;
use crate::with_checksum::lemma_wrong_payload;
use crate::with_checksum::lemma_wrong_trailer;
use crate::with_checksum::trailer_of;
use crate::with_checksum::WithChecksum;

verus! {

/// The checksum of a buffer depends on its bytes alone: two calls on the
/// same bytes agree, and the checksum of no bytes is one fixed number.
pub proof fn law_hash_is_stable<C: CodeqConfig>(a: &[u8], b: &[u8], first: u64, second: u64)
    requires
        a@ == b@,
        call_ensures(C::hash, (a,), first),
        call_ensures(C::hash, (b,), second),
    ensures
        first == second,
        a@.len() == 0 ==> first == C::Hasher::checksum(Seq::<u8>::empty()),
{
    if a@.len() == 0 {
        assert(a@ =~= Seq::<u8>::empty());
    }
}

/// On a reliable stream, decoding does what `parse` says of the pending
/// bytes: it hands out the value that `parse` finds and leaves what stands
/// behind it, or fails in the way in which `parse` fails.
pub proof fn law_decode_is_parse<T: Decode, R: Read>(source: R, read: (Result<T, Error>, R))
    requires
        source.reliable(),
        call_ensures(T::decode::<R>, (source,), read),
    ensures
        match T::parse(source.pending()) {
            Ok((found, used)) => {
                &&& read.0 matches Ok(v) && v.deep_view() == found
                &&& used <= source.pending().len()
                &&& read.1.pending() == source.pending().skip(used as int)
            },
            Err(kind) => read.0 matches Err(e) && e.kind == kind,
        },
{
    if let Ok((found, used)) = T::parse(source.pending()) {
        lemma_took_front(&read.1, &source, used);
    }
}

/// A value that was decoded took from the stream exactly its own wire form:
/// the bytes that encoding it would write.
pub proof fn law_decode_reads_wire<T: Decode, R: Read>(source: R, read: (Result<T, Error>, R))
    requires
        call_ensures(T::decode::<R>, (source,), read),
    ensures
        read.0 matches Ok(v) ==> {
            &&& v.wire().is_prefix_of(source.pending())
            &&& read.1.took(&source, v.wire())
        },
{
    if let Ok(v) = read.0 {
        v.lemma_wire_parsed(source.pending());
    }
}

/// What was encoded into a buffer is decoded from it again, and decoding
/// reads no further than the value goes: whatever stands behind it in the
/// buffer is left for the next reader.
pub proof fn law_round_trip<T: Codec, R: Read>(
    v: T,
    start: Vec<u8>,
    written: (Result<usize, Error>, Vec<u8>),
    source: R,
    extra: Seq<u8>,
    read: (Result<T, Error>, R),
)
    requires
        v.fits(),
        call_ensures(T::encode::<Vec<u8>>, (&v, start), written),
        source.reliable(),
        source.pending() == written.1@.skip(start@.len() as int) + extra,
        call_ensures(T::decode::<R>, (source,), read),
    ensures
        written.0 matches Ok(n) && n == count_on(0, v.wire().len()),
        written.1@ == start@ + v.wire(),
        read.0 matches Ok(back) && back.deep_view() == v.deep_view(),
        read.1.pending() == extra,
{
    let wire = v.wire();
    assert((start@ + wire).skip(start@.len() as int) =~= wire);
    v.lemma_parse_wire(extra);
    lemma_took_front(&read.1, &source, wire.len());
    assert(extra =~= (wire + extra).skip(wire.len() as int));
}

/// A reference is encoded as the value that it points to.
pub proof fn law_reference_is_transparent<T: Encode, W: Write>(
    v: T,
    w: W,
    by_value: (Result<usize, Error>, W),
    by_reference: (Result<usize, Error>, W),
)
    requires
        w.reliable(),
        call_ensures(T::encode::<W>, (&v, w), by_value),
        call_ensures(<&T as Encode>::encode::<W>, (&&v, w), by_reference),
    ensures
        (&v).wire() == v.wire(),
        by_value.1.wrote(&w, v.wire()),
        by_reference.1.wrote(&w, v.wire()),
        by_value.0 is Ok && by_value.0 == by_reference.0,
{
}

/// A value of a type of fixed size that fills that size is encoded in
/// exactly as many bytes as the type declares.
pub proof fn law_fixed_size<T: Encode + FixedSize, W: Write>(
    v: T,
    w: W,
    written: (Result<usize, Error>, W),
)
    requires
        v.fills_size(),
        call_ensures(T::encode::<W>, (&v, w), written),
    ensures
        v.wire().len() == T::encoded_len(),
        written.0 matches Ok(n) ==> n == count_on(0, T::encoded_len()),
{
    v.lemma_encoded_size();
}

/// A segment in which one byte was changed is not decoded: a change in the
/// checksum is always found, and a change in the offset or the size is found
/// unless the changed sixteen bytes have the digest of the true ones.
pub proof fn law_segment_corruption<C: ChecksumConfig>(
    segment: Segment<C>,
    at: int,
    byte: u8,
    rest: Seq<u8>,
)
    requires
        0 <= at < 24,
        byte != segment.wire()[at],
    ensures
        segment.wire().len() == 24,
        Segment::<C>::parse(segment.wire().update(at, byte) + rest) is Ok <==> at < 16
            && C::Hasher::checksum(segment.wire().update(at, byte).take(16))
            == C::Hasher::checksum(segment.wire().take(16)),
{
    let payload = segment_payload(segment.offset, segment.size);
    let trailer = trailer_of::<C>(payload);
    let wire = segment.wire();
    let changed = wire.update(at, byte);
    lemma_segment_payload(segment.offset, segment.size);
    lemma_trailer_passes::<C>(payload, rest);
    assert(wire.take(16) =~= payload);
    if at < 16 {
        let other = changed.take(16);
        lemma_wrong_payload::<C>(payload, other, rest);
        assert(changed + rest =~= other + trailer + rest);
    } else {
        let wrong = changed.subrange(16, 24);
        assert(wrong[at - 16] == byte);
        assert(trailer[at - 16] == wire[at]);
        lemma_wrong_trailer::<C>(payload, wrong, rest);
        assert(changed + rest =~= payload + wrong + rest);
        assert(changed.take(16) =~= payload);
    }
}

/// A value with its checksum, in whose trailer one byte was changed, is not
/// decoded.
pub proof fn law_trailer_corruption<C: ChecksumConfig, T: WireFormat>(
    wrapped: WithChecksum<C, T>,
    at: int,
    byte: u8,
    rest: Seq<u8>,
)
    requires
        wrapped.fits(),
        wrapped.data().wire().len() <= at < wrapped.wire().len(),
        byte != wrapped.wire()[at],
    ensures
        WithChecksum::<C, T>::parse(wrapped.wire().update(at, byte) + rest) == Err::<
            (T::V, nat),
            ErrorKind,
        >(ErrorKind::InvalidData),
{
    let payload = wrapped.data().wire();
    let trailer = trailer_of::<C>(payload);
    let wire = wrapped.wire();
    let changed = wire.update(at, byte);
    let wrong = changed.subrange(payload.len() as int, payload.len() + 8 as int);
    lemma_trailer_passes::<C>(payload, rest);
    assert(wrong[at - payload.len()] == byte);
    assert(trailer[at - payload.len()] == wire[at]);
    lemma_wrong_trailer::<C>(payload, wrong, rest);
    assert(changed + rest =~= payload + wrong + rest);
    assert(payload + wrong + rest =~= payload + (wrong + rest));
    wrapped.data().lemma_parse_wire(wrong + rest);
}

/// A value with its checksum, in whose payload one byte was changed, is not
/// decoded, where the changed payload is taken for a value of the same
/// length, if for one at all, and does not have the digest of the true one.
pub proof fn law_payload_corruption<C: ChecksumConfig, T: WireFormat>(
    wrapped: WithChecksum<C, T>,
    at: int,
    byte: u8,
    rest: Seq<u8>,
)
    requires
        0 <= at < wrapped.data().wire().len(),
        byte != wrapped.wire()[at],
        T::parse(wrapped.wire().update(at, byte) + rest) matches Ok((_, used)) ==> used
            == wrapped.data().wire().len(),
        C::Hasher::checksum(wrapped.data().wire().update(at, byte)) != C::Hasher::checksum(
            wrapped.data().wire(),
        ),
    ensures
        WithChecksum::<C, T>::parse(wrapped.wire().update(at, byte) + rest) is Err,
{
    let payload = wrapped.data().wire();
    let other = payload.update(at, byte);
    let trailer = trailer_of::<C>(payload);
    let changed = wrapped.wire().update(at, byte);
    lemma_wrong_payload::<C>(payload, other, rest);
    assert(changed + rest =~= other + trailer + rest);
}

/// What was written under one configuration is read under another only
/// where the two give its payload the same digest.
pub proof fn law_configs_apart<C: ChecksumConfig, D: ChecksumConfig, T: WireFormat>(
    wrapped: WithChecksum<C, T>,
    rest: Seq<u8>,
)
    requires
        wrapped.fits(),
    ensures
        WithChecksum::<D, T>::parse(wrapped.wire() + rest) is Ok <==> D::Hasher::checksum(
            wrapped.data().wire(),
        ) == C::Hasher::checksum(wrapped.data().wire()),
        WithChecksum::<D, T>::parse(wrapped.wire() + rest) matches Err(kind) ==> kind
            == ErrorKind::InvalidData,
{
    let payload = wrapped.data().wire();
    let trailer = trailer_of::<C>(payload);
    lemma_trailer_passes::<C>(payload, rest);
    assert(wrapped.wire() + rest =~= payload + (trailer + rest));
    assert(wrapped.wire() + rest =~= payload + trailer + rest);
    wrapped.data().lemma_parse_wire(trailer + rest);
    if trailer == trailer_of::<D>(payload) {
        lemma_trailer_passes::<D>(payload, rest);
        lemma_be_bytes_agree(D::Hasher::checksum(payload), C::Hasher::checksum(payload));
    } else {
        lemma_wrong_trailer::<D>(payload, trailer, rest);
    }
}

/// A segment that was written under one configuration is read under another
/// only where the two give its sixteen bytes the same digest.
pub proof fn law_segment_configs_apart<C: ChecksumConfig, D: ChecksumConfig>(
    segment: Segment<C>,
    rest: Seq<u8>,
)
    ensures
        Segment::<D>::parse(segment.wire() + rest) is Ok <==> D::Hasher::checksum(
            segment_payload(segment.offset, segment.size),
        ) == C::Hasher::checksum(segment_payload(segment.offset, segment.size)),
        Segment::<D>::parse(segment.wire() + rest) matches Err(kind) ==> kind
            == ErrorKind::InvalidData,
{
    let payload = segment_payload(segment.offset, segment.size);
    let trailer = trailer_of::<C>(payload);
    lemma_segment_payload(segment.offset, segment.size);
    lemma_trailer_passes::<C>(payload, rest);
    assert(segment.wire() + rest =~= payload + trailer + rest);
    if trailer == trailer_of::<D>(payload) {
        lemma_trailer_passes::<D>(payload, rest);
        lemma_be_bytes_agree(D::Hasher::checksum(payload), C::Hasher::checksum(payload));
    } else {
        lemma_wrong_trailer::<D>(payload, trailer, rest);
    }
}

} // verus!
