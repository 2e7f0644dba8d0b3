//! Big-endian integers on the wire.

use byteorder::BigEndian;
use byteorder::ByteOrder;
use vstd::prelude::*;

use crate::error::Error;
use crate::error::ErrorKind;
use crate::stream::Read;
use crate::stream::Write;

verus! {

/// The number that `bytes` spell in base 256, most significant byte first.
pub open spec fn be_value(bytes: Seq<u8>) -> nat
    decreases bytes.len(),
{
    if bytes.len() == 0 {
        0
    } else {
        be_value(bytes.drop_last()) * 256 + bytes.last() as nat
    }
}

/// The lowest `width` base-256 digits of `n`, most significant first.
pub open spec fn be_bytes(n: nat, width: nat) -> Seq<u8>
    decreases width,
{
    if width == 0 {
        Seq::<u8>::empty()
    } else {
        be_bytes(n / 256, (width - 1) as nat).push((n % 256) as u8)
    }
}

/// The number of values that `width` bytes can spell.
pub open spec fn be_limit(width: nat) -> nat
    decreases width,
{
    if width == 0 {
        1
    } else {
        256 * be_limit((width - 1) as nat)
    }
}

/// `be_bytes` gives as many bytes as it is asked for.
pub proof fn lemma_be_bytes_len(n: nat, width: nat)
    ensures
        be_bytes(n, width).len() == width,
    decreases width,
{
    if width > 0 {
        lemma_be_bytes_len(n / 256, (width - 1) as nat);
    }
}

/// Bytes spell a number below the limit of their width.
pub proof fn lemma_be_value_bound(bytes: Seq<u8>)
    ensures
        be_value(bytes) < be_limit(bytes.len()),
    decreases bytes.len(),
{
    if bytes.len() > 0 {
        lemma_be_value_bound(bytes.drop_last());
    }
}

/// A number that fits its width is read back from its bytes.
pub proof fn lemma_be_value_of_bytes(n: nat, width: nat)
    requires
        n < be_limit(width),
    ensures
        be_value(be_bytes(n, width)) == n,
    decreases width,
{
    if width > 0 {
        let rest = be_bytes(n / 256, (width - 1) as nat);
        lemma_be_value_of_bytes(n / 256, (width - 1) as nat);
        assert(rest.push((n % 256) as u8).drop_last() =~= rest);
    }
}

/// Bytes are written back from the number they spell.
pub proof fn lemma_be_bytes_of_value(bytes: Seq<u8>)
    ensures
        be_bytes(be_value(bytes), bytes.len()) == bytes,
    decreases bytes.len(),
{
    if bytes.len() > 0 {
        let front = bytes.drop_last();
        lemma_be_bytes_of_value(front);
        assert(front.push(bytes.last()) =~= bytes);
    }
}

/// Two numbers with the same eight bytes are one number.
pub proof fn lemma_be_bytes_agree(a: u64, b: u64)
    requires
        be_bytes(a as nat, 8) == be_bytes(b as nat, 8),
    ensures
        a == b,
{
    lemma_be_limits();
    lemma_be_value_of_bytes(a as nat, 8);
    lemma_be_value_of_bytes(b as nat, 8);
}

/// The limits of the widths that the wire uses.
pub proof fn lemma_be_limits()
    ensures
        be_limit(1) == 0x100,
        be_limit(4) == 0x1_0000_0000,
        be_limit(8) == 0x1_0000_0000_0000_0000,
{
    reveal_with_fuel(be_limit, 9);
}

/// The eight bytes of `n`, as `byteorder::BigEndian::write_u64` lays them
/// out: the big-endian form of `n`.
#[verifier::external_body]
fn u64_to_be(n: u64) -> (buf: [u8; 8])
    ensures
        buf@ == be_bytes(n as nat, 8),
{
    let mut buf = [0u8; 8];
    BigEndian::write_u64(&mut buf, n);
    buf
}

/// The four bytes of `n`, as `byteorder::BigEndian::write_u32` lays them
/// out: the big-endian form of `n`.
#[verifier::external_body]
fn u32_to_be(n: u32) -> (buf: [u8; 4])
    ensures
        buf@ == be_bytes(n as nat, 4),
{
    let mut buf = [0u8; 4];
    BigEndian::write_u32(&mut buf, n);
    buf
}

/// The number that `byteorder::BigEndian::read_u64` finds in the first eight
/// bytes of `buf`: the one they spell in big-endian order. It panics on a
/// shorter slice.
#[verifier::external_body]
fn u64_from_be(buf: &[u8]) -> (n: u64)
    requires
        buf@.len() >= 8,
    ensures
        n as nat == be_value(buf@.take(8)),
{
    BigEndian::read_u64(buf)
}

/// The number that `byteorder::BigEndian::read_u32` finds in the first four
/// bytes of `buf`: the one they spell in big-endian order. It panics on a
/// shorter slice.
#[verifier::external_body]
fn u32_from_be(buf: &[u8]) -> (n: u32)
    requires
        buf@.len() >= 4,
    ensures
        n as nat == be_value(buf@.take(4)),
{
    BigEndian::read_u32(buf)
}

/// Writes the single byte `n`.
pub fn write_u8<W: Write>(w: &mut W, n: u8) -> (r: Result<(), Error>)
    ensures
        old(w).reliable() ==> r is Ok && final(w).wrote(old(w), seq![n]),
{
    let buf = [n];
    assert(buf@ =~= seq![n]);
    w.write_all(buf.as_slice())
}

/// Writes `n` as four bytes, big end first.
pub fn write_u32<W: Write>(w: &mut W, n: u32) -> (r: Result<(), Error>)
    ensures
        old(w).reliable() ==> r is Ok && final(w).wrote(old(w), be_bytes(n as nat, 4)),
{
    let buf = u32_to_be(n);
    w.write_all(buf.as_slice())
}

/// Writes `n` as eight bytes, big end first.
pub fn write_u64<W: Write>(w: &mut W, n: u64) -> (r: Result<(), Error>)
    ensures
        old(w).reliable() ==> r is Ok && final(w).wrote(old(w), be_bytes(n as nat, 8)),
{
    let buf = u64_to_be(n);
    w.write_all(buf.as_slice())
}

/// Reads a single byte.
pub fn read_u8<R: Read>(r: &mut R) -> (res: Result<u8, Error>)
    ensures
        res matches Ok(n) ==> {
            &&& old(r).pending().len() >= 1
            &&& n == old(r).pending()[0]
            &&& final(r).took(old(r), old(r).pending().take(1))
        },
        old(r).reliable() ==> (res is Ok <==> old(r).pending().len() >= 1),
        res matches Err(e) ==> old(r).reliable() ==> {
            &&& e.kind == ErrorKind::UnexpectedEof
            &&& e.message@ == "failed to fill whole buffer"@
        },
{
    let mut buf = [0u8; 1];
    match r.read_exact(&mut buf) {
        Ok(()) => Ok(buf[0]),
        Err(e) => Err(e),
    }
}

/// Reads four bytes as a number, big end first.
pub fn read_u32<R: Read>(r: &mut R) -> (res: Result<u32, Error>)
    ensures
        res matches Ok(n) ==> {
            &&& old(r).pending().len() >= 4
            &&& n as nat == be_value(old(r).pending().take(4))
            &&& final(r).took(old(r), old(r).pending().take(4))
        },
        old(r).reliable() ==> (res is Ok <==> old(r).pending().len() >= 4),
        res matches Err(e) ==> old(r).reliable() ==> {
            &&& e.kind == ErrorKind::UnexpectedEof
            &&& e.message@ == "failed to fill whole buffer"@
        },
{
    let mut buf = [0u8; 4];
    match r.read_exact(&mut buf) {
        Ok(()) => {
            assert(buf@.take(4) =~= buf@);
            Ok(u32_from_be(buf.as_slice()))
        },
        Err(e) => Err(e),
    }
}

/// Reads eight bytes as a number, big end first.
pub fn read_u64<R: Read>(r: &mut R) -> (res: Result<u64, Error>)
    ensures
        res matches Ok(n) ==> {
            &&& old(r).pending().len() >= 8
            &&& n as nat == be_value(old(r).pending().take(8))
            &&& final(r).took(old(r), old(r).pending().take(8))
        },
        old(r).reliable() ==> (res is Ok <==> old(r).pending().len() >= 8),
        res matches Err(e) ==> old(r).reliable() ==> {
            &&& e.kind == ErrorKind::UnexpectedEof
            &&& e.message@ == "failed to fill whole buffer"@
        },
{
    let mut buf = [0u8; 8];
    match r.read_exact(&mut buf) {
        Ok(()) => {
            assert(buf@.take(8) =~= buf@);
            Ok(u64_from_be(buf.as_slice()))
        },
        Err(e) => Err(e),
    }
}

} // verus!
