//! Checks of a codec at run time, for tests.

use core::fmt::Debug;

use vstd::prelude::*;
use vstd::slice::slice_to_vec;
use vstd::std_specs::cmp::PartialEqSpec;

use crate::codec::Codec;
use crate::codec::WireFormat;
use crate::digits::decimal;
use crate::digits::push_decimal;
use crate::error::Error;
use crate::error::ErrorKind;
use crate::fixed_size::FixedSize;
use crate::stream::count_on;

verus! {

/// `byte` raised by one, with 255 turning to 0.
pub open spec fn bumped(byte: u8) -> u8 {
    if byte == 255 {
        0
    } else {
        (byte + 1) as u8
    }
}

/// `bytes` with the byte at `at` raised by one.
pub open spec fn corrupted(bytes: Seq<u8>, at: int) -> Seq<u8> {
    bytes.update(at, bumped(bytes[at]))
}

/// No byte among the first `upto` of `bytes` can be raised by one without
/// `D` refusing to parse the outcome.
pub open spec fn detects_changes<D: WireFormat>(bytes: Seq<u8>, upto: int) -> bool {
    forall|at: int| 0 <= at < upto ==> (#[trigger] D::parse(corrupted(bytes, at))) is Err
}

/// What is said of a change at `at` that decoding did not notice.
pub open spec fn unnoticed_message(at: nat) -> Seq<char> {
    "change "@ + decimal(at) + "-th byte"@
}

/// The byte at `at` is the first that can be raised by one without `D`
/// refusing to parse the outcome.
pub open spec fn first_unnoticed<D: WireFormat>(bytes: Seq<u8>, at: int) -> bool {
    &&& 0 <= at < bytes.len()
    &&& detects_changes::<D>(bytes, at)
    &&& D::parse(corrupted(bytes, at)) is Ok
}

/// `==` on `D` holds of any two values with the same deep view.
pub open spec fn equality_follows_view<D: DeepView + PartialEq>() -> bool {
    &&& D::obeys_eq_spec()
    &&& forall|a: D, b: D| a.deep_view() == b.deep_view() ==> #[trigger] a.eq_spec(&b)
}

/// Whether two slices hold the same bytes.
pub fn same_bytes(a: &[u8], b: &[u8]) -> (same: bool)
    ensures
        same == (a@ == b@),
{
    if a.len() != b.len() {
        return false;
    }
    let mut i: usize = 0;
    while i < a.len()
        invariant
            i <= a@.len(),
            a@.len() == b@.len(),
            a@.take(i as int) == b@.take(i as int),
        decreases a@.len() - i,
    {
        if a[i] != b[i] {
            return false;
        }
        i += 1;
        assert(a@.take(i as int) =~= a@.take(i - 1).push(a@[i - 1]));
        assert(b@.take(i as int) =~= b@.take(i - 1).push(b@[i - 1]));
    }
    assert(a@ =~= a@.take(i as int));
    assert(b@ =~= b@.take(i as int));
    true
}

/// The error for a check that did not hold.
fn failed(what: &str) -> (e: Error)
    ensures
        e.kind == ErrorKind::Other,
        e.message@ == what@,
{
    Error::new(ErrorKind::Other, what.to_owned())
}

/// Puts a codec to the test on one value and the bytes that it should give.
///
/// The value has to encode to `encoded_bytes`, those bytes have to decode to
/// a value that `==` takes for the same, and no byte of them may be raised by
/// one without decoding failing. The first of these that does not hold is
/// reported as an error. An error of the codec itself is handed on.
pub fn test_codec<D: Codec + PartialEq + Debug>(encoded_bytes: &[u8], v: &D) -> (r: Result<
    (),
    Error,
>)
    ensures
        r is Ok ==> {
            &&& v.wire() == encoded_bytes@
            &&& D::parse(encoded_bytes@) is Ok
            &&& detects_changes::<D>(encoded_bytes@, encoded_bytes@.len() as int)
        },
        v.fits() && equality_follows_view::<D>() ==> (r is Ok <==> {
            &&& v.wire() == encoded_bytes@
            &&& detects_changes::<D>(encoded_bytes@, encoded_bytes@.len() as int)
        }),
        v.wire() != encoded_bytes@ ==> (r matches Err(e) && e.kind == ErrorKind::Other
            && e.message@ == "output data"@),
        v.wire() == encoded_bytes@ ==> match D::parse(encoded_bytes@) {
            Ok(_) => v.fits() && equality_follows_view::<D>() ==> (r matches Err(e) ==> exists|
                at: int,
            |
                {
                    &&& #[trigger] first_unnoticed::<D>(encoded_bytes@, at)
                    &&& e.kind == ErrorKind::Other
                    &&& e.message@ == unnoticed_message(at as nat)
                }),
            Err(kind) => r matches Err(e) && e.kind == kind,
        },
{
    let ghost bytes = encoded_bytes@;
    proof {
        if v.fits() {
            v.lemma_parse_wire(Seq::<u8>::empty());
            assert(v.wire() + Seq::<u8>::empty() =~= v.wire());
        }
    }
    // The value gives the bytes.
    let (n, b) = v.encode(Vec::new());
    assert(Seq::<u8>::empty() + v.wire() =~= v.wire());
    match n {
        Ok(n) => {
            if n != b.len() {
                return Err(failed("output len"));
            }
        },
        Err(e) => {
            return Err(e);
        },
    }
    if !same_bytes(b.as_slice(), encoded_bytes) {
        return Err(failed("output data"));
    }
    // The bytes give the value.
    let (decoded, _) = D::decode(encoded_bytes);
    match decoded {
        Ok(decoded) => {
            if !(*v == decoded) {
                return Err(failed("decode"));
            }
        },
        Err(e) => {
            return Err(e);
        },
    }
    // No changed byte goes unnoticed.
    let mut i: usize = 0;
    while i < encoded_bytes.len()
        invariant
            i <= bytes.len(),
            bytes == encoded_bytes@,
            v.wire() == bytes,
            D::parse(bytes) is Ok,
            detects_changes::<D>(bytes, i as int),
        decreases bytes.len() - i,
    {
        let mut changed = slice_to_vec(encoded_bytes);
        changed[i] = changed[i].wrapping_add(1);
        assert(changed@ =~= corrupted(bytes, i as int));
        let (res, _) = D::decode(changed.as_slice());
        if res.is_ok() {
            let mut what = "change ".to_owned();
            push_decimal(&mut what, i as u64);
            what.append("-th byte");
            assert(first_unnoticed::<D>(bytes, i as int));
            return Err(Error::new(ErrorKind::Other, what));
        }
        i += 1;
    }
    Ok(())
}

/// Puts the codec of an integer type to the test on one value.
///
/// The type has to declare the size that it has in memory, and the value has
/// to come back from its encoding as one that `==` takes for the same. The
/// first of these that does not hold is reported as an error.
pub fn test_int_coded<T: Codec + FixedSize + PartialEq + Debug>(v: T) -> (r: Result<(), Error>)
    ensures
        r is Ok ==> count_on(0, T::encoded_len()) == vstd::layout::size_of::<T>(),
        v.fits() && equality_follows_view::<T>() ==> (r is Ok <==> count_on(0, T::encoded_len())
            == vstd::layout::size_of::<T>()),
        count_on(0, T::encoded_len()) != vstd::layout::size_of::<T>() ==> (r matches Err(e)
            && e.kind == ErrorKind::Other && e.message@ == "encoded size"@),
{
    let size = core::mem::size_of::<T>();
    if T::encoded_size() != size {
        return Err(failed("encoded size"));
    }
    proof {
        if v.fits() {
            v.lemma_parse_wire(Seq::<u8>::empty());
            assert(v.wire() + Seq::<u8>::empty() =~= v.wire());
        }
    }
    let (n, buf) = v.encode(Vec::new());
    assert(Seq::<u8>::empty() + v.wire() =~= v.wire());
    match n {
        Ok(n) => {
            if n != buf.len() {
                return Err(failed("output len"));
            }
        },
        Err(e) => {
            return Err(e);
        },
    }
    let (b, _) = T::decode(buf.as_slice());
    match b {
        Ok(b) => {
            if !(v == b) {
                return Err(failed("decode"));
            }
        },
        Err(e) => {
            return Err(e);
        },
    }
    Ok(())
}

} // verus!
