use codeq::config::CodeqConfig;
use codeq::config::Crc32fast;
use codeq::config::Crc64fastNvme;
use codeq::digits::push_decimal;
use codeq::digits::push_hex;
use codeq::error_context_ext::ErrorContextExt;
use codeq::impls::vec_u8_impl::read_length_prefixed;
use codeq::testing::same_bytes;
use codeq::testing::test_int_coded;
use codeq::Decode;
use codeq::Encode;
use codeq::Error;
use codeq::ErrorKind;
use codeq::FixedSize;
use codeq::Segment;
use codeq::WithChecksum;

fn round_trip<T: Encode + Decode + PartialEq + std::fmt::Debug>(v: T, size: usize) {
    let (n, mut bytes) = v.encode(vec![0xee]);
    assert_eq!(n.unwrap(), size);
    assert_eq!(bytes.len(), 1 + size);
    assert_eq!(bytes[0], 0xee);
    assert_eq!(v.encode_to_vec().unwrap(), bytes[1..].to_vec());

    // Whatever stands behind the value is left alone.
    bytes.extend_from_slice(&[0xaa, 0xbb, 0xcc]);
    let (back, rest) = T::decode(&bytes[1..]);
    assert_eq!(back.unwrap(), v);
    assert_eq!(rest, [0xaa, 0xbb, 0xcc].as_slice());

    // Cut short anywhere, the value is not there.
    for len in 0..size {
        let (back, _) = T::decode(&bytes[1..1 + len]);
        assert_eq!(back.unwrap_err().kind(), ErrorKind::UnexpectedEof);
    }
}

#[test]
fn test_round_trips() {
    round_trip(0u8, 1);
    round_trip(0xffu8, 1);
    round_trip(0x12345678u32, 4);
    round_trip(u64::MAX, 8);
    round_trip(true, 1);
    round_trip(false, 1);
    round_trip((), 0);
    round_trip(Vec::<u8>::new(), 4);
    round_trip(vec![0u8; 300], 304);
    round_trip(String::new(), 4);
    round_trip("h\u{e9}llo \u{4e16}\u{754c}".to_string(), 4 + 13);
    round_trip(None::<u32>, 1);
    round_trip(Some(7u32), 5);
    round_trip(Some(None::<u8>), 2);
    round_trip((3u8, "x".to_string()), 6);
    round_trip(((1u8, 2u8), (3u32, Some(vec![4u8]))), 12);
    round_trip(Crc32fast::wrap(vec![1u8, 2, 3]), 15);
    round_trip(Crc64fastNvme::wrap(Crc32fast::wrap(5u64)), 24);
    round_trip(Crc64fastNvme::segment(u64::MAX, 0), 24);
    round_trip((Crc32fast::segment(1, 2), Crc32fast::segment(3, 4)), 48);
}

#[test]
fn test_values_in_a_row_on_one_stream() {
    let (_, buf) = 7u8.encode(Vec::new());
    let (_, buf) = "seven".to_string().encode(buf);
    let (_, buf) = Crc32fast::wrap(Some(7u64)).encode(buf);
    let (_, buf) = ().encode(buf);
    let (_, buf) = false.encode(buf);

    let r = buf.as_slice();
    let (a, r) = u8::decode(r);
    let (b, r) = String::decode(r);
    let (c, r) = WithChecksum::<Crc32fast, Option<u64>>::decode(r);
    let (d, r) = <()>::decode(r);
    let (e, r) = bool::decode(r);
    assert_eq!(a.unwrap(), 7);
    assert_eq!(b.unwrap(), "seven");
    assert_eq!(c.unwrap().into_inner(), Some(7));
    assert_eq!(d.unwrap(), ());
    assert_eq!(e.unwrap(), false);
    assert_eq!(r.len(), 0);
}

#[test]
fn test_wire_forms() {
    assert_eq!(258u32.encode_to_vec().unwrap(), vec![0, 0, 1, 2]);
    assert_eq!(
        0x0102030405060708u64.encode_to_vec().unwrap(),
        vec![1, 2, 3, 4, 5, 6, 7, 8]
    );
    assert_eq!(true.encode_to_vec().unwrap(), vec![1]);
    assert_eq!(false.encode_to_vec().unwrap(), vec![0]);
    assert_eq!(().encode_to_vec().unwrap(), Vec::<u8>::new());
    assert_eq!("hello".to_string().encode_to_vec().unwrap(), b"\x00\x00\x00\x05hello".to_vec());
    assert_eq!(vec![9u8, 8].encode_to_vec().unwrap(), vec![0, 0, 0, 2, 9, 8]);
    assert_eq!(Some(0x1234u32).encode_to_vec().unwrap(), vec![1, 0, 0, 0x12, 0x34]);
    assert_eq!(None::<u32>.encode_to_vec().unwrap(), vec![0]);
    assert_eq!((1u8, 2u32).encode_to_vec().unwrap(), vec![1, 0, 0, 0, 2]);
    assert_eq!((&&5u8).encode_to_vec().unwrap(), vec![5]);
}

#[test]
fn test_a_reference_is_written_as_its_value() {
    let v = (5u64, "five".to_string());
    let (n, by_value) = v.encode(Vec::new());
    let (m, by_reference) = (&v).encode(Vec::new());
    assert_eq!(n.unwrap(), m.unwrap());
    assert_eq!(by_value, by_reference);
}

#[test]
fn test_declared_sizes() {
    assert_eq!(u8::encoded_size(), 1);
    assert_eq!(u32::encoded_size(), 4);
    assert_eq!(u64::encoded_size(), 8);
    assert_eq!(bool::encoded_size(), 1);
    assert_eq!(<()>::encoded_size(), 0);
    assert_eq!(Option::<u64>::encoded_size(), 9);
    assert_eq!(WithChecksum::<Crc32fast, u32>::encoded_size(), 12);
    assert_eq!(WithChecksum::<Crc32fast, Option<u8>>::encoded_size(), 10);
    assert_eq!(Segment::<Crc64fastNvme>::encoded_size(), 24);

    // A `None` takes the tag alone.
    assert_eq!(None::<u64>.encode_to_vec().unwrap().len(), 1);
    assert_eq!(Some(1u64).encode_to_vec().unwrap().len(), 9);
}

#[test]
fn test_malformed_input() {
    let (r, rest) = Option::<u8>::decode([2u8, 1].as_slice());
    let e = r.unwrap_err();
    assert_eq!(e.kind(), ErrorKind::InvalidData);
    assert_eq!(e.to_string(), "Invalid tag: 2");
    assert_eq!(rest, [1u8].as_slice());

    let (r, _) = Option::<u8>::decode([255u8].as_slice());
    assert_eq!(r.unwrap_err().to_string(), "Invalid tag: 255");

    let (r, _) = Option::<bool>::decode([1u8, 9].as_slice());
    assert_eq!(r.unwrap_err().to_string(), "Invalid bool value: 9");

    let (r, _) = String::decode([0u8, 0, 0, 2, 0xff, 0xfe].as_slice());
    assert_eq!(r.unwrap_err().kind(), ErrorKind::InvalidData);

    let (r, _) = String::decode([0u8, 0, 0, 3, b'a', b'b'].as_slice());
    assert_eq!(r.unwrap_err().kind(), ErrorKind::UnexpectedEof);

    let (r, _) = Vec::<u8>::decode([0u8, 0, 1, 0, 7].as_slice());
    assert_eq!(r.unwrap_err().kind(), ErrorKind::UnexpectedEof);
}

#[test]
fn test_read_length_prefixed() {
    let bytes = [0u8, 0, 0, 2, 7, 8, 9];
    let mut r = bytes.as_slice();
    assert_eq!(read_length_prefixed(&mut r).unwrap(), vec![7, 8]);
    assert_eq!(r, [9u8].as_slice());
    assert_eq!(read_length_prefixed(&mut r).unwrap_err().kind(), ErrorKind::UnexpectedEof);
}

fn to_hex(n: u64) -> String {
    let mut s = String::new();
    push_hex(&mut s, n);
    s
}

fn to_decimal(n: u64) -> String {
    let mut s = "n = ".to_string();
    push_decimal(&mut s, n);
    s.split_off(4)
}

#[test]
fn test_digits() {
    assert_eq!(to_hex(0), "0");
    assert_eq!(to_hex(0xf), "f");
    assert_eq!(to_hex(0x10), "10");
    assert_eq!(to_hex(0x9ef61f95), "9ef61f95");
    assert_eq!(to_hex(u64::MAX), "ffffffffffffffff");
    assert_eq!(to_decimal(0), "0");
    assert_eq!(to_decimal(9), "9");
    assert_eq!(to_decimal(10), "10");
    assert_eq!(to_decimal(1234567890), "1234567890");
    assert_eq!(to_decimal(u64::MAX), "18446744073709551615");
}

#[test]
fn test_error_context() {
    let err = Error::new(ErrorKind::Other, "some error".to_string());
    let err = err.context("some context");
    assert_eq!(err.to_string(), "some error; when:(some context)");
    assert_eq!(err.kind(), ErrorKind::Other);

    let res = Result::<(), Error>::Err(Error::new(ErrorKind::InvalidData, "some error".to_string()));
    let res = res.context("some context");
    let err = res.unwrap_err();
    assert_eq!(err.to_string(), "some error; when:(some context)");
    assert_eq!(err.kind(), ErrorKind::InvalidData);

    let res = Result::<u8, Error>::Ok(3).context("some context");
    assert_eq!(res.unwrap(), 3);

    let twice = err.clone().context("more");
    assert_eq!(twice.to_string(), "some error; when:(some context); when:(more)");
}

#[test]
fn test_same_bytes() {
    assert!(same_bytes(b"", b""));
    assert!(same_bytes(b"abc", b"abc"));
    assert!(!same_bytes(b"abc", b"abd"));
    assert!(!same_bytes(b"abc", b"ab"));
    assert!(!same_bytes(b"", b"a"));
}

#[test]
fn test_int_coded_tells_a_wrong_size() {
    // A `bool` is one byte in memory and on the wire.
    test_int_coded(true).unwrap();
    // A segment is sixteen bytes in memory and declares 24 on the wire.
    let e = test_int_coded(Crc32fast::segment(1, 2)).unwrap_err();
    assert_eq!((e.kind(), e.to_string()), (ErrorKind::Other, "encoded size".to_string()));
}
