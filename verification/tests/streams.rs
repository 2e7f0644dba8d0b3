use codeq::byte_order::read_u32;
use codeq::byte_order::read_u64;
use codeq::byte_order::read_u8;
use codeq::byte_order::write_u32;
use codeq::byte_order::write_u64;
use codeq::byte_order::write_u8;
use codeq::config::CodeqConfig;
use codeq::config::Crc32fast;
use codeq::stream::Bytes;
use codeq::Encode;
use codeq::Error;
use codeq::ErrorKind;
use codeq::OffsetWriter;
use codeq::Read;
use codeq::Write;

/// Takes at most `step` bytes at a time.
struct Trickle {
    taken: Vec<u8>,
    step: usize,
}

impl Write for Trickle {
    fn reliable(&self) -> bool {
        unreachable!()
    }

    fn wrote(&self, _before: &Self, _bytes: Bytes) -> bool {
        unreachable!()
    }

    fn lemma_wrote_nothing(&self) {}

    fn lemma_wrote_more(&self, _mid: &Self, _before: &Self, _first: Bytes, _then: Bytes) {}

    fn lemma_wrote_reliable(&self, _before: &Self, _bytes: Bytes) {}

    fn write(&mut self, buf: &[u8]) -> Result<usize, Error> {
        let n = buf.len().min(self.step);
        self.taken.extend_from_slice(&buf[..n]);
        Ok(n)
    }

    fn flush(&mut self) -> Result<(), Error> {
        Ok(())
    }
}

/// Fails every call.
struct Broken;

impl Write for Broken {
    fn reliable(&self) -> bool {
        unreachable!()
    }

    fn wrote(&self, _before: &Self, _bytes: Bytes) -> bool {
        unreachable!()
    }

    fn lemma_wrote_nothing(&self) {}

    fn lemma_wrote_more(&self, _mid: &Self, _before: &Self, _first: Bytes, _then: Bytes) {}

    fn lemma_wrote_reliable(&self, _before: &Self, _bytes: Bytes) {}

    fn write(&mut self, _buf: &[u8]) -> Result<usize, Error> {
        Err(Error::new(ErrorKind::Other, "broken pipe".to_string()))
    }

    fn flush(&mut self) -> Result<(), Error> {
        Err(Error::new(ErrorKind::Other, "broken pipe".to_string()))
    }
}

impl Read for Broken {
    fn pending(&self) -> Bytes {
        unreachable!()
    }

    fn reliable(&self) -> bool {
        unreachable!()
    }

    fn took(&self, _before: &Self, _bytes: Bytes) -> bool {
        unreachable!()
    }

    fn lemma_took_nothing(&self) {}

    fn lemma_took_more(&self, _mid: &Self, _before: &Self, _first: Bytes, _then: Bytes) {}

    fn lemma_took_pending(&self, _before: &Self, _bytes: Bytes) {}

    fn read(&mut self, _buf: &mut [u8]) -> Result<usize, Error> {
        Err(Error::new(ErrorKind::Other, "broken pipe".to_string()))
    }
}

#[test]
fn test_vec_takes_everything() {
    let mut v = vec![9u8];
    assert_eq!(v.write(b"abc").unwrap(), 3);
    assert_eq!(v.write(b"").unwrap(), 0);
    v.write_all(b"de").unwrap();
    v.flush().unwrap();
    assert_eq!(v, b"\x09abcde".to_vec());
}

#[test]
fn test_slice_hands_out_what_it_has() {
    let data = [1u8, 2, 3, 4, 5];
    let mut r = data.as_slice();
    let mut buf = [0u8; 2];
    assert_eq!(r.read(&mut buf).unwrap(), 2);
    assert_eq!(buf, [1, 2]);
    assert_eq!(r, [3u8, 4, 5].as_slice());

    let mut big = [7u8; 4];
    assert_eq!(r.read(&mut big).unwrap(), 3);
    assert_eq!(big, [3, 4, 5, 7]);
    assert_eq!(r.len(), 0);
    assert_eq!(r.read(&mut big).unwrap(), 0);
}

#[test]
fn test_read_exact_fills_or_fails() {
    let data = [1u8, 2, 3];
    let mut r = data.as_slice();
    let mut buf = [0u8; 2];
    r.read_exact(&mut buf).unwrap();
    assert_eq!(buf, [1, 2]);

    let e = r.read_exact(&mut buf).unwrap_err();
    assert_eq!(e.kind(), ErrorKind::UnexpectedEof);
    assert_eq!(e.to_string(), "failed to fill whole buffer");

    let mut none = [0u8; 0];
    r.read_exact(&mut none).unwrap();
}

#[test]
fn test_write_all_offers_the_rest_again() {
    let mut w = Trickle { taken: Vec::new(), step: 2 };
    w.write_all(b"foobar").unwrap();
    assert_eq!(w.taken, b"foobar".to_vec());

    let mut counted = OffsetWriter::new(Trickle { taken: Vec::new(), step: 4 });
    assert_eq!(counted.write(b"foobar").unwrap(), 4);
    assert_eq!(counted.offset(), 4);
    counted.write_all(b"ar").unwrap();
    assert_eq!(counted.offset(), 6);
    assert_eq!(counted.into_inner().taken, b"foobar".to_vec());
}

#[test]
fn test_write_all_gives_up_on_a_full_stream() {
    let mut w = Trickle { taken: Vec::new(), step: 0 };
    let e = w.write_all(b"foobar").unwrap_err();
    assert_eq!(e.kind(), ErrorKind::WriteZero);
    assert_eq!(e.to_string(), "failed to write whole buffer");
    w.write_all(b"").unwrap();
}

#[test]
fn test_checksum_covers_what_was_offered() {
    // The stream inside takes two bytes; the checksum has seen all six.
    let mut w = Crc32fast::new_writer(Trickle { taken: Vec::new(), step: 2 });
    assert_eq!(w.write(b"foobar").unwrap(), 2);
    assert_eq!(w.get_ref().taken, b"fo".to_vec());
    assert_eq!(w.finalize_checksum(), Crc32fast::hash(b"foobar"));

    // Each call of `write_all` on the way is hashed in full.
    let mut w = Crc32fast::new_writer(Trickle { taken: Vec::new(), step: 2 });
    w.write_all(b"foobar").unwrap();
    assert_eq!(w.get_ref().taken, b"foobar".to_vec());
    assert_eq!(w.finalize_checksum(), Crc32fast::hash(b"foobarobarar"));
}

#[test]
fn test_failures_of_the_stream_are_handed_on() {
    let e = Broken.write_all(b"x").unwrap_err();
    assert_eq!((e.kind(), e.to_string()), (ErrorKind::Other, "broken pipe".to_string()));

    let (res, _) = 5u64.encode(Broken);
    assert_eq!(res.unwrap_err().to_string(), "broken pipe");

    let (res, _) = Crc32fast::wrap((1u8, vec![2u8])).encode(Broken);
    assert_eq!(res.unwrap_err().to_string(), "broken pipe");

    let (res, _) = Crc32fast::segment(1, 2).encode(Broken);
    assert_eq!(res.unwrap_err().to_string(), "broken pipe");

    let mut w = Crc32fast::new_writer(Broken);
    assert_eq!(w.flush().unwrap_err().kind(), ErrorKind::Other);
    let (res, _) = w.write_checksum();
    assert_eq!(res.unwrap_err().to_string(), "broken pipe");

    let mut buf = [0u8; 1];
    assert_eq!(Broken.read_exact(&mut buf).unwrap_err().to_string(), "broken pipe");
    let r = Crc32fast::new_reader(Broken);
    assert_eq!(r.verify_checksum("").0.unwrap_err().to_string(), "broken pipe");
}

#[test]
fn test_integers_big_end_first() {
    let mut v = Vec::new();
    write_u8(&mut v, 0xab).unwrap();
    write_u32(&mut v, 0x01020304).unwrap();
    write_u64(&mut v, 0x1122334455667788).unwrap();
    assert_eq!(
        v,
        vec![0xab, 1, 2, 3, 4, 0x11, 0x22, 0x33, 0x44, 0x55, 0x66, 0x77, 0x88]
    );

    let mut r = v.as_slice();
    assert_eq!(read_u8(&mut r).unwrap(), 0xab);
    assert_eq!(read_u32(&mut r).unwrap(), 0x01020304);
    assert_eq!(read_u64(&mut r).unwrap(), 0x1122334455667788);
    assert_eq!(read_u8(&mut r).unwrap_err().kind(), ErrorKind::UnexpectedEof);

    let mut short = [1u8, 2, 3].as_slice();
    assert_eq!(read_u32(&mut short).unwrap_err().kind(), ErrorKind::UnexpectedEof);
    let mut short = [1u8, 2, 3, 4, 5, 6, 7].as_slice();
    assert_eq!(read_u64(&mut short).unwrap_err().kind(), ErrorKind::UnexpectedEof);
}
