use codeq::config::CodeqConfig;
use codeq::config::Crc32fast;
use codeq::config::Crc64fastNvme;
use codeq::config::Crc64fastNvmeHasher;
use codeq::config::HashAlgorithm;
use codeq::Error;
use codeq::ErrorKind;
use codeq::Read;
use codeq::Write;

#[test]
fn checksum_reader_test_checksum_reader() -> Result<(), Error> {
    // write something
    let mut b = {
        let mut n = 0;

        let mut w = Crc32fast::new_writer(Vec::new());

        n += w.write(b"foo")?;
        n += w.write(b"bar")?;
        let (m, b) = w.write_checksum();
        n += m?;
        assert_eq!(n, 14);
        b
    };

    // Finalize the checksum and verify it
    {
        let mut r = Crc32fast::new_reader(&b[..]);
        let mut read_buf = [0u8; 6];
        r.read_exact(&mut read_buf)?;
        let crc = r.finalize_checksum();
        assert_eq!(crc32fast::hash(b"foobar") as u64, crc);
    }

    // Verify the checksum
    {
        let mut r = Crc32fast::new_reader(&b[..]);
        let mut read_buf = [0u8; 6];
        r.read_exact(&mut read_buf)?;
        r.verify_checksum("").0?; // No error
    }

    // Verify against wrong checksum
    let last = b.len() - 1;
    b[last] = b[last].wrapping_add(1);

    {
        let mut r = Crc32fast::new_reader(&b[..]);
        let mut read_buf = [0; 6];
        r.read_exact(&mut read_buf)?;
        let res = r.verify_checksum("").0; // checksum error
        assert!(res.is_err());
    }

    Ok(())
}

#[test]
fn checksum_reader_test_checksum_reader_crc64fast_nvme() -> Result<(), Error> {
    // write something
    let mut b = {
        let mut n = 0;

        let mut w = Crc64fastNvme::new_writer(Vec::new());

        n += w.write(b"foo")?;
        n += w.write(b"bar")?;
        let (m, b) = w.write_checksum();
        n += m?;
        assert_eq!(n, 14);
        b
    };

    // Finalize the checksum and verify it
    {
        let mut r = Crc64fastNvme::new_reader(&b[..]);
        let mut read_buf = [0u8; 6];
        r.read_exact(&mut read_buf)?;
        let crc = r.finalize_checksum();
        assert_eq!(Crc64fastNvme::hash(b"foobar"), crc);
    }

    // Verify the checksum
    {
        let mut r = Crc64fastNvme::new_reader(&b[..]);
        let mut read_buf = [0u8; 6];
        r.read_exact(&mut read_buf)?;
        r.verify_checksum("").0?; // No error
    }

    // Verify against wrong checksum
    let last = b.len() - 1;
    b[last] = b[last].wrapping_add(1);

    {
        let mut r = Crc64fastNvme::new_reader(&b[..]);
        let mut read_buf = [0; 6];
        r.read_exact(&mut read_buf)?;
        let res = r.verify_checksum("").0; // checksum error
        assert!(res.is_err());
    }

    Ok(())
}

#[test]
fn test_checksum_writer() -> Result<(), Error> {
    // empty buffer
    {
        let w = Crc32fast::new_writer(Vec::new());
        let crc = w.finalize_checksum();

        assert_eq!(crc32fast::hash(b"") as u64, crc);
    }

    // write something
    {
        let mut n = 0;

        let mut w = Crc32fast::new_writer(Vec::new());

        n += w.write(b"foo")?;
        n += w.write(b"bar")?;
        assert_eq!(n, 6);

        assert_eq!(b"foobar", w.get_ref().as_slice());

        let crc = w.finalize_checksum();

        assert_eq!(crc32fast::hash(b"foobar") as u64, crc);
    }

    Ok(())
}

#[test]
fn test_checksum_writer_finalize_to_inner() -> Result<(), Error> {
    let mut n = 0;
    let mut w = Crc32fast::new_writer(Vec::new());
    n += w.write(b"foo")?;
    n += w.write(b"bar")?;
    let (m, b) = w.write_checksum();
    n += m?;

    assert_eq!(n, 14);
    assert_eq!(
        vec![102, 111, 111, 98, 97, 114, 0, 0, 0, 0, 158, 246, 31, 149],
        b
    );

    Ok(())
}

#[test]
fn test_checksum_writer_crc64fast_nvme() -> Result<(), Error> {
    let mut n = 0;
    let mut w = Crc64fastNvme::new_writer(Vec::new());
    n += w.write(b"foo")?;
    let (m, b) = w.write_checksum();
    n += m?;

    assert_eq!(n, 11);
    assert_eq!(
        vec![
            102, 111, 111, //
            228, 237, 247, 14, 102, 174, 13, 2
        ],
        b
    );

    Ok(())
}

#[test]
fn test_hash_of_known_inputs() {
    assert_eq!(Crc32fast::hash(b"foobar"), 0x9ef61f95);
    assert_eq!(Crc32fast::hash(b"123456789"), 0xcbf43926);
    assert_eq!(Crc64fastNvme::hash(b"hello world!"), 0xd9160d1fa8e418e3);
    assert_eq!(Crc64fastNvme::hash(b"123456789"), 0xae8b14860a799888);
}

#[test]
fn test_hash_of_nothing_is_stable() {
    assert_eq!(Crc32fast::hash(b""), 0);
    assert_eq!(Crc32fast::hash(b""), Crc32fast::hash(&[]));
    assert_eq!(Crc32fast::hash(b""), crc32fast::hash(b"") as u64);
    assert_eq!(Crc64fastNvme::hash(b""), 0);
    assert_eq!(Crc64fastNvme::hash(b""), Crc64fastNvme::hash(&[]));
    assert_eq!(Crc64fastNvme::hash(b""), crc64fast_nvme::Digest::new().sum64());
}

#[test]
fn test_hash_does_not_depend_on_the_pieces() {
    let whole = Crc32fast::hash(b"hello, world");
    let mut w = Crc32fast::new_writer(Vec::new());
    w.write(b"hel").unwrap();
    w.write(b"").unwrap();
    w.write(b"lo, wor").unwrap();
    w.write(b"ld").unwrap();
    assert_eq!(w.finalize_checksum(), whole);

    let whole = Crc64fastNvme::hash(b"hello, world");
    let mut h = Crc64fastNvmeHasher::new();
    h.update(b"hello");
    h.update(b", world");
    assert_eq!(h.finalize(), whole);
    assert_eq!(h.finalize(), whole);
    assert_eq!(Crc64fastNvmeHasher::default().finalize(), 0);
}

#[test]
fn test_write_checksum_of_nothing() {
    let w = Crc32fast::new_writer(Vec::new());
    let (n, b) = w.write_checksum();
    assert_eq!(n.unwrap(), 8);
    let crc = crc32fast::hash(b"");
    assert_eq!(b[..4], [0, 0, 0, 0]);
    assert_eq!(b[4..], crc.to_be_bytes());
    assert_eq!(b, vec![0, 0, 0, 0, 0, 0, 0, 0]);
}

#[test]
fn test_verify_checksum_says_what_differs() {
    let mut bytes = b"foobar".to_vec();
    bytes.extend_from_slice(&[0, 0, 0, 0, 0, 0, 0x01, 0x2f]);
    bytes.push(77);

    let mut r = Crc32fast::new_reader(&bytes[..]);
    let mut read_buf = [0u8; 6];
    r.read_exact(&mut read_buf).unwrap();
    let (res, rest) = r.verify_checksum("reading a test");
    let e = res.unwrap_err();
    assert_eq!(e.kind(), ErrorKind::InvalidData);
    assert_eq!(
        e.to_string(),
        "crc32 checksum mismatch: expected 9ef61f95, got 12f, while reading a test"
    );
    assert_eq!(rest, [77u8].as_slice());
}

#[test]
fn test_verify_checksum_needs_eight_bytes() {
    let bytes = [1u8, 2, 3, 0, 0, 0, 0];
    let mut r = Crc32fast::new_reader(&bytes[..]);
    let mut read_buf = [0u8; 3];
    r.read_exact(&mut read_buf).unwrap();
    let (res, _) = r.verify_checksum("short");
    assert_eq!(res.unwrap_err().kind(), ErrorKind::UnexpectedEof);
}

#[test]
fn test_reader_hashes_what_was_read_only() {
    let bytes = b"foobar";
    let mut r = Crc32fast::new_reader(&bytes[..]);
    let mut buf = [0u8; 4];
    assert_eq!(r.read(&mut buf).unwrap(), 4);
    assert_eq!(&buf, b"foob");
    let mut none = [0u8; 0];
    assert_eq!(r.read(&mut none).unwrap(), 0);
    assert_eq!(r.get_ref(), &b"ar".as_slice());
    assert_eq!(r.finalize_checksum(), crc32fast::hash(b"foob") as u64);

    let r = Crc32fast::new_reader(&bytes[..]);
    assert_eq!(r.into_inner(), bytes.as_slice());
}
