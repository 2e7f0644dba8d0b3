use codeq::config::CodeqConfig;
use codeq::config::Crc32fast;
use codeq::config::Crc64fastNvme;
use codeq::testing::test_codec;
use codeq::Decode;
use codeq::Encode;
use codeq::Error;
use codeq::ErrorKind;
use codeq::FixedSize;
use codeq::Offset;
use codeq::Segment;
use codeq::Size;
use codeq::Span;
use codeq::WithChecksum;

#[test]
fn segment_test_segment_codec() -> Result<(), Error> {
    let s = Crc32fast::segment(5, 10);

    let b = vec![
        0, 0, 0, 0, 0, 0, 0, 5, // offset
        0, 0, 0, 0, 0, 0, 0, 10, // size
        0, 0, 0, 0, 70, 249, 231, 4, // checksum
    ];

    test_codec(&b, &s)?;

    Ok(())
}

#[test]
fn segment_test_segment_codec_crc64fast_nvme() -> Result<(), Error> {
    let s = Crc64fastNvme::segment(5, 10);

    let b = vec![
        0, 0, 0, 0, 0, 0, 0, 5, // offset
        0, 0, 0, 0, 0, 0, 0, 10, // size
        246, 234, 165, 215, 19, 166, 38, 32, // checksum
    ];

    test_codec(&b, &s)?;

    Ok(())
}

#[test]
fn test_with_checksum_codec() -> Result<(), Error> {
    let wc = Crc32fast::wrap(5u64);
    let (n, b) = wc.encode(Vec::new());
    assert_eq!(n?, b.len());

    assert_eq!(
        vec![
            0, 0, 0, 0, 0, 0, 0, 5, // data
            0, 0, 0, 0, 21, 72, 43, 230, // checksum
        ],
        b
    );

    test_codec(b.as_slice(), &wc)?;

    Ok(())
}

#[test]
fn test_segment_scenario() {
    let s = Segment::<Crc32fast>::new(5, 10);
    let (n, b) = s.encode(Vec::new());
    assert_eq!(n.unwrap(), 24);
    assert_eq!(
        b,
        vec![0, 0, 0, 0, 0, 0, 0, 5, 0, 0, 0, 0, 0, 0, 0, 10, 0, 0, 0, 0, 70, 249, 231, 4]
    );

    let (back, rest) = Segment::<Crc32fast>::decode(b.as_slice());
    assert_eq!(back.unwrap(), s);
    assert_eq!(rest.len(), 0);

    for i in 0..24 {
        for delta in [1u8, 0x80, 0xff] {
            let mut changed = b.clone();
            changed[i] = changed[i].wrapping_add(delta);
            let (res, _) = Segment::<Crc32fast>::decode(changed.as_slice());
            assert_eq!(res.unwrap_err().kind(), ErrorKind::InvalidData);
        }
    }
}

#[test]
fn test_with_checksum_scenario() {
    let wc = WithChecksum::<Crc32fast, u64>::new(5);
    let (n, b) = wc.encode(Vec::new());
    assert_eq!(n.unwrap(), 16);
    assert_eq!(b, vec![0, 0, 0, 0, 0, 0, 0, 5, 0, 0, 0, 0, 21, 72, 43, 230]);
    assert_eq!(WithChecksum::<Crc32fast, u64>::encoded_size(), 16);

    let (back, _) = WithChecksum::<Crc32fast, u64>::decode(b.as_slice());
    assert_eq!(back.unwrap().into_inner(), 5);
}

#[test]
fn test_with_checksum_of_a_record() {
    let record = (1u32, vec![1u8, 2, 3]);
    let protected = WithChecksum::<Crc32fast, _>::new(&record);

    let (n, buf) = protected.encode(Vec::new());
    assert_eq!(n.unwrap(), 19);
    assert_eq!(
        buf,
        vec![
            0, 0, 0, 1, // id
            0, 0, 0, 3, 1, 2, 3, // data
            0, 0, 0, 0, 31, 101, 71, 147 // checksum
        ]
    );

    let (decoded, rest) = WithChecksum::<Crc32fast, (u32, Vec<u8>)>::decode(buf.as_slice());
    assert_eq!(decoded.unwrap().into_inner(), record);
    assert_eq!(rest.len(), 0);
}

#[test]
fn test_configs_do_not_open_each_other() {
    let (_, b) = Crc32fast::wrap(5u64).encode(Vec::new());
    let (res, _) = WithChecksum::<Crc64fastNvme, u64>::decode(b.as_slice());
    assert_eq!(res.unwrap_err().kind(), ErrorKind::InvalidData);

    let (_, b) = Crc64fastNvme::wrap(5u64).encode(Vec::new());
    let (res, _) = WithChecksum::<Crc32fast, u64>::decode(b.as_slice());
    assert_eq!(res.unwrap_err().kind(), ErrorKind::InvalidData);

    let (_, b) = Crc64fastNvme::segment(5, 10).encode(Vec::new());
    let (res, _) = Segment::<Crc32fast>::decode(b.as_slice());
    let e = res.unwrap_err();
    assert_eq!(e.kind(), ErrorKind::InvalidData);
    assert_eq!(
        e.to_string(),
        "crc32 checksum mismatch: expected 46f9e704, got f6eaa5d713a62620, while Segment::decode()"
    );
}

#[test]
fn test_with_checksum_corruption_everywhere() {
    let wc = Crc64fastNvme::wrap((7u64, 9u32));
    let (_, b) = wc.encode(Vec::new());
    assert_eq!(b.len(), 20);
    test_codec(b.as_slice(), &wc).unwrap();
    for i in 0..b.len() {
        let mut changed = b.clone();
        changed[i] ^= 0x10;
        let (res, _) = WithChecksum::<Crc64fastNvme, (u64, u32)>::decode(changed.as_slice());
        let e = res.unwrap_err();
        assert_eq!(e.kind(), ErrorKind::InvalidData);
        assert!(e.to_string().ends_with(", while WithChecksum::decode()"));
    }
}

#[test]
fn test_checksummed_values_cut_short() {
    let (_, b) = Crc32fast::segment(5, 10).encode(Vec::new());
    for len in 0..24 {
        let (res, _) = Segment::<Crc32fast>::decode(&b[..len]);
        assert_eq!(res.unwrap_err().kind(), ErrorKind::UnexpectedEof);
    }
    let (_, b) = Crc32fast::wrap(5u64).encode(Vec::new());
    for len in 0..16 {
        let (res, _) = WithChecksum::<Crc32fast, u64>::decode(&b[..len]);
        assert_eq!(res.unwrap_err().kind(), ErrorKind::UnexpectedEof);
    }
}

#[test]
fn test_segment_is_a_span() {
    let s = Crc32fast::segment(5, 10);
    assert_eq!(s.offset(), Offset(5));
    assert_eq!(s.size(), Size(10));
    assert_eq!(s.start(), Offset(5));
    assert_eq!(s.end(), Offset(15));
    assert_eq!((&s).end(), Offset(15));
    assert_eq!(Segment::<Crc32fast>::encoded_size(), 24);
    assert_eq!(Segment::<Crc32fast>::default(), Crc32fast::segment(0, 0));
    let copy = s;
    assert_eq!(copy.clone(), s);
}

#[test]
fn test_test_codec_reports_what_is_wrong() {
    let s = Crc32fast::segment(5, 10);
    let (_, b) = s.encode(Vec::new());

    let mut other = b.clone();
    other[0] = 1;
    let e = test_codec(&other, &s).unwrap_err();
    assert_eq!(e.kind(), ErrorKind::Other);
    assert_eq!(e.to_string(), "output data");

    // bytes without a checksum let a change go by
    let e = test_codec(&[0, 0, 0, 0, 0, 0, 0, 5], &5u64).unwrap_err();
    assert_eq!(e.kind(), ErrorKind::Other);
    assert_eq!(e.to_string(), "change 0-th byte");
}
