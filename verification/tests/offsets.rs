use codeq::Error;
use codeq::Offset;
use codeq::OffsetReader;
use codeq::OffsetWriter;
use codeq::Read;
use codeq::Size;
use codeq::Write;

#[test]
fn test_offset_reader() -> Result<(), Error> {
    let data = b"hello";
    let mut reader = OffsetReader::new(data.as_ref());
    let mut buf = [0; 3];
    reader.read_exact(&mut buf)?;
    assert_eq!(reader.offset(), 3);

    let mut buf = [0; 2];
    reader.read_exact(&mut buf)?;
    assert_eq!(reader.offset(), 5);

    Ok(())
}

#[test]
fn test_offset_writer() -> Result<(), Error> {
    let mut writer = OffsetWriter::new(Vec::new());
    writer.write_all(b"hello")?;
    assert_eq!(writer.offset(), 5);

    writer.write_all(b"world")?;
    assert_eq!(writer.offset(), 10);

    Ok(())
}

#[test]
fn test_offset_writer_keeps_the_bytes() -> Result<(), Error> {
    let mut writer = OffsetWriter::new(Vec::new());
    writer.write_all(b"hello")?;
    writer.flush()?;
    assert_eq!(writer.get_ref().as_slice(), b"hello");
    assert_eq!(writer.offset(), 5);
    assert_eq!(writer.into_inner(), b"hello".to_vec());
    Ok(())
}

#[test]
fn test_offset_reader_stops_at_the_end() {
    let data = [1u8, 2, 3];
    let mut reader = OffsetReader::new(data.as_slice());
    let mut buf = [0u8; 2];
    assert_eq!(reader.read(&mut buf).unwrap(), 2);
    assert_eq!(buf, [1, 2]);
    assert_eq!(reader.read(&mut buf).unwrap(), 1);
    assert_eq!(buf, [3, 2]);
    assert_eq!(reader.read(&mut buf).unwrap(), 0);
    assert_eq!(reader.offset(), 3);
    assert_eq!(reader.get_ref().len(), 0);
    assert_eq!(reader.into_inner().len(), 0);
}

#[test]
fn offset_test_display() {
    assert_eq!(format!("{:?}", Offset(42)), "Offset(42)");
    assert_eq!(Offset(42).to_string(), "Offset(42)");
}

#[allow(clippy::clone_on_copy)]
#[test]
fn offset_test_calculation() {
    let mut a = Offset(42);
    let b = Offset(10);

    // Add Sub

    assert_eq!(a + Size(3), Offset(45));
    assert_eq!(a - Size(3), Offset(39));

    a += Size(3);
    assert_eq!(a, Offset(45));
    a -= Size(3);
    assert_eq!(a, Offset(42));

    // Eq, Ord

    assert_eq!(a, Offset(42));
    assert!(a > b);

    // From

    let c = Offset::from(1u64);

    // Clone Copy

    let d = c.clone();
    assert_eq!(d, c);

    let d = c;
    assert_eq!(d, c);

    // Default

    assert_eq!(Offset::default(), Offset(0));

    // Deref

    assert_eq!(*Offset(1u64), 1u64);
}

#[test]
fn test_offset_difference_is_a_size() {
    assert_eq!(Offset(42) - Offset(10), Size(32));
    assert_eq!(Offset(7) - Offset(7), Size(0));
    assert_eq!(Offset(u64::MAX - 1) + Size(1), Offset(u64::MAX));
}

#[test]
fn size_test_display() {
    assert_eq!(format!("{:?}", Size(42)), "Size(42)");
    assert_eq!(Size(42).to_string(), "Size(42)");
}

#[allow(clippy::clone_on_copy)]
#[test]
fn size_test_calculation() {
    let mut a = Size(42);
    let b = Size(10);

    // Add Sub

    assert_eq!(a + b, Size(52));
    assert_eq!(a - b, Size(32));

    a += b;
    assert_eq!(a, Size(52));
    a -= b;
    assert_eq!(a, Size(42));

    // Eq, Ord

    assert_eq!(a, Size(42));
    assert!(a > b);

    // From

    let c = Size::from(1u64);

    // Clone Copy

    let d = c.clone();
    assert_eq!(d, c);

    let d = c;
    assert_eq!(d, c);

    // Default

    assert_eq!(Size::default(), Size(0));

    // Deref

    assert_eq!(*Size(1u64), 1u64);
}

#[test]
fn test_display_of_the_extremes() {
    assert_eq!(Size(0).to_string(), "Size(0)");
    assert_eq!(Offset(u64::MAX).to_string(), "Offset(18446744073709551615)");
}
