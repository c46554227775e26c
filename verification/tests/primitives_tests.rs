use classfile::error::{Error, FieldPath};
use classfile::primitives::{read_buffer, read_u1, read_u2, read_u4, ByteStream};

#[test]
fn read_u1_reads_one_byte() {
    let mut s = ByteStream::new(vec![0x2A, 0x07]);
    assert_eq!(read_u1(&mut s, FieldPath::Magic), Ok(0x2A));
    assert_eq!(s.remaining(), 1);
    assert_eq!(read_u1(&mut s, FieldPath::Magic), Ok(0x07));
    assert_eq!(s.remaining(), 0);
}

#[test]
fn read_u1_fails_on_empty_stream() {
    let mut s = ByteStream::new(vec![]);
    assert_eq!(
        read_u1(&mut s, FieldPath::MinorVersion),
        Err(Error::ReadPrimitive { field_name: FieldPath::MinorVersion })
    );
}

#[test]
fn read_u2_is_big_endian() {
    let mut s = ByteStream::new(vec![0x12, 0x34]);
    assert_eq!(read_u2(&mut s, FieldPath::MinorVersion), Ok(0x1234));
    assert_eq!(s.remaining(), 0);
}

#[test]
fn read_u2_fails_when_one_byte_short() {
    let mut s = ByteStream::new(vec![0x12]);
    assert_eq!(
        read_u2(&mut s, FieldPath::MajorVersion),
        Err(Error::ReadPrimitive { field_name: FieldPath::MajorVersion })
    );
    // A failed read leaves the cursor where it was.
    assert_eq!(s.remaining(), 1);
}

#[test]
fn read_u4_is_big_endian() {
    let mut s = ByteStream::new(vec![0x12, 0x34, 0x56, 0x78]);
    assert_eq!(read_u4(&mut s, FieldPath::Magic), Ok(0x1234_5678));
    assert_eq!(s.remaining(), 0);
}

#[test]
fn read_u4_fails_when_short() {
    let mut s = ByteStream::new(vec![0xCA, 0xFE, 0xBA]);
    assert_eq!(
        read_u4(&mut s, FieldPath::Magic),
        Err(Error::ReadPrimitive { field_name: FieldPath::Magic })
    );
}

#[test]
fn read_buffer_takes_exactly_the_requested_bytes() {
    let mut s = ByteStream::new(vec![1, 2, 3, 4, 5]);
    assert_eq!(read_buffer(&mut s, FieldPath::Interfaces, 3), Ok(vec![1, 2, 3]));
    assert_eq!(s.remaining(), 2);
    assert_eq!(read_buffer(&mut s, FieldPath::Interfaces, 0), Ok(vec![]));
    assert_eq!(s.remaining(), 2);
}

#[test]
fn read_buffer_fails_when_short() {
    let mut s = ByteStream::new(vec![1, 2]);
    assert_eq!(
        read_buffer(&mut s, FieldPath::Interfaces, 3),
        Err(Error::ReadBuffer { buffer_name: FieldPath::Interfaces })
    );
    assert_eq!(s.remaining(), 2);
}
