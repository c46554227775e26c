use classfile::constant_pool::{
    print_constant_pool, print_constant_pool_count, print_cp_item, ConstantKind, CpInfo,
    TryConstantKindFromU1Error,
};
use classfile::error::{Error, FieldPath};
use classfile::java_version::{JavaVersion, TryJavaVersionFromU2Error};
use classfile::primitives::ByteStream;

#[test]
fn pool_count_zero_is_invalid() {
    let mut s = ByteStream::new(vec![0x00, 0x00]);
    assert_eq!(print_constant_pool_count(&mut s), Err(Error::InvalidConstantPoolCount(0)));
}

#[test]
fn pool_count_one_yields_zero_entries() {
    let mut s = ByteStream::new(vec![0x00, 0x01]);
    let pool = print_constant_pool(&mut s).unwrap();
    assert_eq!(pool.len(), 0);
    assert_eq!(s.remaining(), 0);
}

#[test]
fn pool_count_k_yields_k_minus_one_entries() {
    // count = 4, then three Class entries.
    let mut s = ByteStream::new(vec![
        0x00, 0x04, 0x07, 0x00, 0x05, 0x07, 0x00, 0x06, 0x07, 0x00, 0x07,
    ]);
    let pool = print_constant_pool(&mut s).unwrap();
    assert_eq!(pool.len(), 3);
    assert_eq!(s.remaining(), 0);
    assert!(matches!(pool[2], CpInfo::Class { name_index: 7 }));
}

#[test]
fn class_entry_decodes_to_its_input() {
    let mut s = ByteStream::new(vec![0x07, 0x00, 0x05]);
    let item = print_cp_item(&mut s, 1).unwrap();
    assert!(matches!(item, CpInfo::Class { name_index: 5 }));
    assert_eq!(s.remaining(), 0);
}

#[test]
fn method_ref_entry_decodes_to_its_input() {
    let mut s = ByteStream::new(vec![0x0A, 0x00, 0x01, 0x00, 0x02]);
    let item = print_cp_item(&mut s, 1).unwrap();
    assert!(matches!(
        item,
        CpInfo::MethodrefInfo { class_index: 1, name_and_type_index: 2 }
    ));
    assert_eq!(s.remaining(), 0);
}

#[test]
fn name_and_type_entry_decodes_to_its_input() {
    let mut s = ByteStream::new(vec![0x0C, 0x00, 0x03, 0x00, 0x04]);
    let item = print_cp_item(&mut s, 1).unwrap();
    assert!(matches!(
        item,
        CpInfo::NameAndType { name_index: 3, descriptor_index: 4 }
    ));
    assert_eq!(s.remaining(), 0);
}

#[test]
fn utf8_entry_decodes_to_its_input() {
    let mut s = ByteStream::new(vec![0x01, 0x00, 0x02, b'h', b'i']);
    let item = print_cp_item(&mut s, 1).unwrap();
    match item {
        CpInfo::Utf8(m) => assert_eq!(m.as_bytes(), &vec![b'h', b'i']),
        _ => panic!("expected a Utf8 entry"),
    }
    assert_eq!(s.remaining(), 0);
}

#[test]
fn unknown_tag_is_rejected() {
    let mut s = ByteStream::new(vec![0x05, 0x00, 0x00]);
    assert_eq!(
        print_cp_item(&mut s, 1).map(|_| ()),
        Err(Error::TryConstantKindFromU1(TryConstantKindFromU1Error(5)))
    );
}

#[test]
fn malformed_utf8_entry_aborts_the_pool() {
    // count = 3: the first entry holds a lone continuation byte; the
    // second entry is never reached.
    let mut s = ByteStream::new(vec![
        0x00, 0x03, 0x01, 0x00, 0x01, 0x80, 0x07, 0x00, 0x05,
    ]);
    let r = print_constant_pool(&mut s).map(|_| ());
    assert_eq!(
        r,
        Err(Error::InvalidUtf8Constant(
            classfile::modified_utf8::TryModifiedUtf8StringFromByteVecError::FromUtf8
        ))
    );
    // The three bytes of the second entry were never read.
    assert_eq!(s.remaining(), 3);
}

#[test]
fn truncated_tag_names_its_path() {
    let mut s = ByteStream::new(vec![0x00, 0x02]);
    assert_eq!(
        print_constant_pool(&mut s).map(|_| ()),
        Err(Error::ReadPrimitive {
            field_name: FieldPath::ConstantPoolTag { constant_pool_index: 1 }
        })
    );
}

#[test]
fn truncated_utf8_bytes_name_their_path() {
    // Declared length 5, only one byte present.
    let mut s = ByteStream::new(vec![0x00, 0x02, 0x01, 0x00, 0x05, b'a']);
    assert_eq!(
        print_constant_pool(&mut s).map(|_| ()),
        Err(Error::ReadBuffer {
            buffer_name: FieldPath::Utf8Bytes { constant_pool_index: 1 }
        })
    );
}

#[test]
fn constant_kind_tags_round_trip() {
    for kind in [
        ConstantKind::Utf8,
        ConstantKind::Class,
        ConstantKind::Methodref,
        ConstantKind::NameAndType,
    ] {
        assert_eq!(ConstantKind::try_from_u1(kind.tag()), Ok(kind));
    }
    assert_eq!(ConstantKind::Utf8.tag(), 1);
    assert_eq!(ConstantKind::Class.tag(), 7);
    assert_eq!(ConstantKind::Methodref.tag(), 10);
    assert_eq!(ConstantKind::NameAndType.tag(), 12);
}

#[test]
fn constant_kind_names() {
    assert_eq!(ConstantKind::Utf8.as_str(), "Utf8");
    assert_eq!(ConstantKind::Class.as_str(), "Class");
    assert_eq!(ConstantKind::Methodref.as_str(), "Methodref");
    assert_eq!(ConstantKind::NameAndType.as_str(), "NameAndType");
}

#[test]
fn java_version_maps_the_supported_range() {
    assert_eq!(JavaVersion::try_from_u2(45), Ok(JavaVersion::V1_0_2Or1_1));
    assert_eq!(JavaVersion::try_from_u2(52), Ok(JavaVersion::V8));
    assert_eq!(JavaVersion::try_from_u2(61), Ok(JavaVersion::V17));
    assert_eq!(JavaVersion::try_from_u2(44), Err(TryJavaVersionFromU2Error(44)));
    assert_eq!(JavaVersion::try_from_u2(62), Err(TryJavaVersionFromU2Error(62)));
}

#[test]
fn java_version_names() {
    assert_eq!(JavaVersion::V1_0_2Or1_1.as_str(), "1.0.2 or 1.1");
    assert_eq!(JavaVersion::V8.as_str(), "8");
    assert_eq!(JavaVersion::V17.as_str(), "17");
}
