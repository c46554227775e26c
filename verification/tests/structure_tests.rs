use classfile::attributes::{print_attribute_info, print_attributes};
use classfile::decode_class_structure;
use classfile::error::{Error, FieldPath, NameRoot};
use classfile::fields::print_fields;
use classfile::java_version::{JavaVersion, TryJavaVersionFromU2Error};
use classfile::methods::print_methods;
use classfile::primitives::ByteStream;
use classfile::print_interfaces;

/// The smallest well-formed class file: magic, versions, an empty
/// pool, zeroed flags and indices, and empty sections.
fn minimal_class_file() -> Vec<u8> {
    vec![
        0xCA, 0xFE, 0xBA, 0xBE, // magic
        0x00, 0x00, // minor_version
        0x00, 0x34, // major_version = 52
        0x00, 0x01, // constant_pool_count = 1: empty pool
        0x00, 0x00, // access_flags
        0x00, 0x00, // this_class
        0x00, 0x00, // super_class
        0x00, 0x00, // interfaces_count
        0x00, 0x00, // fields_count
        0x00, 0x00, // methods_count
        0x00, 0x00, // attributes_count
    ]
}

#[test]
fn minimal_class_file_decodes_end_to_end() {
    let mut s = ByteStream::new(minimal_class_file());
    let c = decode_class_structure(&mut s).unwrap();
    assert_eq!(c.magic, 0xCAFE_BABE);
    assert_eq!(c.minor_version, 0);
    assert_eq!(c.major_version, 52);
    assert_eq!(c.java_version, JavaVersion::V8);
    assert_eq!(c.constant_pool.len(), 0);
    assert_eq!(c.access_flags, 0);
    assert_eq!(c.this_class, 0);
    assert_eq!(c.super_class, 0);
    assert_eq!(c.interfaces, vec![]);
    assert_eq!(c.fields.len(), 0);
    assert_eq!(c.methods.len(), 0);
    assert_eq!(c.attributes.len(), 0);
    assert_eq!(s.remaining(), 0);
}

#[test]
fn decode_leaves_a_trailing_sentinel_untouched() {
    let mut bytes = minimal_class_file();
    let body_len = bytes.len();
    bytes.push(0xAA);
    bytes.push(0xBB);
    let mut s = ByteStream::new(bytes);
    decode_class_structure(&mut s).unwrap();
    assert_eq!(s.remaining(), 2);
    assert_eq!(s.data[body_len], 0xAA);
    assert_eq!(s.data[body_len + 1], 0xBB);
}

#[test]
fn wrong_magic_is_rejected() {
    let mut bytes = minimal_class_file();
    bytes[3] = 0xBF;
    let mut s = ByteStream::new(bytes);
    assert_eq!(
        decode_class_structure(&mut s).map(|_| ()),
        Err(Error::IncorrectMagicNumber(0xCAFE_BABF))
    );
}

#[test]
fn unsupported_major_version_is_rejected() {
    let mut bytes = minimal_class_file();
    bytes[7] = 0x2C; // major_version = 44
    let mut s = ByteStream::new(bytes);
    assert_eq!(
        decode_class_structure(&mut s).map(|_| ()),
        Err(Error::TryJavaVersionFromU2(TryJavaVersionFromU2Error(44)))
    );
}

#[test]
fn empty_input_fails_on_the_magic_field() {
    let mut s = ByteStream::new(vec![]);
    assert_eq!(
        decode_class_structure(&mut s).map(|_| ()),
        Err(Error::ReadPrimitive { field_name: FieldPath::Magic })
    );
}

#[test]
fn truncation_after_magic_names_the_minor_version() {
    let mut s = ByteStream::new(vec![0xCA, 0xFE, 0xBA, 0xBE, 0x00]);
    assert_eq!(
        decode_class_structure(&mut s).map(|_| ()),
        Err(Error::ReadPrimitive { field_name: FieldPath::MinorVersion })
    );
}

#[test]
fn attribute_decodes_name_length_and_payload() {
    let mut s = ByteStream::new(vec![0x00, 0x07, 0x00, 0x00, 0x00, 0x02, 0xAB, 0xCD]);
    let a = print_attribute_info(&mut s, NameRoot::ClassFile, 0).unwrap();
    assert_eq!(a.attribute_name_index, 7);
    assert_eq!(a.attribute_length, 2);
    assert_eq!(a.info, vec![0xAB, 0xCD]);
    assert_eq!(s.remaining(), 0);
}

#[test]
fn attribute_with_short_payload_names_its_path() {
    let mut s = ByteStream::new(vec![0x00, 0x07, 0x00, 0x00, 0x00, 0x05, 0x01, 0x02]);
    assert_eq!(
        print_attribute_info(&mut s, NameRoot::ClassFile, 0).map(|_| ()),
        Err(Error::ReadBuffer {
            buffer_name: FieldPath::AttributeInfoBytes {
                root: NameRoot::ClassFile,
                attributes_index: 0,
            }
        })
    );
}

#[test]
fn attribute_list_reads_the_declared_number_of_records() {
    let mut s = ByteStream::new(vec![
        0x00, 0x02, // attributes_count
        0x00, 0x01, 0x00, 0x00, 0x00, 0x01, 0x11, // name 1, length 1
        0x00, 0x02, 0x00, 0x00, 0x00, 0x00, // name 2, length 0
    ]);
    let (count, attrs) = print_attributes(&mut s, NameRoot::ClassFile).unwrap();
    assert_eq!(count, 2);
    assert_eq!(attrs.len(), 2);
    assert_eq!(attrs[0].attribute_name_index, 1);
    assert_eq!(attrs[0].info, vec![0x11]);
    assert_eq!(attrs[1].attribute_name_index, 2);
    assert_eq!(attrs[1].info, vec![]);
    assert_eq!(s.remaining(), 0);
}

#[test]
fn interfaces_decode_as_big_endian_indices() {
    let mut s = ByteStream::new(vec![0x00, 0x02, 0x00, 0x0A, 0x01, 0x14]);
    assert_eq!(print_interfaces(&mut s), Ok(vec![10, 0x0114]));
    assert_eq!(s.remaining(), 0);
}

#[test]
fn truncated_interfaces_name_their_path() {
    let mut s = ByteStream::new(vec![0x00, 0x02, 0x00, 0x0A, 0x00]);
    assert_eq!(
        print_interfaces(&mut s),
        Err(Error::ReadBuffer { buffer_name: FieldPath::Interfaces })
    );
}

#[test]
fn method_decodes_core_and_attributes() {
    let mut s = ByteStream::new(vec![
        0x00, 0x01, // methods_count
        0x00, 0x09, // access_flags
        0x00, 0x02, // name_index
        0x00, 0x03, // descriptor_index
        0x00, 0x01, // attributes_count
        0x00, 0x04, 0x00, 0x00, 0x00, 0x01, 0x2A, // one attribute
    ]);
    let methods = print_methods(&mut s).unwrap();
    assert_eq!(methods.len(), 1);
    assert_eq!(methods[0].access_flags, 9);
    assert_eq!(methods[0].name_index, 2);
    assert_eq!(methods[0].descriptor_index, 3);
    assert_eq!(methods[0].attributes_count, 1);
    assert_eq!(methods[0].attributes.len(), 1);
    assert_eq!(methods[0].attributes[0].attribute_name_index, 4);
    assert_eq!(methods[0].attributes[0].info, vec![0x2A]);
    assert_eq!(s.remaining(), 0);
}

#[test]
fn field_decodes_core_and_attributes() {
    let mut s = ByteStream::new(vec![
        0x00, 0x01, // fields_count
        0x00, 0x02, // access_flags
        0x00, 0x05, // name_index
        0x00, 0x06, // descriptor_index
        0x00, 0x00, // attributes_count
    ]);
    let fields = print_fields(&mut s).unwrap();
    assert_eq!(fields.len(), 1);
    assert_eq!(fields[0].access_flags, 2);
    assert_eq!(fields[0].name_index, 5);
    assert_eq!(fields[0].descriptor_index, 6);
    assert_eq!(fields[0].attributes_count, 0);
    assert_eq!(fields[0].attributes.len(), 0);
    assert_eq!(s.remaining(), 0);
}

#[test]
fn truncated_field_core_names_its_path() {
    let mut s = ByteStream::new(vec![
        0x00, 0x01, // fields_count
        0x00, 0x02, // access_flags
        0x00, // half a name_index
    ]);
    assert_eq!(
        print_fields(&mut s).map(|_| ()),
        Err(Error::ReadPrimitive {
            field_name: FieldPath::MemberNameIndex {
                root: NameRoot::Field { fields_index: 0 },
            }
        })
    );
}

#[test]
fn class_file_with_full_pool_decodes_every_section() {
    let mut bytes = vec![
        0xCA, 0xFE, 0xBA, 0xBE, // magic
        0x00, 0x03, // minor_version
        0x00, 0x3D, // major_version = 61
        0x00, 0x05, // constant_pool_count: four entries follow
        0x01, 0x00, 0x02, b'o', b'k', // Utf8 "ok"
        0x07, 0x00, 0x01, // Class -> 1
        0x0A, 0x00, 0x02, 0x00, 0x04, // Methodref
        0x0C, 0x00, 0x01, 0x00, 0x01, // NameAndType
        0x00, 0x21, // access_flags
        0x00, 0x02, // this_class
        0x00, 0x01, // super_class
        0x00, 0x01, 0x00, 0x03, // one interface, index 3
        0x00, 0x00, // fields_count
        0x00, 0x00, // methods_count
        0x00, 0x01, // attributes_count
        0x00, 0x01, 0x00, 0x00, 0x00, 0x03, 0x01, 0x02, 0x03, // one attribute
    ];
    bytes.push(0x5A); // sentinel
    let mut s = ByteStream::new(bytes);
    let c = decode_class_structure(&mut s).unwrap();
    assert_eq!(c.java_version, JavaVersion::V17);
    assert_eq!(c.constant_pool.len(), 4);
    assert_eq!(c.access_flags, 0x21);
    assert_eq!(c.interfaces, vec![3]);
    assert_eq!(c.attributes.len(), 1);
    assert_eq!(c.attributes[0].info, vec![1, 2, 3]);
    assert_eq!(s.remaining(), 1);
}
