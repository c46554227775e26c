//! Decode failures and the structured field paths they carry.
//!
//! Every field of a class file has a logical path (for example
//! `/constant_pool[3]/utf8/bytes`). Errors name the field whose read
//! failed through the structured [`FieldPath`] type; turning a path
//! into its textual form is left to the caller.

use vstd::prelude::*;

verus! {

/// Where a run of member attributes hangs: directly under the class
/// file root, under a field record, or under a method record.
#[derive(Clone, Copy, Debug, PartialEq, Eq, Structural)]
pub enum NameRoot {
    ClassFile,
    Field { fields_index: u16 },
    Method { methods_index: u16 },
}

/// The logical path of one field inside the class file.
#[derive(Clone, Copy, Debug, PartialEq, Eq, Structural)]
pub enum FieldPath {
    Magic,
    MinorVersion,
    MajorVersion,
    ConstantPoolCount,
    ConstantPoolTag { constant_pool_index: u16 },
    Utf8Length { constant_pool_index: u16 },
    Utf8Bytes { constant_pool_index: u16 },
    ClassNameIndex { constant_pool_index: u16 },
    MethodrefClassIndex { constant_pool_index: u16 },
    MethodrefNameAndTypeIndex { constant_pool_index: u16 },
    NameAndTypeNameIndex { constant_pool_index: u16 },
    NameAndTypeDescriptorIndex { constant_pool_index: u16 },
    AccessFlags,
    ThisClass,
    SuperClass,
    InterfacesCount,
    Interfaces,
    FieldsCount,
    MethodsCount,
    MemberAccessFlags { root: NameRoot },
    MemberNameIndex { root: NameRoot },
    MemberDescriptorIndex { root: NameRoot },
    AttributesCount { root: NameRoot },
    AttributeNameIndex { root: NameRoot, attributes_index: u16 },
    AttributeLength { root: NameRoot, attributes_index: u16 },
    AttributeInfoBytes { root: NameRoot, attributes_index: u16 },
}

/// The first failure of a decode; decoding never continues past it.
#[derive(Clone, Copy, Debug, PartialEq, Eq, Structural)]
pub enum Error {
    /// The stream could not supply the fixed-width field at this path.
    ReadPrimitive { field_name: FieldPath },
    /// The stream could not supply a length-prefixed buffer at this path.
    ReadBuffer { buffer_name: FieldPath },
    /// The header signature was not `0xCAFEBABE`.
    IncorrectMagicNumber(u32),
    /// The declared constant pool count was below the mandatory minimum of 1.
    InvalidConstantPoolCount(u16),
    /// A declared attribute length does not fit the platform buffer size.
    AttributeLengthTooLarge { attribute_name: FieldPath, attribute_length: u32 },
    /// The major version lies outside the supported closed range.
    TryJavaVersionFromU2(crate::java_version::TryJavaVersionFromU2Error),
    /// A constant pool entry carried an unrecognized tag byte.
    TryConstantKindFromU1(crate::constant_pool::TryConstantKindFromU1Error),
    /// The bytes of a Utf8 constant are not well formed.
    InvalidUtf8Constant(crate::modified_utf8::TryModifiedUtf8StringFromByteVecError),
}

} // verus!
