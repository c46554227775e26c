//! A structural decoder for the class-file binary container format.
//!
//! The decoder reads the fixed header, the constant pool, and the
//! interfaces, fields, methods and attributes sections strictly in file
//! order, consuming each byte exactly once. Every decode function is
//! specified against a mathematical decoder over the byte sequence, so
//! the value a caller receives, the bytes consumed, and the first
//! failure are all pinned exactly.

pub mod access_flags;
pub mod attributes;
pub mod constant_pool;
pub mod error;
pub mod fields;
pub mod java_version;
pub mod members;
pub mod methods;
pub mod modified_utf8;
pub mod primitives;

use vstd::prelude::*;

use crate::attributes::{
    attribute_infos_view, attributes_size, lemma_attributes_consumption, print_attributes,
    spec_decode_attributes, AttributeInfo, SpecAttributeInfo,
};
use crate::constant_pool::{
    cp_entries_size, cp_infos_view, lemma_constant_pool_consumption, print_constant_pool,
    spec_decode_constant_pool, CpInfo, SpecCpInfo,
};
use crate::error::{Error, FieldPath, NameRoot};
use crate::fields::{field_infos_view, print_fields, FieldInfo};
use crate::java_version::{spec_java_version_from_u2, JavaVersion};
use crate::members::{
    lemma_members_consumption, members_size, spec_decode_members, MemberKind, SpecMemberInfo,
};
use crate::methods::{method_infos_view, print_methods, MethodInfo};
use crate::primitives::{
    be_u2_at, read_buffer, read_u2, read_u4, spec_read_buffer, spec_read_u2, spec_read_u4,
    ByteStream, U2, U4,
};

verus! {

/// The fixed signature every class file must begin with.
pub const CORRECT_MAGIC: u32 = 0xCAFE_BABE;

/// The fully decoded artifact: header values, the constant pool, and
/// the declaration sections, in file order.
pub struct ClassStructure {
    pub magic: U4,
    pub minor_version: U2,
    pub major_version: U2,
    pub java_version: JavaVersion,
    pub constant_pool: Vec<CpInfo>,
    pub access_flags: U2,
    pub this_class: U2,
    pub super_class: U2,
    pub interfaces: Vec<U2>,
    pub fields: Vec<FieldInfo>,
    pub methods: Vec<MethodInfo>,
    pub attributes: Vec<AttributeInfo>,
}

/// The mathematical shape of a fully decoded class file.
pub ghost struct SpecClassStructure {
    pub magic: u32,
    pub minor_version: u16,
    pub major_version: u16,
    pub java_version: JavaVersion,
    pub constant_pool: Seq<SpecCpInfo>,
    pub access_flags: u16,
    pub this_class: u16,
    pub super_class: u16,
    pub interfaces: Seq<u16>,
    pub fields: Seq<SpecMemberInfo>,
    pub methods: Seq<SpecMemberInfo>,
    pub attributes: Seq<SpecAttributeInfo>,
}

impl View for ClassStructure {
    type V = SpecClassStructure;

    open spec fn view(&self) -> SpecClassStructure {
        SpecClassStructure {
            magic: self.magic,
            minor_version: self.minor_version,
            major_version: self.major_version,
            java_version: self.java_version,
            constant_pool: cp_infos_view(self.constant_pool@),
            access_flags: self.access_flags,
            this_class: self.this_class,
            super_class: self.super_class,
            interfaces: self.interfaces@,
            fields: field_infos_view(self.fields@),
            methods: method_infos_view(self.methods@),
            attributes: attribute_infos_view(self.attributes@),
        }
    }
}

/// The interface indices packed big-endian in `buf`, two bytes each.
pub open spec fn interface_indices(buf: Seq<u8>, count: u16) -> Seq<u16> {
    Seq::new(count as nat, |i: int| be_u2_at(buf, 2 * i) as u16)
}

/// What decoding the interfaces section at `pos` yields: a declared
/// count, then a flat buffer of that many two-byte indices.
pub open spec fn spec_decode_interfaces(data: Seq<u8>, pos: int) -> Result<
    ((u16, Seq<u16>), int),
    Error,
> {
    match spec_read_u2(data, pos, FieldPath::InterfacesCount) {
        Err(e) => Err(e),
        Ok((interfaces_count, p1)) => match spec_read_buffer(
            data,
            p1,
            FieldPath::Interfaces,
            2 * interfaces_count,
        ) {
            Err(e) => Err(e),
            Ok((buf, p2)) => Ok(((interfaces_count, interface_indices(buf, interfaces_count)), p2)),
        },
    }
}

/// What decoding a whole class file at `pos` yields: the magic
/// signature, versions, constant pool, flags and indices, interfaces,
/// fields, methods and attributes, strictly in file order, or the
/// first failure.
pub open spec fn spec_decode_class_structure(data: Seq<u8>, pos: int) -> Result<
    (SpecClassStructure, int),
    Error,
> {
    match spec_read_u4(data, pos, FieldPath::Magic) {
        Err(e) => Err(e),
        Ok((magic, p1)) => if magic != CORRECT_MAGIC {
            Err(Error::IncorrectMagicNumber(magic))
        } else {
            match spec_read_u2(data, p1, FieldPath::MinorVersion) {
                Err(e) => Err(e),
                Ok((minor_version, p2)) => match spec_read_u2(data, p2, FieldPath::MajorVersion) {
                    Err(e) => Err(e),
                    Ok((major_version, p3)) => match spec_java_version_from_u2(major_version) {
                        Err(e) => Err(Error::TryJavaVersionFromU2(e)),
                        Ok(java_version) => match spec_decode_constant_pool(data, p3) {
                            Err(e) => Err(e),
                            Ok((constant_pool, p4)) => match spec_read_u2(
                                data,
                                p4,
                                FieldPath::AccessFlags,
                            ) {
                                Err(e) => Err(e),
                                Ok((access_flags, p5)) => match spec_read_u2(
                                    data,
                                    p5,
                                    FieldPath::ThisClass,
                                ) {
                                    Err(e) => Err(e),
                                    Ok((this_class, p6)) => match spec_read_u2(
                                        data,
                                        p6,
                                        FieldPath::SuperClass,
                                    ) {
                                        Err(e) => Err(e),
                                        Ok((super_class, p7)) => match spec_decode_interfaces(
                                            data,
                                            p7,
                                        ) {
                                            Err(e) => Err(e),
                                            Ok(((_interfaces_count, interfaces), p8)) => match spec_decode_members(
                                                data,
                                                p8,
                                                MemberKind::Field,
                                            ) {
                                                Err(e) => Err(e),
                                                Ok((fields, p9)) => match spec_decode_members(
                                                    data,
                                                    p9,
                                                    MemberKind::Method,
                                                ) {
                                                    Err(e) => Err(e),
                                                    Ok((methods, p10)) => match spec_decode_attributes(
                                                        data,
                                                        p10,
                                                        NameRoot::ClassFile,
                                                    ) {
                                                        Err(e) => Err(e),
                                                        Ok(
                                                            ((_attributes_count, attributes), p11),
                                                        ) => Ok(
                                                            (
                                                                SpecClassStructure {
                                                                    magic,
                                                                    minor_version,
                                                                    major_version,
                                                                    java_version,
                                                                    constant_pool,
                                                                    access_flags,
                                                                    this_class,
                                                                    super_class,
                                                                    interfaces,
                                                                    fields,
                                                                    methods,
                                                                    attributes,
                                                                },
                                                                p11,
                                                            ),
                                                        ),
                                                    },
                                                },
                                            },
                                        },
                                    },
                                },
                            },
                        },
                    },
                },
            }
        },
    }
}

/// The number of bytes a decoded class file occupies: the fixed
/// header, each count field, and the bytes every decoded entry, index,
/// record and payload implies.
pub open spec fn class_structure_size(c: SpecClassStructure) -> int {
    4 + 2 + 2 + 2 + cp_entries_size(c.constant_pool) + 2 + 2 + 2 + 2 + 2 * c.interfaces.len() + 2
        + members_size(c.fields) + 2 + members_size(c.methods) + 2 + attributes_size(c.attributes)
}

/// The consumption law of the whole decode: on every input on which it
/// succeeds, it consumes exactly the number of bytes implied by the
/// declared counts and lengths at every level, and never reads past
/// the end of the data.
pub proof fn lemma_decode_consumes_exactly(data: Seq<u8>, pos: int)
    ensures
        spec_decode_class_structure(data, pos) matches Ok((c, p)) ==> p == pos
            + class_structure_size(c) && p <= data.len(),
{
    if spec_decode_class_structure(data, pos) is Ok {
        let (magic, p1) = spec_read_u4(data, pos, FieldPath::Magic)->Ok_0;
        let (minor_version, p2) = spec_read_u2(data, p1, FieldPath::MinorVersion)->Ok_0;
        let (major_version, p3) = spec_read_u2(data, p2, FieldPath::MajorVersion)->Ok_0;
        lemma_constant_pool_consumption(data, p3);
        let (constant_pool, p4) = spec_decode_constant_pool(data, p3)->Ok_0;
        let (access_flags, p5) = spec_read_u2(data, p4, FieldPath::AccessFlags)->Ok_0;
        let (this_class, p6) = spec_read_u2(data, p5, FieldPath::ThisClass)->Ok_0;
        let (super_class, p7) = spec_read_u2(data, p6, FieldPath::SuperClass)->Ok_0;
        let ((interfaces_count, interfaces), p8) = spec_decode_interfaces(data, p7)->Ok_0;
        lemma_members_consumption(data, p8, MemberKind::Field);
        let (fields, p9) = spec_decode_members(data, p8, MemberKind::Field)->Ok_0;
        lemma_members_consumption(data, p9, MemberKind::Method);
        let (methods, p10) = spec_decode_members(data, p9, MemberKind::Method)->Ok_0;
        lemma_attributes_consumption(data, p10, NameRoot::ClassFile);
    }
}

/// Reads the interfaces section: the declared count, then that many
/// two-byte interface indices from one flat buffer.
pub fn print_interfaces(s: &mut ByteStream) -> (r: Result<Vec<U2>, Error>)
    requires
        old(s).wf(),
    ensures
        final(s).wf(),
        final(s).data@ == old(s).data@,
        old(s).pos <= final(s).pos,
        match spec_decode_interfaces(old(s).data@, old(s).pos as int) {
            Ok(((count, idxs), p)) => r matches Ok(v) && v@ == idxs && final(s).pos == p,
            Err(e) => r == Err::<Vec<U2>, Error>(e),
        },
{
    let interfaces_count = match read_u2(s, FieldPath::InterfacesCount) {
        Ok(c) => c,
        Err(e) => {
            return Err(e);
        },
    };
    let buf = match read_buffer(s, FieldPath::Interfaces, (interfaces_count as usize) * 2) {
        Ok(b) => b,
        Err(e) => {
            return Err(e);
        },
    };
    let mut interfaces: Vec<u16> = Vec::new();
    let mut i: usize = 0;
    while i < interfaces_count as usize
        invariant
            buf@.len() == 2 * interfaces_count,
            i <= interfaces_count,
            interfaces@.len() == i,
            forall|j: int|
                0 <= j < i ==> interfaces@[j] == interface_indices(buf@, interfaces_count)[j],
        decreases interfaces_count - i,
    {
        let hi = buf[2 * i];
        let lo = buf[2 * i + 1];
        interfaces.push((hi as u16) * 0x100 + (lo as u16));
        i = i + 1;
    }
    proof {
        assert(interfaces@ =~= interface_indices(buf@, interfaces_count));
    }
    Ok(interfaces)
}

/// Decodes a whole class file from the stream: magic signature,
/// versions, constant pool, flags and indices, interfaces, fields,
/// methods and class-level attributes, strictly in file order,
/// stopping at the first failure.
pub fn decode_class_structure(s: &mut ByteStream) -> (r: Result<ClassStructure, Error>)
    requires
        old(s).wf(),
    ensures
        final(s).wf(),
        final(s).data@ == old(s).data@,
        old(s).pos <= final(s).pos,
        match spec_decode_class_structure(old(s).data@, old(s).pos as int) {
            Ok((m, p)) => r matches Ok(v) && v@ == m && final(s).pos == p,
            Err(e) => r == Err::<ClassStructure, Error>(e),
        },
{
    let magic = match read_u4(s, FieldPath::Magic) {
        Ok(m) => m,
        Err(e) => {
            return Err(e);
        },
    };
    if magic != CORRECT_MAGIC {
        return Err(Error::IncorrectMagicNumber(magic));
    }
    let minor_version = match read_u2(s, FieldPath::MinorVersion) {
        Ok(v) => v,
        Err(e) => {
            return Err(e);
        },
    };
    let major_version = match read_u2(s, FieldPath::MajorVersion) {
        Ok(v) => v,
        Err(e) => {
            return Err(e);
        },
    };
    let java_version = match JavaVersion::try_from_u2(major_version) {
        Ok(v) => v,
        Err(e) => {
            return Err(Error::TryJavaVersionFromU2(e));
        },
    };
    let constant_pool = match print_constant_pool(s) {
        Ok(v) => v,
        Err(e) => {
            return Err(e);
        },
    };
    let access_flags = match read_u2(s, FieldPath::AccessFlags) {
        Ok(v) => v,
        Err(e) => {
            return Err(e);
        },
    };
    let this_class = match read_u2(s, FieldPath::ThisClass) {
        Ok(v) => v,
        Err(e) => {
            return Err(e);
        },
    };
    let super_class = match read_u2(s, FieldPath::SuperClass) {
        Ok(v) => v,
        Err(e) => {
            return Err(e);
        },
    };
    let interfaces = match print_interfaces(s) {
        Ok(v) => v,
        Err(e) => {
            return Err(e);
        },
    };
    let fields = match print_fields(s) {
        Ok(v) => v,
        Err(e) => {
            return Err(e);
        },
    };
    let methods = match print_methods(s) {
        Ok(v) => v,
        Err(e) => {
            return Err(e);
        },
    };
    let (_attributes_count, attributes) = match print_attributes(s, NameRoot::ClassFile) {
        Ok(v) => v,
        Err(e) => {
            return Err(e);
        },
    };
    Ok(
        ClassStructure {
            magic,
            minor_version,
            major_version,
            java_version,
            constant_pool,
            access_flags,
            this_class,
            super_class,
            interfaces,
            fields,
            methods,
            attributes,
        },
    )
}

} // verus!

