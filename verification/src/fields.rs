//! The fields section: a declared count, then that many field records.

use vstd::prelude::*;

use crate::attributes::{attribute_infos_view, print_attributes, AttributeInfo};
use crate::error::{Error, FieldPath, NameRoot};
use crate::members::{
    member_root, spec_decode_member, spec_decode_member_seq, spec_decode_members, MemberKind,
    SpecMemberInfo,
};
use crate::primitives::{prepend_decoded, read_u2, spec_read_u2, ByteStream, U2};

verus! {

/// One decoded field record.
pub struct FieldInfo {
    pub access_flags: U2,
    pub name_index: U2,
    pub descriptor_index: U2,
    pub attributes_count: U2,
    pub attributes: Vec<AttributeInfo>,
}

impl View for FieldInfo {
    type V = SpecMemberInfo;

    open spec fn view(&self) -> SpecMemberInfo {
        SpecMemberInfo {
            access_flags: self.access_flags,
            name_index: self.name_index,
            descriptor_index: self.descriptor_index,
            attributes_count: self.attributes_count,
            attributes: attribute_infos_view(self.attributes@),
        }
    }
}

/// The record models of a decoded fields section.
pub open spec fn field_infos_view(s: Seq<FieldInfo>) -> Seq<SpecMemberInfo> {
    s.map_values(|f: FieldInfo| f@)
}

/// Reads one field record: flags, name index, descriptor index, then
/// its attribute list.
pub fn print_field_info(s: &mut ByteStream, fields_index: U2) -> (r: Result<FieldInfo, Error>)
    requires
        old(s).wf(),
    ensures
        final(s).wf(),
        final(s).data@ == old(s).data@,
        old(s).pos <= final(s).pos,
        match spec_decode_member(
            old(s).data@,
            old(s).pos as int,
            NameRoot::Field { fields_index },
        ) {
            Ok((m, p)) => r matches Ok(v) && v@ == m && final(s).pos == p,
            Err(e) => r == Err::<FieldInfo, Error>(e),
        },
{
    let root = NameRoot::Field { fields_index };
    let access_flags = match read_u2(s, FieldPath::MemberAccessFlags { root }) {
        Ok(v) => v,
        Err(e) => {
            return Err(e);
        },
    };
    let name_index = match read_u2(s, FieldPath::MemberNameIndex { root }) {
        Ok(v) => v,
        Err(e) => {
            return Err(e);
        },
    };
    let descriptor_index = match read_u2(s, FieldPath::MemberDescriptorIndex { root }) {
        Ok(v) => v,
        Err(e) => {
            return Err(e);
        },
    };
    let (attributes_count, attributes) = match print_attributes(s, root) {
        Ok(v) => v,
        Err(e) => {
            return Err(e);
        },
    };
    Ok(FieldInfo { access_flags, name_index, descriptor_index, attributes_count, attributes })
}

/// Reads the whole fields section: the declared count, then that many
/// records in order.
pub fn print_fields(s: &mut ByteStream) -> (r: Result<Vec<FieldInfo>, Error>)
    requires
        old(s).wf(),
    ensures
        final(s).wf(),
        final(s).data@ == old(s).data@,
        old(s).pos <= final(s).pos,
        match spec_decode_members(old(s).data@, old(s).pos as int, MemberKind::Field) {
            Ok((ms, p)) => r matches Ok(v) && field_infos_view(v@) == ms && final(s).pos == p,
            Err(e) => r == Err::<Vec<FieldInfo>, Error>(e),
        },
{
    let fields_count = match read_u2(s, FieldPath::FieldsCount) {
        Ok(c) => c,
        Err(e) => {
            return Err(e);
        },
    };
    let ghost data = s.data@;
    let ghost pos1 = s.pos as int;
    let mut fields: Vec<FieldInfo> = Vec::new();
    let mut fields_index: u16 = 0;
    while fields_index < fields_count
        invariant
            s.wf(),
            s.data@ == data,
            data == old(s).data@,
            old(s).pos <= pos1 <= s.pos,
            fields_index <= fields_count,
            spec_read_u2(old(s).data@, old(s).pos as int, FieldPath::FieldsCount) == Ok::<
                (u16, int),
                Error,
            >((fields_count, pos1)),
            prepend_decoded(
                field_infos_view(fields@),
                spec_decode_member_seq(
                    data,
                    s.pos as int,
                    MemberKind::Field,
                    fields_index,
                    fields_count,
                ),
            ) == spec_decode_member_seq(data, pos1, MemberKind::Field, 0, fields_count),
        decreases fields_count - fields_index,
    {
        match print_field_info(s, fields_index) {
            Ok(field) => {
                let ghost old_views = field_infos_view(fields@);
                let ghost rest = spec_decode_member_seq(
                    data,
                    s.pos as int,
                    MemberKind::Field,
                    (fields_index + 1) as u16,
                    fields_count,
                );
                fields.push(field);
                proof {
                    assert(member_root(MemberKind::Field, fields_index) == NameRoot::Field {
                        fields_index,
                    });
                    assert(field_infos_view(fields@) =~= old_views + seq![field@]);
                    match rest {
                        Ok((rs, rp)) => {
                            assert(old_views + (seq![field@] + rs) =~= (old_views + seq![field@])
                                + rs);
                        },
                        Err(_) => {},
                    }
                }
                fields_index = fields_index + 1;
            },
            Err(e) => {
                return Err(e);
            },
        }
    }
    proof {
        assert(field_infos_view(fields@) + Seq::<SpecMemberInfo>::empty() =~= field_infos_view(
            fields@,
        ));
    }
    Ok(fields)
}

} // verus!
