//! The methods section: a declared count, then that many method records.

use vstd::prelude::*;

use crate::attributes::{attribute_infos_view, print_attributes, AttributeInfo};
use crate::error::{Error, FieldPath, NameRoot};
use crate::members::{
    member_root, spec_decode_member, spec_decode_member_seq, spec_decode_members, MemberKind,
    SpecMemberInfo,
};
use crate::primitives::{prepend_decoded, read_u2, spec_read_u2, ByteStream, U2};

verus! {

/// One decoded method record.
pub struct MethodInfo {
    pub access_flags: U2,
    pub name_index: U2,
    pub descriptor_index: U2,
    pub attributes_count: U2,
    pub attributes: Vec<AttributeInfo>,
}

impl View for MethodInfo {
    type V = SpecMemberInfo;

    open spec fn view(&self) -> SpecMemberInfo {
        SpecMemberInfo {
            access_flags: self.access_flags,
            name_index: self.name_index,
            descriptor_index: self.descriptor_index,
            attributes_count: self.attributes_count,
            attributes: attribute_infos_view(self.attributes@),
        }
    }
}

/// The record models of a decoded methods section.
pub open spec fn method_infos_view(s: Seq<MethodInfo>) -> Seq<SpecMemberInfo> {
    s.map_values(|f: MethodInfo| f@)
}

/// Reads one method record: flags, name index, descriptor index, then
/// its attribute list.
pub fn print_method_info(s: &mut ByteStream, methods_index: U2) -> (r: Result<MethodInfo, Error>)
    requires
        old(s).wf(),
    ensures
        final(s).wf(),
        final(s).data@ == old(s).data@,
        old(s).pos <= final(s).pos,
        match spec_decode_member(
            old(s).data@,
            old(s).pos as int,
            NameRoot::Method { methods_index },
        ) {
            Ok((m, p)) => r matches Ok(v) && v@ == m && final(s).pos == p,
            Err(e) => r == Err::<MethodInfo, Error>(e),
        },
{
    let root = NameRoot::Method { methods_index };
    let access_flags = match read_u2(s, FieldPath::MemberAccessFlags { root }) {
        Ok(v) => v,
        Err(e) => {
            return Err(e);
        },
    };
    let name_index = match read_u2(s, FieldPath::MemberNameIndex { root }) {
        Ok(v) => v,
        Err(e) => {
            return Err(e);
        },
    };
    let descriptor_index = match read_u2(s, FieldPath::MemberDescriptorIndex { root }) {
        Ok(v) => v,
        Err(e) => {
            return Err(e);
        },
    };
    let (attributes_count, attributes) = match print_attributes(s, root) {
        Ok(v) => v,
        Err(e) => {
            return Err(e);
        },
    };
    Ok(MethodInfo { access_flags, name_index, descriptor_index, attributes_count, attributes })
}

/// Reads the whole methods section: the declared count, then that many
/// records in order.
pub fn print_methods(s: &mut ByteStream) -> (r: Result<Vec<MethodInfo>, Error>)
    requires
        old(s).wf(),
    ensures
        final(s).wf(),
        final(s).data@ == old(s).data@,
        old(s).pos <= final(s).pos,
        match spec_decode_members(old(s).data@, old(s).pos as int, MemberKind::Method) {
            Ok((ms, p)) => r matches Ok(v) && method_infos_view(v@) == ms && final(s).pos == p,
            Err(e) => r == Err::<Vec<MethodInfo>, Error>(e),
        },
{
    let methods_count = match read_u2(s, FieldPath::MethodsCount) {
        Ok(c) => c,
        Err(e) => {
            return Err(e);
        },
    };
    let ghost data = s.data@;
    let ghost pos1 = s.pos as int;
    let mut methods: Vec<MethodInfo> = Vec::new();
    let mut methods_index: u16 = 0;
    while methods_index < methods_count
        invariant
            s.wf(),
            s.data@ == data,
            data == old(s).data@,
            old(s).pos <= pos1 <= s.pos,
            methods_index <= methods_count,
            spec_read_u2(old(s).data@, old(s).pos as int, FieldPath::MethodsCount) == Ok::<
                (u16, int),
                Error,
            >((methods_count, pos1)),
            prepend_decoded(
                method_infos_view(methods@),
                spec_decode_member_seq(
                    data,
                    s.pos as int,
                    MemberKind::Method,
                    methods_index,
                    methods_count,
                ),
            ) == spec_decode_member_seq(data, pos1, MemberKind::Method, 0, methods_count),
        decreases methods_count - methods_index,
    {
        match print_method_info(s, methods_index) {
            Ok(method) => {
                let ghost old_views = method_infos_view(methods@);
                let ghost rest = spec_decode_member_seq(
                    data,
                    s.pos as int,
                    MemberKind::Method,
                    (methods_index + 1) as u16,
                    methods_count,
                );
                methods.push(method);
                proof {
                    assert(member_root(MemberKind::Method, methods_index) == NameRoot::Method {
                        methods_index,
                    });
                    assert(method_infos_view(methods@) =~= old_views + seq![method@]);
                    match rest {
                        Ok((rs, rp)) => {
                            assert(old_views + (seq![method@] + rs) =~= (old_views + seq![method@])
                                + rs);
                        },
                        Err(_) => {},
                    }
                }
                methods_index = methods_index + 1;
            },
            Err(e) => {
                return Err(e);
            },
        }
    }
    proof {
        assert(method_infos_view(methods@) + Seq::<SpecMemberInfo>::empty() =~= method_infos_view(
            methods@,
        ));
    }
    Ok(methods)
}

} // verus!
