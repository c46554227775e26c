//! The record core shared by fields and methods.
//!
//! A member record is a fixed core of access flags, name index and
//! descriptor index, followed by an attribute list; fields and methods
//! differ only in the section they sit in, which shows in their paths.

use vstd::prelude::*;

use crate::attributes::{
    attributes_size, lemma_attributes_consumption, spec_decode_attributes, SpecAttributeInfo,
};
use crate::error::{Error, FieldPath, NameRoot};
use crate::primitives::{prepend_decoded, spec_read_u2};

verus! {

/// Which section a member record belongs to.
#[derive(Clone, Copy, Debug, PartialEq, Eq, Structural)]
pub enum MemberKind {
    Field,
    Method,
}

/// The mathematical shape of a member record.
pub ghost struct SpecMemberInfo {
    pub access_flags: u16,
    pub name_index: u16,
    pub descriptor_index: u16,
    pub attributes_count: u16,
    pub attributes: Seq<SpecAttributeInfo>,
}

/// The path root a member's attributes hang under.
pub open spec fn member_root(kind: MemberKind, index: u16) -> NameRoot {
    match kind {
        MemberKind::Field => NameRoot::Field { fields_index: index },
        MemberKind::Method => NameRoot::Method { methods_index: index },
    }
}

/// The path of a section's declared count field.
pub open spec fn members_count_path(kind: MemberKind) -> FieldPath {
    match kind {
        MemberKind::Field => FieldPath::FieldsCount,
        MemberKind::Method => FieldPath::MethodsCount,
    }
}

/// What decoding one member record at `pos` yields: the fixed core,
/// then its attribute list.
pub open spec fn spec_decode_member(data: Seq<u8>, pos: int, root: NameRoot) -> Result<
    (SpecMemberInfo, int),
    Error,
> {
    match spec_read_u2(data, pos, FieldPath::MemberAccessFlags { root }) {
        Err(e) => Err(e),
        Ok((access_flags, p1)) => match spec_read_u2(
            data,
            p1,
            FieldPath::MemberNameIndex { root },
        ) {
            Err(e) => Err(e),
            Ok((name_index, p2)) => match spec_read_u2(
                data,
                p2,
                FieldPath::MemberDescriptorIndex { root },
            ) {
                Err(e) => Err(e),
                Ok((descriptor_index, p3)) => match spec_decode_attributes(data, p3, root) {
                    Err(e) => Err(e),
                    Ok(((attributes_count, attributes), p4)) => Ok(
                        (
                            SpecMemberInfo {
                                access_flags,
                                name_index,
                                descriptor_index,
                                attributes_count,
                                attributes,
                            },
                            p4,
                        ),
                    ),
                },
            },
        },
    }
}

/// What decoding the records at indices `index..count` of a section
/// yields, in order, stopping at the first failure.
pub open spec fn spec_decode_member_seq(
    data: Seq<u8>,
    pos: int,
    kind: MemberKind,
    index: u16,
    count: u16,
) -> Result<(Seq<SpecMemberInfo>, int), Error>
    decreases count - index,
{
    if index >= count {
        Ok((Seq::empty(), pos))
    } else {
        match spec_decode_member(data, pos, member_root(kind, index)) {
            Err(e) => Err(e),
            Ok((member, p1)) => prepend_decoded(
                seq![member],
                spec_decode_member_seq(data, p1, kind, (index + 1) as u16, count),
            ),
        }
    }
}

/// What decoding a whole member section at `pos` yields: the declared
/// count, then exactly that many records.
pub open spec fn spec_decode_members(data: Seq<u8>, pos: int, kind: MemberKind) -> Result<
    (Seq<SpecMemberInfo>, int),
    Error,
> {
    match spec_read_u2(data, pos, members_count_path(kind)) {
        Err(e) => Err(e),
        Ok((count, p1)) => spec_decode_member_seq(data, p1, kind, 0, count),
    }
}

/// The number of bytes one member record occupies in the file: six of
/// fixed core, two of attribute count, and its attribute records.
pub open spec fn member_size(m: SpecMemberInfo) -> int {
    8 + attributes_size(m.attributes)
}

/// The number of bytes a run of member records occupies in the file.
pub open spec fn members_size(s: Seq<SpecMemberInfo>) -> int
    decreases s.len(),
{
    if s.len() == 0 {
        0
    } else {
        member_size(s[0]) + members_size(s.drop_first())
    }
}

/// Decoding one member record consumes exactly the bytes it implies,
/// its attribute count matches its attribute list, and the read never
/// runs past the end of the data.
pub proof fn lemma_member_consumption(data: Seq<u8>, pos: int, root: NameRoot)
    ensures
        spec_decode_member(data, pos, root) matches Ok((m, p)) ==> p == pos + member_size(m)
            && m.attributes_count == m.attributes.len() && p <= data.len(),
{
    if spec_decode_member(data, pos, root) is Ok {
        let (_, p1) = spec_read_u2(data, pos, FieldPath::MemberAccessFlags { root })->Ok_0;
        let (_, p2) = spec_read_u2(data, p1, FieldPath::MemberNameIndex { root })->Ok_0;
        let (_, p3) = spec_read_u2(data, p2, FieldPath::MemberDescriptorIndex { root })->Ok_0;
        lemma_attributes_consumption(data, p3, root);
    }
}

/// Decoding a run of member records consumes exactly the sum of the
/// bytes each record implies, and yields one record per index.
pub proof fn lemma_member_seq_consumption(
    data: Seq<u8>,
    pos: int,
    kind: MemberKind,
    index: u16,
    count: u16,
)
    ensures
        spec_decode_member_seq(data, pos, kind, index, count) matches Ok((ms, p)) ==> p == pos
            + members_size(ms) && ms.len() == if index <= count {
            (count - index) as int
        } else {
            0
        } && (ms.len() > 0 ==> p <= data.len()),
    decreases count - index,
{
    if index < count {
        match spec_decode_member(data, pos, member_root(kind, index)) {
            Ok((m, p1)) => {
                lemma_member_consumption(data, pos, member_root(kind, index));
                lemma_member_seq_consumption(data, p1, kind, (index + 1) as u16, count);
                match spec_decode_member_seq(data, p1, kind, (index + 1) as u16, count) {
                    Ok((rs, _)) => {
                        assert((seq![m] + rs).drop_first() =~= rs);
                        assert((seq![m] + rs)[0] == m);
                    },
                    Err(_) => {},
                }
            },
            Err(_) => {},
        }
    }
}

/// Decoding a whole member section consumes exactly two bytes of count
/// plus the bytes its records imply, yields exactly as many records as
/// the count declares, and never reads past the end of the data.
pub proof fn lemma_members_consumption(data: Seq<u8>, pos: int, kind: MemberKind)
    ensures
        spec_decode_members(data, pos, kind) matches Ok((ms, p)) ==> ({
            &&& p == pos + 2 + members_size(ms)
            &&& p <= data.len()
            &&& spec_read_u2(data, pos, members_count_path(kind)) matches Ok((count, _))
                && ms.len() == count
        }),
{
    if spec_decode_members(data, pos, kind) is Ok {
        let (count, p1) = spec_read_u2(data, pos, members_count_path(kind))->Ok_0;
        lemma_member_seq_consumption(data, p1, kind, 0, count);
    }
}

} // verus!
