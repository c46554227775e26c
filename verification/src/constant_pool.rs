//! The constant pool: a self-describing, tag-dispatched entry table.
//!
//! The pool declares a count `k` and then holds exactly `k - 1` entries,
//! occupying the 1-based index space `1..k` (slot 0 is the mandatory
//! unused slot of the legacy indexing convention). Each entry starts
//! with a tag byte that selects its shape. Indices stored inside
//! entries refer back into the pool's own index space and are kept as
//! plain numbers, unresolved and unchecked, for a higher layer.

use vstd::prelude::*;

use crate::error::{Error, FieldPath};
use crate::modified_utf8::{is_utf8, ModifiedUtf8String, TryModifiedUtf8StringFromByteVecError};
use crate::primitives::{
    prepend_decoded, spec_read_u1, spec_read_u2, spec_read_buffer, read_u1, read_u2, read_buffer,
    ByteStream, U1, U2,
};

verus! {

pub const MIN_CONST_POOL_COUNT: u16 = 1;

pub const UTF8_CP_INFO_TAG: u8 = 1;

pub const CLASS_CP_INFO_TAG: u8 = 7;

pub const METHOD_REF_CP_INFO_TAG: u8 = 10;

pub const NAME_AND_TYPE_CP_INFO_TAG: u8 = 12;

/// One decoded constant pool entry.
pub enum CpInfo {
    Utf8(ModifiedUtf8String),
    Class { name_index: U2 },
    MethodrefInfo { class_index: U2, name_and_type_index: U2 },
    NameAndType { name_index: U2, descriptor_index: U2 },
}

/// The mathematical shape of a constant pool entry: a Utf8 entry is its
/// byte buffer, the reference entries are their plain indices.
pub ghost enum SpecCpInfo {
    Utf8(Seq<u8>),
    Class { name_index: u16 },
    MethodrefInfo { class_index: u16, name_and_type_index: u16 },
    NameAndType { name_index: u16, descriptor_index: u16 },
}

impl View for CpInfo {
    type V = SpecCpInfo;

    open spec fn view(&self) -> SpecCpInfo {
        match self {
            CpInfo::Utf8(m) => SpecCpInfo::Utf8(m@),
            CpInfo::Class { name_index } => SpecCpInfo::Class { name_index: *name_index },
            CpInfo::MethodrefInfo { class_index, name_and_type_index } => SpecCpInfo::MethodrefInfo {
                class_index: *class_index,
                name_and_type_index: *name_and_type_index,
            },
            CpInfo::NameAndType { name_index, descriptor_index } => SpecCpInfo::NameAndType {
                name_index: *name_index,
                descriptor_index: *descriptor_index,
            },
        }
    }
}

/// The entry shapes the decoder supports, one per recognized tag.
#[derive(Clone, Copy, Debug, PartialEq, Eq, Structural)]
pub enum ConstantKind {
    Utf8,
    Class,
    Methodref,
    NameAndType,
}

/// An unrecognized or unsupported constant tag byte.
#[derive(Clone, Copy, Debug, PartialEq, Eq, Structural)]
pub struct TryConstantKindFromU1Error(pub u8);

/// The tag byte each entry shape is written with.
pub open spec fn spec_tag(kind: ConstantKind) -> u8 {
    match kind {
        ConstantKind::Utf8 => UTF8_CP_INFO_TAG,
        ConstantKind::Class => CLASS_CP_INFO_TAG,
        ConstantKind::Methodref => METHOD_REF_CP_INFO_TAG,
        ConstantKind::NameAndType => NAME_AND_TYPE_CP_INFO_TAG,
    }
}

/// Which entry shape a tag byte selects; exactly the four known tags
/// are accepted.
pub open spec fn spec_constant_kind_from_u1(value: u8) -> Result<
    ConstantKind,
    TryConstantKindFromU1Error,
> {
    if value == UTF8_CP_INFO_TAG {
        Ok(ConstantKind::Utf8)
    } else if value == CLASS_CP_INFO_TAG {
        Ok(ConstantKind::Class)
    } else if value == METHOD_REF_CP_INFO_TAG {
        Ok(ConstantKind::Methodref)
    } else if value == NAME_AND_TYPE_CP_INFO_TAG {
        Ok(ConstantKind::NameAndType)
    } else {
        Err(TryConstantKindFromU1Error(value))
    }
}

/// The name of each entry shape.
pub open spec fn spec_constant_kind_name(kind: ConstantKind) -> Seq<char> {
    match kind {
        ConstantKind::Utf8 => "Utf8"@,
        ConstantKind::Class => "Class"@,
        ConstantKind::Methodref => "Methodref"@,
        ConstantKind::NameAndType => "NameAndType"@,
    }
}

impl ConstantKind {
    /// The tag byte this shape is written with.
    pub fn tag(self) -> (r: U1)
        ensures
            r == spec_tag(self),
    {
        match self {
            ConstantKind::Utf8 => UTF8_CP_INFO_TAG,
            ConstantKind::Class => CLASS_CP_INFO_TAG,
            ConstantKind::Methodref => METHOD_REF_CP_INFO_TAG,
            ConstantKind::NameAndType => NAME_AND_TYPE_CP_INFO_TAG,
        }
    }

    /// Dispatches a tag byte to its entry shape, rejecting unknown tags.
    pub fn try_from_u1(value: U1) -> (r: Result<ConstantKind, TryConstantKindFromU1Error>)
        ensures
            r == spec_constant_kind_from_u1(value),
    {
        match value {
            UTF8_CP_INFO_TAG => Ok(ConstantKind::Utf8),
            CLASS_CP_INFO_TAG => Ok(ConstantKind::Class),
            METHOD_REF_CP_INFO_TAG => Ok(ConstantKind::Methodref),
            NAME_AND_TYPE_CP_INFO_TAG => Ok(ConstantKind::NameAndType),
            unsupported => Err(TryConstantKindFromU1Error(unsupported)),
        }
    }

    /// The shape's name, for rendering.
    pub fn as_str(self) -> (r: &'static str)
        ensures
            r@ == spec_constant_kind_name(self),
    {
        match self {
            ConstantKind::Utf8 => "Utf8",
            ConstantKind::Class => "Class",
            ConstantKind::Methodref => "Methodref",
            ConstantKind::NameAndType => "NameAndType",
        }
    }
}

/// What decoding a Utf8 entry body at `pos` yields: a declared length,
/// that many raw bytes, and their validation as text.
pub open spec fn spec_decode_utf8_entry(data: Seq<u8>, pos: int, constant_pool_index: u16) -> Result<
    (SpecCpInfo, int),
    Error,
> {
    match spec_read_u2(data, pos, FieldPath::Utf8Length { constant_pool_index }) {
        Err(e) => Err(e),
        Ok((length, p1)) => match spec_read_buffer(
            data,
            p1,
            FieldPath::Utf8Bytes { constant_pool_index },
            length as int,
        ) {
            Err(e) => Err(e),
            Ok((bytes, p2)) => if is_utf8(bytes) {
                Ok((SpecCpInfo::Utf8(bytes), p2))
            } else {
                Err(
                    Error::InvalidUtf8Constant(
                        TryModifiedUtf8StringFromByteVecError::FromUtf8,
                    ),
                )
            },
        },
    }
}

/// What decoding a Class entry body at `pos` yields.
pub open spec fn spec_decode_class_entry(data: Seq<u8>, pos: int, constant_pool_index: u16) -> Result<
    (SpecCpInfo, int),
    Error,
> {
    match spec_read_u2(data, pos, FieldPath::ClassNameIndex { constant_pool_index }) {
        Err(e) => Err(e),
        Ok((name_index, p1)) => Ok((SpecCpInfo::Class { name_index }, p1)),
    }
}

/// What decoding a Methodref entry body at `pos` yields.
pub open spec fn spec_decode_method_ref_entry(
    data: Seq<u8>,
    pos: int,
    constant_pool_index: u16,
) -> Result<(SpecCpInfo, int), Error> {
    match spec_read_u2(data, pos, FieldPath::MethodrefClassIndex { constant_pool_index }) {
        Err(e) => Err(e),
        Ok((class_index, p1)) => match spec_read_u2(
            data,
            p1,
            FieldPath::MethodrefNameAndTypeIndex { constant_pool_index },
        ) {
            Err(e) => Err(e),
            Ok((name_and_type_index, p2)) => Ok(
                (SpecCpInfo::MethodrefInfo { class_index, name_and_type_index }, p2),
            ),
        },
    }
}

/// What decoding a NameAndType entry body at `pos` yields.
pub open spec fn spec_decode_name_and_type_entry(
    data: Seq<u8>,
    pos: int,
    constant_pool_index: u16,
) -> Result<(SpecCpInfo, int), Error> {
    match spec_read_u2(data, pos, FieldPath::NameAndTypeNameIndex { constant_pool_index }) {
        Err(e) => Err(e),
        Ok((name_index, p1)) => match spec_read_u2(
            data,
            p1,
            FieldPath::NameAndTypeDescriptorIndex { constant_pool_index },
        ) {
            Err(e) => Err(e),
            Ok((descriptor_index, p2)) => Ok(
                (SpecCpInfo::NameAndType { name_index, descriptor_index }, p2),
            ),
        },
    }
}

/// What decoding one whole entry at `pos` yields: its tag byte
/// dispatched to the matching body, or the rejection of an unknown tag.
pub open spec fn spec_decode_cp_entry(data: Seq<u8>, pos: int, constant_pool_index: u16) -> Result<
    (SpecCpInfo, int),
    Error,
> {
    match spec_read_u1(data, pos, FieldPath::ConstantPoolTag { constant_pool_index }) {
        Err(e) => Err(e),
        Ok((tag, p1)) => match spec_constant_kind_from_u1(tag) {
            Err(e) => Err(Error::TryConstantKindFromU1(e)),
            Ok(kind) => match kind {
                ConstantKind::Utf8 => spec_decode_utf8_entry(data, p1, constant_pool_index),
                ConstantKind::Class => spec_decode_class_entry(data, p1, constant_pool_index),
                ConstantKind::Methodref => spec_decode_method_ref_entry(
                    data,
                    p1,
                    constant_pool_index,
                ),
                ConstantKind::NameAndType => spec_decode_name_and_type_entry(
                    data,
                    p1,
                    constant_pool_index,
                ),
            },
        },
    }
}

/// What decoding the entries at indices `index..count` yields, in
/// order, stopping at the first failure.
pub open spec fn spec_decode_cp_entries(data: Seq<u8>, pos: int, index: u16, count: u16) -> Result<
    (Seq<SpecCpInfo>, int),
    Error,
>
    decreases count - index,
{
    if index >= count {
        Ok((Seq::empty(), pos))
    } else {
        match spec_decode_cp_entry(data, pos, index) {
            Err(e) => Err(e),
            Ok((entry, p1)) => prepend_decoded(
                seq![entry],
                spec_decode_cp_entries(data, p1, (index + 1) as u16, count),
            ),
        }
    }
}

/// What reading the declared count at `pos` yields: the count, rejected
/// when it is below the mandatory minimum of 1.
pub open spec fn spec_constant_pool_count(data: Seq<u8>, pos: int) -> Result<(u16, int), Error> {
    match spec_read_u2(data, pos, FieldPath::ConstantPoolCount) {
        Err(e) => Err(e),
        Ok((count, p1)) => if count < MIN_CONST_POOL_COUNT {
            Err(Error::InvalidConstantPoolCount(count))
        } else {
            Ok((count, p1))
        },
    }
}

/// What decoding the whole pool at `pos` yields: the declared count
/// `k`, then exactly `k - 1` entries.
pub open spec fn spec_decode_constant_pool(data: Seq<u8>, pos: int) -> Result<
    (Seq<SpecCpInfo>, int),
    Error,
> {
    match spec_constant_pool_count(data, pos) {
        Err(e) => Err(e),
        Ok((count, p1)) => spec_decode_cp_entries(data, p1, 1, count),
    }
}

/// The entry models of a decoded pool.
pub open spec fn cp_infos_view(s: Seq<CpInfo>) -> Seq<SpecCpInfo> {
    s.map_values(|c: CpInfo| c@)
}

/// Reads the declared pool count, rejecting a count below 1.
pub fn print_constant_pool_count(s: &mut ByteStream) -> (r: Result<U2, Error>)
    requires
        old(s).wf(),
    ensures
        final(s).wf(),
        final(s).data@ == old(s).data@,
        old(s).pos <= final(s).pos,
        match spec_constant_pool_count(old(s).data@, old(s).pos as int) {
            Ok((count, p)) => r == Ok::<U2, Error>(count) && final(s).pos == p,
            Err(e) => r == Err::<U2, Error>(e),
        },
{
    let constant_pool_count = match read_u2(s, FieldPath::ConstantPoolCount) {
        Ok(c) => c,
        Err(e) => {
            return Err(e);
        },
    };
    if constant_pool_count < MIN_CONST_POOL_COUNT {
        return Err(Error::InvalidConstantPoolCount(constant_pool_count));
    }
    Ok(constant_pool_count)
}

/// Reads the body of a Utf8 entry: length, raw bytes, text validation.
pub fn print_utf8_cp_info(s: &mut ByteStream, constant_pool_index: U2) -> (r: Result<
    CpInfo,
    Error,
>)
    requires
        old(s).wf(),
    ensures
        final(s).wf(),
        final(s).data@ == old(s).data@,
        old(s).pos <= final(s).pos,
        match spec_decode_utf8_entry(old(s).data@, old(s).pos as int, constant_pool_index) {
            Ok((m, p)) => r matches Ok(v) && v@ == m && final(s).pos == p,
            Err(e) => r == Err::<CpInfo, Error>(e),
        },
{
    let length = match read_u2(s, FieldPath::Utf8Length { constant_pool_index }) {
        Ok(l) => l,
        Err(e) => {
            return Err(e);
        },
    };
    let bytes = match read_buffer(s, FieldPath::Utf8Bytes { constant_pool_index }, length as usize) {
        Ok(b) => b,
        Err(e) => {
            return Err(e);
        },
    };
    match ModifiedUtf8String::try_from_bytes(bytes) {
        Ok(modified_utf8) => Ok(CpInfo::Utf8(modified_utf8)),
        Err(e) => Err(Error::InvalidUtf8Constant(e)),
    }
}

/// Reads the body of a Class entry: one pool index.
pub fn print_class_cp_info(s: &mut ByteStream, constant_pool_index: U2) -> (r: Result<
    CpInfo,
    Error,
>)
    requires
        old(s).wf(),
    ensures
        final(s).wf(),
        final(s).data@ == old(s).data@,
        old(s).pos <= final(s).pos,
        match spec_decode_class_entry(old(s).data@, old(s).pos as int, constant_pool_index) {
            Ok((m, p)) => r matches Ok(v) && v@ == m && final(s).pos == p,
            Err(e) => r == Err::<CpInfo, Error>(e),
        },
{
    let name_index = match read_u2(s, FieldPath::ClassNameIndex { constant_pool_index }) {
        Ok(i) => i,
        Err(e) => {
            return Err(e);
        },
    };
    Ok(CpInfo::Class { name_index })
}

/// Reads the body of a Methodref entry: two pool indices.
pub fn print_method_ref_cp_info(s: &mut ByteStream, constant_pool_index: U2) -> (r: Result<
    CpInfo,
    Error,
>)
    requires
        old(s).wf(),
    ensures
        final(s).wf(),
        final(s).data@ == old(s).data@,
        old(s).pos <= final(s).pos,
        match spec_decode_method_ref_entry(old(s).data@, old(s).pos as int, constant_pool_index) {
            Ok((m, p)) => r matches Ok(v) && v@ == m && final(s).pos == p,
            Err(e) => r == Err::<CpInfo, Error>(e),
        },
{
    let class_index = match read_u2(s, FieldPath::MethodrefClassIndex { constant_pool_index }) {
        Ok(i) => i,
        Err(e) => {
            return Err(e);
        },
    };
    let name_and_type_index = match read_u2(
        s,
        FieldPath::MethodrefNameAndTypeIndex { constant_pool_index },
    ) {
        Ok(i) => i,
        Err(e) => {
            return Err(e);
        },
    };
    Ok(CpInfo::MethodrefInfo { class_index, name_and_type_index })
}

/// Reads the body of a NameAndType entry: two pool indices.
pub fn print_name_and_type_cp_info(s: &mut ByteStream, constant_pool_index: U2) -> (r: Result<
    CpInfo,
    Error,
>)
    requires
        old(s).wf(),
    ensures
        final(s).wf(),
        final(s).data@ == old(s).data@,
        old(s).pos <= final(s).pos,
        match spec_decode_name_and_type_entry(
            old(s).data@,
            old(s).pos as int,
            constant_pool_index,
        ) {
            Ok((m, p)) => r matches Ok(v) && v@ == m && final(s).pos == p,
            Err(e) => r == Err::<CpInfo, Error>(e),
        },
{
    let name_index = match read_u2(s, FieldPath::NameAndTypeNameIndex { constant_pool_index }) {
        Ok(i) => i,
        Err(e) => {
            return Err(e);
        },
    };
    let descriptor_index = match read_u2(
        s,
        FieldPath::NameAndTypeDescriptorIndex { constant_pool_index },
    ) {
        Ok(i) => i,
        Err(e) => {
            return Err(e);
        },
    };
    Ok(CpInfo::NameAndType { name_index, descriptor_index })
}

/// Reads one whole entry: its tag byte, then the matching body.
pub fn print_cp_item(s: &mut ByteStream, constant_pool_index: U2) -> (r: Result<CpInfo, Error>)
    requires
        old(s).wf(),
    ensures
        final(s).wf(),
        final(s).data@ == old(s).data@,
        old(s).pos <= final(s).pos,
        match spec_decode_cp_entry(old(s).data@, old(s).pos as int, constant_pool_index) {
            Ok((m, p)) => r matches Ok(v) && v@ == m && final(s).pos == p,
            Err(e) => r == Err::<CpInfo, Error>(e),
        },
{
    let tag = match read_u1(s, FieldPath::ConstantPoolTag { constant_pool_index }) {
        Ok(t) => t,
        Err(e) => {
            return Err(e);
        },
    };
    let constant_kind = match ConstantKind::try_from_u1(tag) {
        Ok(k) => k,
        Err(e) => {
            return Err(Error::TryConstantKindFromU1(e));
        },
    };
    match constant_kind {
        ConstantKind::Utf8 => print_utf8_cp_info(s, constant_pool_index),
        ConstantKind::Class => print_class_cp_info(s, constant_pool_index),
        ConstantKind::Methodref => print_method_ref_cp_info(s, constant_pool_index),
        ConstantKind::NameAndType => print_name_and_type_cp_info(s, constant_pool_index),
    }
}

/// Reads the whole pool: the declared count `k`, then `k - 1` entries.
pub fn print_constant_pool(s: &mut ByteStream) -> (r: Result<Vec<CpInfo>, Error>)
    requires
        old(s).wf(),
    ensures
        final(s).wf(),
        final(s).data@ == old(s).data@,
        old(s).pos <= final(s).pos,
        match spec_decode_constant_pool(old(s).data@, old(s).pos as int) {
            Ok((ms, p)) => r matches Ok(v) && cp_infos_view(v@) == ms && final(s).pos == p,
            Err(e) => r == Err::<Vec<CpInfo>, Error>(e),
        },
{
    let constant_pool_count = match print_constant_pool_count(s) {
        Ok(c) => c,
        Err(e) => {
            return Err(e);
        },
    };
    let ghost data = s.data@;
    let ghost pos1 = s.pos as int;
    let mut constant_pool: Vec<CpInfo> = Vec::new();
    let mut constant_pool_index: u16 = 1;
    while constant_pool_index < constant_pool_count
        invariant
            s.wf(),
            s.data@ == data,
            data == old(s).data@,
            old(s).pos <= pos1 <= s.pos,
            1 <= constant_pool_index <= constant_pool_count,
            spec_decode_constant_pool(old(s).data@, old(s).pos as int) == spec_decode_cp_entries(
                data,
                pos1,
                1,
                constant_pool_count,
            ),
            prepend_decoded(
                cp_infos_view(constant_pool@),
                spec_decode_cp_entries(
                    data,
                    s.pos as int,
                    constant_pool_index,
                    constant_pool_count,
                ),
            ) == spec_decode_cp_entries(data, pos1, 1, constant_pool_count),
        decreases constant_pool_count - constant_pool_index,
    {
        let ghost entry_pos = s.pos as int;
        match print_cp_item(s, constant_pool_index) {
            Ok(item) => {
                let ghost old_views = cp_infos_view(constant_pool@);
                let ghost rest = spec_decode_cp_entries(
                    data,
                    s.pos as int,
                    (constant_pool_index + 1) as u16,
                    constant_pool_count,
                );
                constant_pool.push(item);
                proof {
                    assert(cp_infos_view(constant_pool@) =~= old_views + seq![item@]);
                    match rest {
                        Ok((rs, rp)) => {
                            assert(old_views + (seq![item@] + rs) =~= (old_views + seq![item@])
                                + rs);
                        },
                        Err(_) => {},
                    }
                }
                constant_pool_index = constant_pool_index + 1;
            },
            Err(e) => {
                return Err(e);
            },
        }
    }
    proof {
        assert(cp_infos_view(constant_pool@) + Seq::<SpecCpInfo>::empty() =~= cp_infos_view(
            constant_pool@,
        ));
    }
    Ok(constant_pool)
}

/// The number of bytes one entry occupies in the file: its tag byte
/// plus its tag-dependent body.
pub open spec fn cp_entry_size(e: SpecCpInfo) -> int {
    match e {
        SpecCpInfo::Utf8(bytes) => 3 + bytes.len() as int,
        SpecCpInfo::Class { .. } => 3,
        SpecCpInfo::MethodrefInfo { .. } => 5,
        SpecCpInfo::NameAndType { .. } => 5,
    }
}

/// The number of bytes a run of entries occupies in the file.
pub open spec fn cp_entries_size(es: Seq<SpecCpInfo>) -> int
    decreases es.len(),
{
    if es.len() == 0 {
        0
    } else {
        cp_entry_size(es[0]) + cp_entries_size(es.drop_first())
    }
}

/// Decoding one entry consumes exactly the bytes its shape implies,
/// and never reads past the end of the data.
pub proof fn lemma_cp_entry_consumption(data: Seq<u8>, pos: int, index: u16)
    ensures
        spec_decode_cp_entry(data, pos, index) matches Ok((e, p)) ==> p == pos + cp_entry_size(e)
            && p <= data.len(),
{
    match spec_read_u1(data, pos, FieldPath::ConstantPoolTag { constant_pool_index: index }) {
        Ok((tag, p1)) => {
            match spec_constant_kind_from_u1(tag) {
                Ok(kind) => {
                    match kind {
                        ConstantKind::Utf8 => {
                            assert(spec_decode_cp_entry(data, pos, index)
                                == spec_decode_utf8_entry(data, p1, index));
                        },
                        ConstantKind::Class => {
                            assert(spec_decode_cp_entry(data, pos, index)
                                == spec_decode_class_entry(data, p1, index));
                        },
                        ConstantKind::Methodref => {
                            assert(spec_decode_cp_entry(data, pos, index)
                                == spec_decode_method_ref_entry(data, p1, index));
                        },
                        ConstantKind::NameAndType => {
                            assert(spec_decode_cp_entry(data, pos, index)
                                == spec_decode_name_and_type_entry(data, p1, index));
                        },
                    }
                },
                Err(_) => {},
            }
        },
        Err(_) => {},
    }
}

/// Decoding a run of entries consumes exactly the sum of the bytes
/// each decoded entry implies.
pub proof fn lemma_cp_entries_consumption(data: Seq<u8>, pos: int, index: u16, count: u16)
    ensures
        spec_decode_cp_entries(data, pos, index, count) matches Ok((es, p)) ==> p == pos
            + cp_entries_size(es) && (es.len() > 0 ==> p <= data.len()),
    decreases count - index,
{
    if index < count {
        match spec_decode_cp_entry(data, pos, index) {
            Ok((e, p1)) => {
                lemma_cp_entry_consumption(data, pos, index);
                lemma_cp_entries_consumption(data, p1, (index + 1) as u16, count);
                match spec_decode_cp_entries(data, p1, (index + 1) as u16, count) {
                    Ok((rs, _)) => {
                        assert((seq![e] + rs).drop_first() =~= rs);
                        assert((seq![e] + rs)[0] == e);
                    },
                    Err(_) => {},
                }
            },
            Err(_) => {},
        }
    }
}

/// Decoding the whole pool consumes exactly two bytes of count plus
/// the bytes its decoded entries imply, and never reads past the end.
pub proof fn lemma_constant_pool_consumption(data: Seq<u8>, pos: int)
    ensures
        spec_decode_constant_pool(data, pos) matches Ok((es, p)) ==> p == pos + 2
            + cp_entries_size(es) && p <= data.len(),
{
    if spec_decode_constant_pool(data, pos) is Ok {
        let (count, p1) = spec_constant_pool_count(data, pos)->Ok_0;
        lemma_cp_entries_consumption(data, p1, 1, count);
    }
}

/// The declared count field `k` of a pool that decodes successfully
/// yields exactly `k - 1` entries.
pub proof fn lemma_cp_entries_count(data: Seq<u8>, pos: int, index: u16, count: u16)
    ensures
        spec_decode_cp_entries(data, pos, index, count) matches Ok((entries, _)) ==> entries.len()
            == if index <= count {
            (count - index) as int
        } else {
            0
        },
    decreases count - index,
{
    if index < count {
        match spec_decode_cp_entry(data, pos, index) {
            Ok((entry, p1)) => {
                lemma_cp_entries_count(data, p1, (index + 1) as u16, count);
            },
            Err(_) => {},
        }
    }
}

/// The count law of the whole pool: when the pool decodes, its declared
/// count field holds some `k >= 1` and exactly `k - 1` entries follow.
pub proof fn lemma_constant_pool_entry_count(data: Seq<u8>, pos: int)
    ensures
        spec_decode_constant_pool(data, pos) matches Ok((entries, _))
            ==> spec_constant_pool_count(data, pos) matches Ok((count, _)) && count >= 1
            && entries.len() == count - 1,
{
    if spec_decode_constant_pool(data, pos) is Ok {
        let (count, p1) = spec_constant_pool_count(data, pos)->Ok_0;
        lemma_cp_entries_count(data, p1, 1, count);
    }
}

} // verus!
