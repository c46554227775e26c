//! Attribute records: a name index, a declared length, and exactly
//! that many payload bytes, kept opaque.
//!
//! Attribute payloads are never interpreted: the decoder consumes
//! precisely the declared number of bytes whatever they hold.

use vstd::prelude::*;

use crate::error::{Error, FieldPath, NameRoot};
use crate::primitives::{
    prepend_decoded, read_buffer, read_u2, read_u4, spec_read_buffer, spec_read_u2, spec_read_u4,
    ByteStream, U1, U2, U4,
};

verus! {

/// One attribute record: a pool index naming it, the declared payload
/// length, and the payload itself.
pub struct AttributeInfo {
    pub attribute_name_index: U2,
    pub attribute_length: U4,
    pub info: Vec<U1>,
}

/// The mathematical shape of an attribute record.
pub ghost struct SpecAttributeInfo {
    pub attribute_name_index: u16,
    pub attribute_length: u32,
    pub info: Seq<u8>,
}

impl View for AttributeInfo {
    type V = SpecAttributeInfo;

    open spec fn view(&self) -> SpecAttributeInfo {
        SpecAttributeInfo {
            attribute_name_index: self.attribute_name_index,
            attribute_length: self.attribute_length,
            info: self.info@,
        }
    }
}

/// The record models of a decoded attribute list.
pub open spec fn attribute_infos_view(s: Seq<AttributeInfo>) -> Seq<SpecAttributeInfo> {
    s.map_values(|a: AttributeInfo| a@)
}

/// What decoding one attribute record at `pos` yields: a name index, a
/// declared length that must fit the platform buffer size, and exactly
/// that many payload bytes.
pub open spec fn spec_decode_attribute(
    data: Seq<u8>,
    pos: int,
    root: NameRoot,
    attributes_index: u16,
) -> Result<(SpecAttributeInfo, int), Error> {
    match spec_read_u2(data, pos, FieldPath::AttributeNameIndex { root, attributes_index }) {
        Err(e) => Err(e),
        Ok((attribute_name_index, p1)) => match spec_read_u4(
            data,
            p1,
            FieldPath::AttributeLength { root, attributes_index },
        ) {
            Err(e) => Err(e),
            Ok((attribute_length, p2)) => if attribute_length > usize::MAX {
                Err(
                    Error::AttributeLengthTooLarge {
                        attribute_name: FieldPath::AttributeLength { root, attributes_index },
                        attribute_length,
                    },
                )
            } else {
                match spec_read_buffer(
                    data,
                    p2,
                    FieldPath::AttributeInfoBytes { root, attributes_index },
                    attribute_length as int,
                ) {
                    Err(e) => Err(e),
                    Ok((info, p3)) => Ok(
                        (SpecAttributeInfo { attribute_name_index, attribute_length, info }, p3),
                    ),
                }
            },
        },
    }
}

/// What decoding the records at indices `index..count` yields, in
/// order, stopping at the first failure.
pub open spec fn spec_decode_attribute_seq(
    data: Seq<u8>,
    pos: int,
    root: NameRoot,
    index: u16,
    count: u16,
) -> Result<(Seq<SpecAttributeInfo>, int), Error>
    decreases count - index,
{
    if index >= count {
        Ok((Seq::empty(), pos))
    } else {
        match spec_decode_attribute(data, pos, root, index) {
            Err(e) => Err(e),
            Ok((attribute, p1)) => prepend_decoded(
                seq![attribute],
                spec_decode_attribute_seq(data, p1, root, (index + 1) as u16, count),
            ),
        }
    }
}

/// What decoding a whole attribute list at `pos` yields: the declared
/// count, then exactly that many records.
pub open spec fn spec_decode_attributes(data: Seq<u8>, pos: int, root: NameRoot) -> Result<
    ((u16, Seq<SpecAttributeInfo>), int),
    Error,
> {
    match spec_read_u2(data, pos, FieldPath::AttributesCount { root }) {
        Err(e) => Err(e),
        Ok((attributes_count, p1)) => match spec_decode_attribute_seq(
            data,
            p1,
            root,
            0,
            attributes_count,
        ) {
            Err(e) => Err(e),
            Ok((attributes, p2)) => Ok(((attributes_count, attributes), p2)),
        },
    }
}

/// The number of bytes one attribute record occupies in the file: two
/// of name index, four of declared length, and the payload.
pub open spec fn attribute_size(a: SpecAttributeInfo) -> int {
    6 + a.info.len() as int
}

/// The number of bytes a run of attribute records occupies in the file.
pub open spec fn attributes_size(s: Seq<SpecAttributeInfo>) -> int
    decreases s.len(),
{
    if s.len() == 0 {
        0
    } else {
        attribute_size(s[0]) + attributes_size(s.drop_first())
    }
}

/// Decoding one attribute record consumes exactly the bytes it
/// implies, its payload is exactly as long as its declared length, and
/// the read never runs past the end of the data.
pub proof fn lemma_attribute_consumption(data: Seq<u8>, pos: int, root: NameRoot, index: u16)
    ensures
        spec_decode_attribute(data, pos, root, index) matches Ok((a, p)) ==> p == pos
            + attribute_size(a) && a.info.len() == a.attribute_length && p <= data.len(),
{
}

/// Decoding a run of attribute records consumes exactly the sum of the
/// bytes each record implies, and yields one record per index.
pub proof fn lemma_attribute_seq_consumption(
    data: Seq<u8>,
    pos: int,
    root: NameRoot,
    index: u16,
    count: u16,
)
    ensures
        spec_decode_attribute_seq(data, pos, root, index, count) matches Ok((attrs, p)) ==> p
            == pos + attributes_size(attrs) && attrs.len() == if index <= count {
            (count - index) as int
        } else {
            0
        } && (attrs.len() > 0 ==> p <= data.len()),
    decreases count - index,
{
    if index < count {
        match spec_decode_attribute(data, pos, root, index) {
            Ok((a, p1)) => {
                lemma_attribute_consumption(data, pos, root, index);
                lemma_attribute_seq_consumption(data, p1, root, (index + 1) as u16, count);
                match spec_decode_attribute_seq(data, p1, root, (index + 1) as u16, count) {
                    Ok((rs, _)) => {
                        assert((seq![a] + rs).drop_first() =~= rs);
                        assert((seq![a] + rs)[0] == a);
                    },
                    Err(_) => {},
                }
            },
            Err(_) => {},
        }
    }
}

/// Decoding a whole attribute list consumes exactly two bytes of count
/// plus the bytes its records imply, yields exactly as many records as
/// the count declares, and never reads past the end of the data.
pub proof fn lemma_attributes_consumption(data: Seq<u8>, pos: int, root: NameRoot)
    ensures
        spec_decode_attributes(data, pos, root) matches Ok(((count, attrs), p)) ==> p == pos + 2
            + attributes_size(attrs) && attrs.len() == count && p <= data.len(),
{
    if spec_decode_attributes(data, pos, root) is Ok {
        let (count, p1) = spec_read_u2(data, pos, FieldPath::AttributesCount { root })->Ok_0;
        lemma_attribute_seq_consumption(data, p1, root, 0, count);
    }
}

/// Reads one attribute record: name index, declared length, payload.
pub fn print_attribute_info(s: &mut ByteStream, root: NameRoot, attributes_index: U2) -> (r: Result<
    AttributeInfo,
    Error,
>)
    requires
        old(s).wf(),
    ensures
        final(s).wf(),
        final(s).data@ == old(s).data@,
        old(s).pos <= final(s).pos,
        match spec_decode_attribute(old(s).data@, old(s).pos as int, root, attributes_index) {
            Ok((m, p)) => r matches Ok(v) && v@ == m && final(s).pos == p,
            Err(e) => r == Err::<AttributeInfo, Error>(e),
        },
{
    let attribute_name_index = match read_u2(
        s,
        FieldPath::AttributeNameIndex { root, attributes_index },
    ) {
        Ok(i) => i,
        Err(e) => {
            return Err(e);
        },
    };
    let attribute_length = match read_u4(
        s,
        FieldPath::AttributeLength { root, attributes_index },
    ) {
        Ok(l) => l,
        Err(e) => {
            return Err(e);
        },
    };
    if attribute_length as u64 > usize::MAX as u64 {
        return Err(
            Error::AttributeLengthTooLarge {
                attribute_name: FieldPath::AttributeLength { root, attributes_index },
                attribute_length,
            },
        );
    }
    let buffer_len = attribute_length as usize;
    let info = match read_buffer(
        s,
        FieldPath::AttributeInfoBytes { root, attributes_index },
        buffer_len,
    ) {
        Ok(b) => b,
        Err(e) => {
            return Err(e);
        },
    };
    Ok(AttributeInfo { attribute_name_index, attribute_length, info })
}

/// Reads a whole attribute list: the declared count, then that many
/// records in order.
pub fn print_attributes(s: &mut ByteStream, root: NameRoot) -> (r: Result<
    (U2, Vec<AttributeInfo>),
    Error,
>)
    requires
        old(s).wf(),
    ensures
        final(s).wf(),
        final(s).data@ == old(s).data@,
        old(s).pos <= final(s).pos,
        match spec_decode_attributes(old(s).data@, old(s).pos as int, root) {
            Ok(((count, ms), p)) => r matches Ok(v) && v.0 == count && attribute_infos_view(v.1@)
                == ms && final(s).pos == p,
            Err(e) => r == Err::<(U2, Vec<AttributeInfo>), Error>(e),
        },
{
    let attributes_count = match read_u2(s, FieldPath::AttributesCount { root }) {
        Ok(c) => c,
        Err(e) => {
            return Err(e);
        },
    };
    let ghost data = s.data@;
    let ghost pos1 = s.pos as int;
    let mut attributes: Vec<AttributeInfo> = Vec::new();
    let mut attributes_index: u16 = 0;
    while attributes_index < attributes_count
        invariant
            s.wf(),
            s.data@ == data,
            data == old(s).data@,
            old(s).pos <= pos1 <= s.pos,
            attributes_index <= attributes_count,
            spec_read_u2(old(s).data@, old(s).pos as int, FieldPath::AttributesCount { root })
                == Ok::<(u16, int), Error>((attributes_count, pos1)),
            prepend_decoded(
                attribute_infos_view(attributes@),
                spec_decode_attribute_seq(
                    data,
                    s.pos as int,
                    root,
                    attributes_index,
                    attributes_count,
                ),
            ) == spec_decode_attribute_seq(data, pos1, root, 0, attributes_count),
        decreases attributes_count - attributes_index,
    {
        match print_attribute_info(s, root, attributes_index) {
            Ok(attribute) => {
                let ghost old_views = attribute_infos_view(attributes@);
                let ghost rest = spec_decode_attribute_seq(
                    data,
                    s.pos as int,
                    root,
                    (attributes_index + 1) as u16,
                    attributes_count,
                );
                attributes.push(attribute);
                proof {
                    assert(attribute_infos_view(attributes@) =~= old_views + seq![attribute@]);
                    match rest {
                        Ok((rs, rp)) => {
                            assert(old_views + (seq![attribute@] + rs) =~= (old_views
                                + seq![attribute@]) + rs);
                        },
                        Err(_) => {},
                    }
                }
                attributes_index = attributes_index + 1;
            },
            Err(e) => {
                return Err(e);
            },
        }
    }
    proof {
        assert(attribute_infos_view(attributes@) + Seq::<SpecAttributeInfo>::empty()
            =~= attribute_infos_view(attributes@));
    }
    Ok((attributes_count, attributes))
}

} // verus!
