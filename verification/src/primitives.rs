//! Fixed-width big-endian primitive reads over an in-memory byte stream.
//!
//! The class file format stores all multi-byte integers big-endian. The
//! stream is a byte buffer with a strictly advancing cursor: each read
//! either consumes exactly the width of the requested field or fails with
//! [`Error::ReadPrimitive`] / [`Error::ReadBuffer`] naming the field,
//! leaving the cursor where it was.

use vstd::prelude::*;

use crate::error::{Error, FieldPath};

verus! {

pub type U1 = u8;

pub type U2 = u16;

pub type U4 = u32;

/// A byte buffer together with the position of the next unread byte.
pub struct ByteStream {
    pub data: Vec<u8>,
    pub pos: usize,
}

impl ByteStream {
    /// The cursor never runs past the end of the buffer.
    pub open spec fn wf(self) -> bool {
        self.pos <= self.data@.len()
    }

    /// A stream positioned at the first byte of `data`.
    pub fn new(data: Vec<u8>) -> (s: ByteStream)
        ensures
            s.wf(),
            s.data@ == data@,
            s.pos == 0,
    {
        ByteStream { data, pos: 0 }
    }

    /// How many bytes are left to read.
    pub fn remaining(&self) -> (n: usize)
        requires
            self.wf(),
        ensures
            n == self.data@.len() - self.pos,
    {
        self.data.len() - self.pos
    }
}

/// The unsigned big-endian value of the two bytes at `pos`.
pub open spec fn be_u2_at(data: Seq<u8>, pos: int) -> int {
    data[pos] * 0x100 + data[pos + 1]
}

/// The unsigned big-endian value of the four bytes at `pos`.
pub open spec fn be_u4_at(data: Seq<u8>, pos: int) -> int {
    data[pos] * 0x100_0000 + data[pos + 1] * 0x1_0000 + data[pos + 2] * 0x100 + data[pos + 3]
}

/// What a one-byte read at `pos` yields: the byte and the new position,
/// or `ReadPrimitive` naming the field when the stream is exhausted.
pub open spec fn spec_read_u1(data: Seq<u8>, pos: int, field_name: FieldPath) -> Result<
    (u8, int),
    Error,
> {
    if 0 <= pos && pos + 1 <= data.len() {
        Ok((data[pos], pos + 1))
    } else {
        Err(Error::ReadPrimitive { field_name })
    }
}

/// What a two-byte big-endian read at `pos` yields.
pub open spec fn spec_read_u2(data: Seq<u8>, pos: int, field_name: FieldPath) -> Result<
    (u16, int),
    Error,
> {
    if 0 <= pos && pos + 2 <= data.len() {
        Ok((be_u2_at(data, pos) as u16, pos + 2))
    } else {
        Err(Error::ReadPrimitive { field_name })
    }
}

/// What a four-byte big-endian read at `pos` yields.
pub open spec fn spec_read_u4(data: Seq<u8>, pos: int, field_name: FieldPath) -> Result<
    (u32, int),
    Error,
> {
    if 0 <= pos && pos + 4 <= data.len() {
        Ok((be_u4_at(data, pos) as u32, pos + 4))
    } else {
        Err(Error::ReadPrimitive { field_name })
    }
}

/// What reading a buffer of `len` bytes at `pos` yields: exactly those
/// bytes, or `ReadBuffer` naming the buffer when too few are left.
pub open spec fn spec_read_buffer(data: Seq<u8>, pos: int, buffer_name: FieldPath, len: int) -> Result<
    (Seq<u8>, int),
    Error,
> {
    if 0 <= pos && 0 <= len && pos + len <= data.len() {
        Ok((data.subrange(pos, pos + len), pos + len))
    } else {
        Err(Error::ReadBuffer { buffer_name })
    }
}

/// A successful decode of a prefix of items, put in front of the
/// decode of the rest: the failure of the rest is the failure of the
/// whole.
pub open spec fn prepend_decoded<T>(prefix: Seq<T>, rest: Result<(Seq<T>, int), Error>) -> Result<
    (Seq<T>, int),
    Error,
> {
    match rest {
        Ok((items, p)) => Ok((prefix + items, p)),
        Err(e) => Err(e),
    }
}

/// Reads one unsigned byte, or fails naming `field_name`.
pub fn read_u1(s: &mut ByteStream, field_name: FieldPath) -> (r: Result<U1, Error>)
    requires
        old(s).wf(),
    ensures
        final(s).wf(),
        final(s).data@ == old(s).data@,
        match spec_read_u1(old(s).data@, old(s).pos as int, field_name) {
            Ok((v, p)) => r == Ok::<U1, Error>(v) && final(s).pos == p,
            Err(e) => r == Err::<U1, Error>(e) && final(s).pos == old(s).pos,
        },
{
    if s.data.len() - s.pos >= 1 {
        let b = s.data[s.pos];
        s.pos = s.pos + 1;
        Ok(b)
    } else {
        Err(Error::ReadPrimitive { field_name })
    }
}

/// Reads a two-byte big-endian unsigned integer, or fails naming `field_name`.
pub fn read_u2(s: &mut ByteStream, field_name: FieldPath) -> (r: Result<U2, Error>)
    requires
        old(s).wf(),
    ensures
        final(s).wf(),
        final(s).data@ == old(s).data@,
        match spec_read_u2(old(s).data@, old(s).pos as int, field_name) {
            Ok((v, p)) => r == Ok::<U2, Error>(v) && final(s).pos == p,
            Err(e) => r == Err::<U2, Error>(e) && final(s).pos == old(s).pos,
        },
{
    if s.data.len() - s.pos >= 2 {
        let hi = s.data[s.pos];
        let lo = s.data[s.pos + 1];
        s.pos = s.pos + 2;
        Ok((hi as u16) * 0x100 + (lo as u16))
    } else {
        Err(Error::ReadPrimitive { field_name })
    }
}

/// Reads a four-byte big-endian unsigned integer, or fails naming `field_name`.
pub fn read_u4(s: &mut ByteStream, field_name: FieldPath) -> (r: Result<U4, Error>)
    requires
        old(s).wf(),
    ensures
        final(s).wf(),
        final(s).data@ == old(s).data@,
        match spec_read_u4(old(s).data@, old(s).pos as int, field_name) {
            Ok((v, p)) => r == Ok::<U4, Error>(v) && final(s).pos == p,
            Err(e) => r == Err::<U4, Error>(e) && final(s).pos == old(s).pos,
        },
{
    if s.data.len() - s.pos >= 4 {
        let b0 = s.data[s.pos];
        let b1 = s.data[s.pos + 1];
        let b2 = s.data[s.pos + 2];
        let b3 = s.data[s.pos + 3];
        s.pos = s.pos + 4;
        Ok((b0 as u32) * 0x100_0000 + (b1 as u32) * 0x1_0000 + (b2 as u32) * 0x100 + (b3 as u32))
    } else {
        Err(Error::ReadPrimitive { field_name })
    }
}

/// Reads exactly `len` raw bytes, or fails naming `buffer_name`.
pub fn read_buffer(s: &mut ByteStream, buffer_name: FieldPath, len: usize) -> (r: Result<
    Vec<U1>,
    Error,
>)
    requires
        old(s).wf(),
    ensures
        final(s).wf(),
        final(s).data@ == old(s).data@,
        match spec_read_buffer(old(s).data@, old(s).pos as int, buffer_name, len as int) {
            Ok((b, p)) => r matches Ok(v) && v@ == b && final(s).pos == p,
            Err(e) => r == Err::<Vec<U1>, Error>(e) && final(s).pos == old(s).pos,
        },
{
    if s.data.len() - s.pos >= len {
        let start = s.pos;
        let end = s.pos + len;
        let mut buffer: Vec<u8> = Vec::new();
        let mut j = start;
        while j < end
            invariant
                s.wf(),
                s.data@ == old(s).data@,
                s.pos == old(s).pos,
                start == s.pos,
                start <= j <= end,
                end <= s.data@.len(),
                end == start + len,
                buffer@ == s.data@.subrange(start as int, j as int),
            decreases end - j,
        {
            buffer.push(s.data[j]);
            j = j + 1;
        }
        s.pos = end;
        Ok(buffer)
    } else {
        Err(Error::ReadBuffer { buffer_name })
    }
}

} // verus!
