//! Validation of the text bytes held by Utf8 constants.
//!
//! The buffer of a Utf8 constant must be a well-formed UTF-8 encoding;
//! the further restrictions peculiar to the Modified UTF-8 variant
//! (re-encoded null bytes, paired surrogates in place of four-byte
//! sequences) are deliberately not enforced here, so plain well-formed
//! UTF-8 is what is accepted.

use vstd::prelude::*;

verus! {

/// Whether `b` is a continuation byte (`0x80..=0xBF`).
pub open spec fn is_continuation_byte(b: u8) -> bool {
    0x80 <= b <= 0xBF
}

/// The length of the well-formed encoded character starting at `i`,
/// when the bytes from `i` on begin with one; `None` otherwise.
///
/// The ranges are those of the UTF-8 grammar: overlong forms, encoded
/// surrogates and positions above `0x10FFFF` are all malformed.
pub open spec fn utf8_char_len(s: Seq<u8>, i: int) -> Option<int> {
    if !(0 <= i < s.len()) {
        None
    } else {
        let b0 = s[i];
        if b0 <= 0x7F {
            Some(1)
        } else if 0xC2 <= b0 <= 0xDF {
            if i + 2 <= s.len() && is_continuation_byte(s[i + 1]) {
                Some(2)
            } else {
                None
            }
        } else if 0xE0 <= b0 <= 0xEF {
            let lo: u8 = if b0 == 0xE0 { 0xA0 } else { 0x80 };
            let hi: u8 = if b0 == 0xED { 0x9F } else { 0xBF };
            if i + 3 <= s.len() && lo <= s[i + 1] <= hi && is_continuation_byte(s[i + 2]) {
                Some(3)
            } else {
                None
            }
        } else if 0xF0 <= b0 <= 0xF4 {
            let lo: u8 = if b0 == 0xF0 { 0x90 } else { 0x80 };
            let hi: u8 = if b0 == 0xF4 { 0x8F } else { 0xBF };
            if i + 4 <= s.len() && lo <= s[i + 1] <= hi && is_continuation_byte(s[i + 2])
                && is_continuation_byte(s[i + 3]) {
                Some(4)
            } else {
                None
            }
        } else {
            None
        }
    }
}

/// Whether the bytes from `i` to the end are a well-formed encoding.
pub open spec fn is_utf8_from(s: Seq<u8>, i: int) -> bool
    decreases s.len() - i when 0 <= i <= s.len()
{
    i == s.len() || match utf8_char_len(s, i) {
        Some(n) => is_utf8_from(s, i + n),
        None => false,
    }
}

/// Whether `s` is a well-formed UTF-8 encoding.
pub open spec fn is_utf8(s: Seq<u8>) -> bool {
    is_utf8_from(s, 0)
}

/// A byte buffer already validated as well-formed text.
pub struct ModifiedUtf8String {
    bytes: Vec<u8>,
}

/// The rejection of a buffer whose bytes are not well formed.
#[derive(Clone, Copy, Debug, PartialEq, Eq, Structural)]
pub enum TryModifiedUtf8StringFromByteVecError {
    FromUtf8,
}

impl View for ModifiedUtf8String {
    type V = Seq<u8>;

    closed spec fn view(&self) -> Seq<u8> {
        self.bytes@
    }
}

impl ModifiedUtf8String {
    /// The bytes a value of this type holds are always well formed.
    pub open spec fn wf(self) -> bool {
        is_utf8(self@)
    }

    /// Validates `bytes` and takes ownership of them: succeeds on
    /// exactly the well-formed buffers, and returns them unchanged.
    pub fn try_from_bytes(bytes: Vec<u8>) -> (r: Result<
        ModifiedUtf8String,
        TryModifiedUtf8StringFromByteVecError,
    >)
        ensures
            match r {
                Ok(m) => is_utf8(bytes@) && m@ == bytes@ && m.wf(),
                Err(e) => !is_utf8(bytes@) && e
                    == TryModifiedUtf8StringFromByteVecError::FromUtf8,
            },
    {
        let len = bytes.len();
        let mut i: usize = 0;
        while i < len
            invariant
                len == bytes@.len(),
                i <= len,
                is_utf8(bytes@) <==> is_utf8_from(bytes@, i as int),
            decreases len - i,
        {
            let b0 = bytes[i];
            if b0 <= 0x7F {
                i = i + 1;
            } else if 0xC2 <= b0 && b0 <= 0xDF {
                if len - i >= 2 && is_cont(bytes[i + 1]) {
                    i = i + 2;
                } else {
                    return Err(TryModifiedUtf8StringFromByteVecError::FromUtf8);
                }
            } else if 0xE0 <= b0 && b0 <= 0xEF {
                let lo: u8 = if b0 == 0xE0 { 0xA0 } else { 0x80 };
                let hi: u8 = if b0 == 0xED { 0x9F } else { 0xBF };
                if len - i >= 3 && lo <= bytes[i + 1] && bytes[i + 1] <= hi && is_cont(
                    bytes[i + 2],
                ) {
                    i = i + 3;
                } else {
                    return Err(TryModifiedUtf8StringFromByteVecError::FromUtf8);
                }
            } else if 0xF0 <= b0 && b0 <= 0xF4 {
                let lo: u8 = if b0 == 0xF0 { 0x90 } else { 0x80 };
                let hi: u8 = if b0 == 0xF4 { 0x8F } else { 0xBF };
                if len - i >= 4 && lo <= bytes[i + 1] && bytes[i + 1] <= hi && is_cont(
                    bytes[i + 2],
                ) && is_cont(bytes[i + 3]) {
                    i = i + 4;
                } else {
                    return Err(TryModifiedUtf8StringFromByteVecError::FromUtf8);
                }
            } else {
                return Err(TryModifiedUtf8StringFromByteVecError::FromUtf8);
            }
        }
        Ok(ModifiedUtf8String { bytes })
    }

    /// The validated bytes.
    pub fn as_bytes(&self) -> (r: &Vec<u8>)
        ensures
            r@ == self@,
    {
        &self.bytes
    }
}

/// Whether `b` is a continuation byte.
fn is_cont(b: u8) -> (r: bool)
    ensures
        r == is_continuation_byte(b),
{
    0x80 <= b && b <= 0xBF
}

} // verus!
