use classfile::modified_utf8::{ModifiedUtf8String, TryModifiedUtf8StringFromByteVecError};

fn accepts(bytes: Vec<u8>) {
    let expected = bytes.clone();
    match ModifiedUtf8String::try_from_bytes(bytes) {
        Ok(m) => assert_eq!(m.as_bytes(), &expected),
        Err(_) => panic!("well-formed bytes were rejected: {:?}", expected),
    }
}

fn rejects(bytes: Vec<u8>) {
    let shown = bytes.clone();
    match ModifiedUtf8String::try_from_bytes(bytes) {
        Ok(_) => panic!("malformed bytes were accepted: {:?}", shown),
        Err(e) => assert_eq!(e, TryModifiedUtf8StringFromByteVecError::FromUtf8),
    }
}

#[test]
fn empty_buffer_is_valid_text() {
    accepts(vec![]);
}

#[test]
fn ascii_is_valid_text() {
    accepts(b"hello, world".to_vec());
}

#[test]
fn two_byte_sequences_are_valid() {
    // "hé" and the lowest and highest two-byte characters.
    accepts(vec![0x68, 0xC3, 0xA9]);
    accepts(vec![0xC2, 0x80]);
    accepts(vec![0xDF, 0xBF]);
}

#[test]
fn three_byte_sequences_are_valid() {
    accepts(vec![0xE2, 0x82, 0xAC]);
    accepts(vec![0xE0, 0xA0, 0x80]);
    accepts(vec![0xED, 0x9F, 0xBF]);
    accepts(vec![0xEE, 0x80, 0x80]);
}

#[test]
fn four_byte_sequences_are_valid() {
    accepts(vec![0xF0, 0x9F, 0x98, 0x80]);
    accepts(vec![0xF0, 0x90, 0x80, 0x80]);
    accepts(vec![0xF4, 0x8F, 0xBF, 0xBF]);
}

#[test]
fn lone_continuation_byte_is_rejected() {
    rejects(vec![0x80]);
    rejects(vec![0x61, 0x80, 0x62]);
}

#[test]
fn truncated_sequences_are_rejected() {
    rejects(vec![0xC3]);
    rejects(vec![0xE2, 0x82]);
    rejects(vec![0xF0, 0x9F, 0x98]);
}

#[test]
fn overlong_encodings_are_rejected() {
    rejects(vec![0xC0, 0x80]);
    rejects(vec![0xC1, 0xBF]);
    rejects(vec![0xE0, 0x9F, 0x80]);
    rejects(vec![0xF0, 0x8F, 0x80, 0x80]);
}

#[test]
fn encoded_surrogates_are_rejected() {
    rejects(vec![0xED, 0xA0, 0x80]);
    rejects(vec![0xED, 0xBF, 0xBF]);
}

#[test]
fn bytes_above_the_last_code_point_are_rejected() {
    rejects(vec![0xF4, 0x90, 0x80, 0x80]);
    rejects(vec![0xF5, 0x80, 0x80, 0x80]);
    rejects(vec![0xFF]);
}

#[test]
fn validation_agrees_with_the_standard_library() {
    // The accepted set is exactly the well-formed UTF-8 buffers: try
    // every two-byte buffer and compare with std's validator.
    for a in 0..=255u8 {
        for b in 0..=255u8 {
            let bytes = vec![a, b];
            let ours = ModifiedUtf8String::try_from_bytes(bytes.clone()).is_ok();
            let stds = String::from_utf8(bytes).is_ok();
            assert_eq!(ours, stds, "disagreement on [{:#04X}, {:#04X}]", a, b);
        }
    }
}
