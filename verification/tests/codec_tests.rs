use ctp_gateway::codec::{decode, encode, reencode, DecodeError};

#[test]
fn decode_ascii_nul_padded_buffer() {
    let buffer = [b'2', b'0', b'2', b'4', b'0', b'1', b'0', b'3', 0, 0, 0, 0];
    assert_eq!(decode(&buffer), Ok(String::from("20240103")));
}

#[test]
fn decode_stops_at_first_nul() {
    let buffer = [b'a', b'b', 0, b'c', b'd'];
    assert_eq!(decode(&buffer), Ok(String::from("ab")));
}

#[test]
fn decode_whole_buffer_without_nul() {
    let buffer = [b'r', b'b', b'2', b'4', b'0', b'5'];
    assert_eq!(decode(&buffer), Ok(String::from("rb2405")));
}

#[test]
fn decode_empty_buffer_is_empty_text() {
    let buffer: [u8; 3] = [0, 0, 0];
    assert_eq!(decode(&buffer), Ok(String::new()));
}

#[test]
fn decode_legacy_multibyte_pair() {
    // GB 18030 (GBK region): 0xC4 0xE3 is the character U+4F60.
    let buffer = [0xC4u8, 0xE3, 0, 0];
    assert_eq!(decode(&buffer), Ok(String::from("\u{4F60}")));
}

#[test]
fn decode_invalid_lead_byte_is_error() {
    // 0xFF is not a valid GB 18030 lead byte.
    let buffer = [0xFFu8, b'x'];
    assert_eq!(decode(&buffer), Err(DecodeError::InvalidSequence));
}

#[test]
fn decode_truncated_pair_is_error() {
    let buffer = [0xC4u8];
    assert_eq!(decode(&buffer), Err(DecodeError::InvalidSequence));
}

#[test]
fn encode_ascii_is_identity_bytes() {
    assert_eq!(encode("rb2405"), b"rb2405".to_vec());
}

#[test]
fn encode_multibyte_pair() {
    assert_eq!(encode("\u{4F60}"), vec![0xC4u8, 0xE3]);
}

#[test]
fn roundtrip_ascii_text() {
    assert_eq!(reencode("tcp://1.2.3.4:41213"), Ok(String::from("tcp://1.2.3.4:41213")));
}

#[test]
fn roundtrip_chinese_text() {
    let text = "\u{4F60}\u{597D}, rb2405";
    let bytes = encode(text);
    assert_eq!(decode(&bytes), Ok(String::from(text)));
}

#[test]
fn roundtrip_empty_text() {
    assert_eq!(reencode(""), Ok(String::new()));
}

#[test]
fn encoder_gap_character_does_not_round_trip() {
    // U+E5E5 is the one scalar value this encoder does not carry
    // faithfully: it falls into a hole of the two-byte index and comes back
    // as a different character, so the round-trip law excludes it.
    let bytes = encode("\u{e5e5}");
    let back = decode(&bytes);
    assert!(back.is_ok());
    assert_ne!(back, Ok(String::from("\u{e5e5}")));
}

#[test]
fn roundtrip_holds_around_the_encoder_gap() {
    // The neighbours of the gap round-trip as the contract states.
    assert_eq!(reencode("\u{e5e4}"), Ok(String::from("\u{e5e4}")));
    assert_eq!(reencode("\u{e5e6}"), Ok(String::from("\u{e5e6}")));
}
