// The frame layer: the 4-byte big-endian length prefix, truncation, and the
// trailing-bytes rule inside one frame.

use ibapi::error::Error;
use ibapi::frame::encode_frame;
use ibapi::frame::take_frame;
use ibapi::message::decode_message;
use ibapi::message::Message;

#[test]
fn prefix_equals_body_length() {
    let body = b"9\0001\0100\0".to_vec();
    let framed = encode_frame(&body);
    assert_eq!(framed.len(), 4 + body.len());
    assert_eq!(&framed[0..4], &(body.len() as u32).to_be_bytes());
    assert_eq!(&framed[4..], &body[..]);
}

#[test]
fn empty_body_frames_as_four_zero_bytes() {
    let framed = encode_frame(&Vec::new());
    assert_eq!(framed, vec![0, 0, 0, 0]);
}

#[test]
fn take_frame_returns_exact_body_and_rest() {
    let mut wire = encode_frame(&b"one\0".to_vec());
    wire.extend_from_slice(&encode_frame(&b"two\0".to_vec()));
    let (body1, next) = take_frame(&wire, 0).unwrap();
    assert_eq!(body1, b"one\0".to_vec());
    let (body2, end) = take_frame(&wire, next).unwrap();
    assert_eq!(body2, b"two\0".to_vec());
    assert_eq!(end, wire.len());
}

#[test]
fn short_frame_is_truncated() {
    // A frame claiming 50 bytes with only 30 available before the stream
    // closes yields Truncated.
    let mut wire = 50u32.to_be_bytes().to_vec();
    wire.extend_from_slice(&[7u8; 30]);
    assert!(matches!(take_frame(&wire, 0), Err(Error::Truncated)));
}

#[test]
fn short_prefix_is_truncated() {
    let wire = vec![0u8, 0, 0];
    assert!(matches!(take_frame(&wire, 0), Err(Error::Truncated)));
}

#[test]
fn known_tag_with_trailing_bytes_is_rejected() {
    // A frame whose declared length goes past one fully-decoded message is a
    // schema mismatch, not silently ignored.
    let body = b"62\0001\0extra\0".to_vec();
    assert!(matches!(
        decode_message(body),
        Err(Error::Malformed { .. })
    ));
}

#[test]
fn unknown_tag_skips_trailing_bytes() {
    // The fallback carries the raw tag and tolerates whatever follows.
    let body = b"9999\0anything\0at\0all\0".to_vec();
    match decode_message(body) {
        Ok(Message::UnknownMessage(tag)) => assert_eq!(tag, "9999"),
        other => panic!("expected the fallback, got {:?}", other),
    }
}

#[test]
fn exact_frame_decodes() {
    let body = b"62\0001\0".to_vec();
    match decode_message(body) {
        Ok(Message::PositionDataEnd { version }) => assert_eq!(version, 1),
        other => panic!("expected a position-data end, got {:?}", other),
    }
}
