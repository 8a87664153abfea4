// Scalar and token codec behaviour: tokens, integers, booleans, text,
// optional-value sentinels, and the peek/replay discipline.

use ibapi::de::Deserializer;
use ibapi::error::Error;
use ibapi::ser::Serializer;

fn de(bytes: &[u8]) -> Deserializer {
    Deserializer::new(bytes.to_vec())
}

#[test]
fn it_works() {}

#[test]
fn reads_tokens_in_order() {
    let mut d = de(b"1\0MKT\0\0");
    assert_eq!(d.read_token().unwrap(), b"1".to_vec());
    assert_eq!(d.read_token().unwrap(), b"MKT".to_vec());
    assert_eq!(d.read_token().unwrap(), b"".to_vec());
    assert!(matches!(d.read_token(), Err(Error::Truncated)));
}

#[test]
fn exhausted_stream_is_truncated() {
    let mut d = de(b"");
    assert!(matches!(d.read_i32(), Err(Error::Truncated)));
}

#[test]
fn unterminated_final_token_drops_last_byte() {
    // A stream that ends without a NUL loses its final byte, exactly as a
    // buffered read-until-delimiter followed by an unconditional pop does.
    let mut d = de(b"ab");
    assert_eq!(d.read_token().unwrap(), b"a".to_vec());
    assert!(matches!(d.read_token(), Err(Error::Truncated)));
}

#[test]
fn parses_integers_exactly() {
    let mut d = de(b"42\0-17\0007\0");
    assert_eq!(d.read_i32().unwrap(), 42);
    assert_eq!(d.read_i32().unwrap(), -17);
    // Leading zeros are accepted: the third token is 007.
    assert_eq!(d.read_i32().unwrap(), 7);
}

#[test]
fn rejects_malformed_integers() {
    let mut d = de(b"12a\0");
    assert!(matches!(d.read_i32(), Err(Error::Malformed { .. })));
    let mut d = de(b"\0");
    assert!(matches!(d.read_i32(), Err(Error::Malformed { .. })));
    let mut d = de(b"-\0");
    assert!(matches!(d.read_i32(), Err(Error::Malformed { .. })));
    // Out of the 32-bit range.
    let mut d = de(b"2147483648\0");
    assert!(matches!(d.read_i32(), Err(Error::Malformed { .. })));
}

#[test]
fn parses_integer_bounds() {
    let mut d = de(b"2147483647\0-2147483648\0");
    assert_eq!(d.read_i32().unwrap(), i32::MAX);
    assert_eq!(d.read_i32().unwrap(), i32::MIN);
    let mut d = de(b"9223372036854775807\0-9223372036854775808\0");
    assert_eq!(d.read_i64().unwrap(), i64::MAX);
    assert_eq!(d.read_i64().unwrap(), i64::MIN);
    let mut d = de(b"18446744073709551615\0");
    assert_eq!(d.read_u64().unwrap(), u64::MAX);
    let mut d = de(b"18446744073709551616\0");
    assert!(d.read_u64().is_err());
}

#[test]
fn bool_is_nonzero_integer() {
    let mut d = de(b"0\0001\0-3\0");
    assert!(!d.read_bool().unwrap());
    assert!(d.read_bool().unwrap());
    assert!(d.read_bool().unwrap());
    let mut d = de(b"yes\0");
    assert!(d.read_bool().is_err());
}

#[test]
fn reads_utf8_text() {
    let mut d = de("caf\u{e9}\0".as_bytes());
    assert_eq!(d.read_text().unwrap(), "caf\u{e9}");
}

#[test]
fn rejects_invalid_utf8_text() {
    let mut d = de(b"\xff\xfe\0");
    assert!(matches!(d.read_text(), Err(Error::Malformed { .. })));
}

#[test]
fn optional_i32_sentinel_reads_as_absent() {
    // Sentinel fidelity, decode side: the literal 2147483647 is absent, any
    // other integer token is present with its value.
    let mut d = de(b"2147483647\0");
    assert_eq!(d.read_opt_i32().unwrap(), None);
    let mut d = de(b"2147483646\0");
    assert_eq!(d.read_opt_i32().unwrap(), Some(2147483646));
    let mut d = de(b"0\0");
    assert_eq!(d.read_opt_i32().unwrap(), Some(0));
}

#[test]
fn optional_i32_absent_encodes_as_sentinel() {
    // Sentinel fidelity, encode side: absent becomes the literal token.
    let mut s = Serializer::new();
    s.write_opt_i32(&None);
    assert_eq!(s.into_bytes(), b"2147483647\0".to_vec());
    let mut s = Serializer::new();
    s.write_opt_i32(&Some(12));
    assert_eq!(s.into_bytes(), b"12\0".to_vec());
}

#[test]
fn optional_i64_uses_its_own_sentinel() {
    let mut s = Serializer::new();
    s.write_opt_i64(&None);
    assert_eq!(s.into_bytes(), b"9223372036854775807\0".to_vec());
    let mut d = de(b"9223372036854775807\0");
    assert_eq!(d.read_opt_i64().unwrap(), None);
    // The 64-bit sentinel is not the 32-bit one: as an optional 32-bit field
    // it is out of range, hence malformed rather than absent.
    let mut d = de(b"9223372036854775807\0");
    assert!(d.read_opt_i32().is_err());
}

#[test]
fn optional_text_uses_empty_sentinel() {
    let mut s = Serializer::new();
    s.write_opt_text(&None);
    assert_eq!(s.into_bytes(), b"\0".to_vec());
    let mut d = de(b"\0");
    assert_eq!(d.read_opt_text().unwrap(), None);
    let mut d = de(b"abc\0");
    assert_eq!(d.read_opt_text().unwrap(), Some(String::from("abc")));
}

#[test]
fn optional_double_uses_double_max_sentinel() {
    let mut s = Serializer::new();
    s.write_opt_dbl(&None);
    assert_eq!(s.into_bytes(), b"1.7976931348623157E308\0".to_vec());
    let mut d = de(b"1.7976931348623157E308\0");
    assert_eq!(d.read_opt_dbl().unwrap(), None);
    let mut d = de(b"0.25\0");
    assert_eq!(d.read_opt_dbl().unwrap(), Some(String::from("0.25")));
}

#[test]
fn peek_does_not_consume() {
    let mut d = de(b"61\0next\0");
    assert_eq!(d.peek().unwrap(), b"61".to_vec());
    // The peeked token is read again, not skipped.
    assert_eq!(d.read_token().unwrap(), b"61".to_vec());
    assert_eq!(d.read_token().unwrap(), b"next".to_vec());
}

#[test]
fn discard_peek_consumes_exactly_one_token() {
    let mut d = de(b"first\0second\0");
    assert_eq!(d.peek().unwrap(), b"first".to_vec());
    d.discard_peek();
    assert_eq!(d.read_token().unwrap(), b"second".to_vec());
}

#[test]
fn scalar_round_trips_hold_on_samples() {
    // decode(encode(v)) == v across the scalar codecs.
    let mut s = Serializer::new();
    s.write_i32(-123);
    s.write_i64(9000000000);
    s.write_u64(77);
    s.write_bool(true);
    s.write_bool(false);
    s.write_str(&String::from("hello world"));
    s.write_opt_i32(&Some(5));
    s.write_opt_i32(&None);
    let bytes = s.into_bytes();
    let mut d = Deserializer::new(bytes);
    assert_eq!(d.read_i32().unwrap(), -123);
    assert_eq!(d.read_i64().unwrap(), 9000000000);
    assert_eq!(d.read_u64().unwrap(), 77);
    assert!(d.read_bool().unwrap());
    assert!(!d.read_bool().unwrap());
    assert_eq!(d.read_text().unwrap(), "hello world");
    assert_eq!(d.read_opt_i32().unwrap(), Some(5));
    assert_eq!(d.read_opt_i32().unwrap(), None);
    assert!(matches!(d.read_token(), Err(Error::Truncated)));
}

#[test]
fn error_messages_name_the_failure() {
    assert_eq!(Error::Truncated.message(), "stream truncated mid-message");
    let mut d = de(b"x\0");
    match d.read_i32() {
        Err(e @ Error::Malformed { .. }) => {
            assert!(e.message().starts_with("malformed token"));
        }
        other => panic!("expected a malformed error, got {:?}", other.is_ok()),
    }
}
