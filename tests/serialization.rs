use keylime_agent::error::Error;
use keylime_agent::numbers::{decimal, parse_u64};
use keylime_agent::serialization::{
    deserialize_as_base64, deserialize_maybe_base64, serialize_as_base64, serialize_maybe_base64,
};

#[test]
fn base64_encodes_with_padding() {
    assert_eq!(serialize_as_base64(b"hello"), "aGVsbG8=");
    assert_eq!(serialize_as_base64(b""), "");
    assert_eq!(serialize_as_base64(b"hell").len(), 8);
    let bytes: Vec<u8> = (0..=255).collect();
    assert_eq!(deserialize_as_base64(&serialize_as_base64(&bytes)).unwrap(), bytes);
}

#[test]
fn base64_decodes() {
    assert_eq!(deserialize_as_base64("aGVsbG8=").unwrap(), b"hello".to_vec());
    assert!(matches!(deserialize_as_base64("a!b"), Err(Error::Serialization(_))));
}

#[test]
fn optional_base64_both_ways() {
    assert_eq!(serialize_maybe_base64(&None), None);
    assert_eq!(serialize_maybe_base64(&Some(vec![1, 2, 3])), Some("AQID".to_string()));
    assert_eq!(deserialize_maybe_base64(None).unwrap(), None);
    assert_eq!(deserialize_maybe_base64(Some("AQID")).unwrap(), Some(vec![1, 2, 3]));
    assert!(deserialize_maybe_base64(Some("@@")).is_err());
}

#[test]
fn decimal_text() {
    assert_eq!(decimal(0), "0");
    assert_eq!(decimal(64), "64");
    assert_eq!(decimal(u64::MAX), "18446744073709551615");
}

#[test]
fn parse_like_std() {
    assert_eq!(parse_u64("42"), Some(42));
    assert_eq!(parse_u64("+7"), Some(7));
    assert_eq!(parse_u64("+"), None);
    assert_eq!(parse_u64(""), None);
    assert_eq!(parse_u64("-1"), None);
    assert_eq!(parse_u64("18446744073709551616"), None);
    assert_eq!(parse_u64("007"), Some(7));
}
