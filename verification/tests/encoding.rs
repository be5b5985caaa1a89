use kvstore::encoding::{decode, encode};
use kvstore::store::{from_text, json_to_text, json_to_value, text_to_json, to_text};
use kvstore::Error;

fn json_error() -> serde_json::Error {
    serde_json::from_slice::<i64>(b"not json").unwrap_err()
}

#[test]
fn encode_writes_two_lowercase_digits_a_byte() {
    assert_eq!(encode(&[1, 2, 3, 15, 16]), "0102030f10");
    assert_eq!(encode(&[0x00, 0x9a, 0xff, 0xab]), "009affab");
    assert_eq!(encode(b"Hello world!"), "48656c6c6f20776f726c6421");
}

#[test]
fn encode_of_nothing_is_empty() {
    assert_eq!(encode(&[]), "");
}

#[test]
fn decode_reads_both_cases() {
    assert_eq!(decode("0102030f10").unwrap(), vec![1, 2, 3, 15, 16]);
    assert_eq!(decode("0102030F10").unwrap(), vec![1, 2, 3, 15, 16]);
    assert_eq!(decode("f9B4Ca").unwrap(), vec![0xf9, 0xb4, 0xca]);
    assert_eq!(decode("").unwrap(), Vec::<u8>::new());
}

#[test]
fn decode_refuses_an_odd_number_of_digits() {
    assert!(matches!(decode("123"), Err(Error::Hex(hex::FromHexError::OddLength))));
}

#[test]
fn decode_refuses_what_is_no_digit() {
    assert!(matches!(
        decode("12g4"),
        Err(Error::Hex(hex::FromHexError::InvalidHexCharacter { c: 'g', index: 2 }))
    ));
    assert!(matches!(decode("0x12"), Err(Error::Hex(_))));
    assert!(matches!(decode("12 4"), Err(Error::Hex(_))));
}

#[test]
fn decode_refuses_text_outside_ascii() {
    assert!(matches!(decode("é"), Err(Error::Hex(_))));
    assert!(matches!(decode("1é2"), Err(Error::Hex(_))));
    assert!(matches!(decode("１２"), Err(Error::Hex(_))));
}

#[test]
fn every_byte_reads_back() {
    let all: Vec<u8> = (0..=255).collect();
    let text = encode(&all);
    assert_eq!(text.len(), 512);
    assert!(text.bytes().all(|b| b.is_ascii_digit() || (b'a'..=b'f').contains(&b)));
    assert_eq!(decode(&text).unwrap(), all);
}

#[test]
fn different_bytes_have_different_text() {
    assert_ne!(encode(&[0x01, 0x10]), encode(&[0x10, 0x01]));
    assert_ne!(encode(&[0x00]), encode(&[]));
    assert_ne!(encode(&[0x0a]), encode(&[0xa0]));
}

#[test]
fn json_to_text_encodes_the_bytes() {
    assert_eq!(json_to_text(Ok(b"42".to_vec())).unwrap(), "3432");
    assert_eq!(json_to_text(Ok(b"\"count\"".to_vec())).unwrap(), "22636f756e7422");
}

#[test]
fn json_to_text_passes_the_failure_on() {
    let expected = json_error().to_string();
    match json_to_text(Err(json_error())) {
        Err(Error::SerdeJson(e)) => assert_eq!(e.to_string(), expected),
        other => panic!("unexpected: {:?}", other),
    }
}

#[test]
fn to_text_is_the_json_in_hex() {
    assert_eq!(to_text(&42i64).unwrap(), "3432");
    assert_eq!(to_text(&"count".to_string()).unwrap(), "22636f756e7422");
    assert_eq!(to_text(&true).unwrap(), "74727565");
    assert_eq!(to_text(&18446744073709551615u64).unwrap(), "3138343436373434303733373039353531363135");
}

#[test]
fn text_to_json_of_no_row_is_no_value() {
    assert!(matches!(text_to_json(None), Ok(None)));
}

#[test]
fn text_to_json_reads_the_bytes() {
    assert_eq!(text_to_json(Some("3432".to_string())).unwrap(), Some(b"42".to_vec()));
    assert_eq!(text_to_json(Some(String::new())).unwrap(), Some(Vec::new()));
}

#[test]
fn text_to_json_refuses_other_text() {
    assert!(matches!(text_to_json(Some("42!".to_string())), Err(Error::Hex(_))));
    assert!(matches!(text_to_json(Some("hello".to_string())), Err(Error::Hex(_))));
}

#[test]
fn json_to_value_keeps_the_value() {
    assert_eq!(json_to_value(Ok(7i64)).unwrap(), Some(7));
    assert_eq!(json_to_value(Ok("x".to_string())).unwrap(), Some("x".to_string()));
}

#[test]
fn json_to_value_passes_the_failure_on() {
    let expected = json_error().to_string();
    match json_to_value::<i64>(Err(json_error())) {
        Err(Error::SerdeJson(e)) => assert_eq!(e.to_string(), expected),
        other => panic!("unexpected: {:?}", other),
    }
}

#[test]
fn from_text_reads_a_value_of_the_right_shape() {
    assert_eq!(from_text::<i64>(Some("3432".to_string())).unwrap(), Some(42));
    assert_eq!(from_text::<String>(Some("22636f756e7422".to_string())).unwrap(), Some("count".to_string()));
    assert_eq!(from_text::<bool>(Some("66616C7365".to_string())).unwrap(), Some(false));
}

#[test]
fn from_text_of_no_row_is_no_value() {
    assert_eq!(from_text::<i64>(None).unwrap(), None);
    assert_eq!(from_text::<String>(None).unwrap(), None);
}

#[test]
fn from_text_refuses_the_wrong_shape() {
    assert!(matches!(from_text::<String>(Some("3432".to_string())), Err(Error::SerdeJson(_))));
    assert!(matches!(from_text::<i64>(Some("22636f756e7422".to_string())), Err(Error::SerdeJson(_))));
    assert!(matches!(from_text::<u64>(Some(encode(b"-1"))), Err(Error::SerdeJson(_))));
    assert!(matches!(from_text::<i64>(Some(String::new())), Err(Error::SerdeJson(_))));
}

#[test]
fn from_text_refuses_other_text() {
    assert!(matches!(from_text::<i64>(Some("34 32".to_string())), Err(Error::Hex(_))));
    assert!(matches!(from_text::<i64>(Some("343".to_string())), Err(Error::Hex(_))));
}

#[test]
fn error_from_each_source() {
    assert!(matches!(Error::from(hex::FromHexError::OddLength), Error::Hex(hex::FromHexError::OddLength)));
    assert!(matches!(
        Error::from(rusqlite::Error::QueryReturnedNoRows),
        Error::Rusqlite(rusqlite::Error::QueryReturnedNoRows)
    ));
    let expected = json_error().to_string();
    match Error::from(json_error()) {
        Error::SerdeJson(e) => assert_eq!(e.to_string(), expected),
        other => panic!("unexpected: {:?}", other),
    }
}
