use secure_docs::checksum::{checksum, to_hex};
use secure_docs::codec::{decode, encode};
use secure_docs::config::{ConfigIssue, ServiceConfig};
use secure_docs::error::{DecodeIssue, ProcessError};

#[test]
fn encode_hello_is_padded_base64() {
    assert_eq!(encode(b"hello"), "aGVsbG8=");
    assert_eq!(encode(b""), "");
    assert_eq!(encode(&[0xffu8, 0xfe]), "//4=");
}

#[test]
fn decode_round_trips_encode() {
    let data: Vec<u8> = (0u32..300).map(|i| (i * 37 % 256) as u8).collect();
    let text = encode(&data);
    assert_eq!(decode(&text, 1000), Ok(data));
}

#[test]
fn decode_rejects_bad_alphabet_and_padding() {
    assert_eq!(decode("!!!!", 100), Err(DecodeIssue::Malformed));
    assert_eq!(decode("aGVsbG8", 100), Err(DecodeIssue::Malformed));
    assert_eq!(decode("aGVsbG8=\n", 100), Err(DecodeIssue::Malformed));
}

#[test]
fn decode_rejects_oversize_payload() {
    let text = encode(b"hello");
    assert_eq!(decode(&text, 4), Err(DecodeIssue::TooLarge));
    assert_eq!(decode(&text, 5), Ok(b"hello".to_vec()));
    // a long text is refused before decoding, even when malformed
    assert_eq!(decode("!!!!!!!!!!!!!!!!", 3), Err(DecodeIssue::TooLarge));
}

#[test]
fn checksum_is_sha256_hex() {
    assert_eq!(checksum(b"hello"), "2cf24dba5fb0a30e26e83b2ac5b9e29e1b161e5c1fa7425e73043362938b9824");
    assert_eq!(checksum(b""), "e3b0c44298fc1c149afbf4c8996fb92427ae41e4649b934ca495991b7852b855");
}

#[test]
fn checksum_is_stable_and_detects_a_changed_byte() {
    let a = b"the quick brown fox".to_vec();
    let mut b = a.clone();
    assert_eq!(checksum(&a), checksum(&b));
    b[4] ^= 0x01;
    assert_ne!(checksum(&a), checksum(&b));
    assert_eq!(checksum(&a).len(), 64);
}

#[test]
fn hex_is_lowercase_two_digits_per_byte() {
    assert_eq!(to_hex(&[0x00, 0xff, 0x1a, 0x09]), "00ff1a09");
    assert_eq!(to_hex(&[]), "");
}

#[test]
fn config_checks_key_and_limit() {
    assert!(matches!(ServiceConfig::new(vec![1u8; 31], 100), Err(ConfigIssue::BadKey)));
    assert!(matches!(ServiceConfig::new(vec![1u8; 32], 2_000_000_000), Err(ConfigIssue::BadLimit)));
    let c = ServiceConfig::new(vec![1u8; 32], 100).ok().unwrap();
    assert_eq!(c.max_payload_bytes(), 100);
    let k = encode(&[9u8; 32]);
    assert!(ServiceConfig::from_encoded_key(&k, 10).is_ok());
    assert!(matches!(ServiceConfig::from_encoded_key("not base64", 10), Err(ConfigIssue::BadKey)));
    assert!(matches!(ServiceConfig::from_encoded_key(&encode(&[9u8; 16]), 10), Err(ConfigIssue::BadKey)));
}

#[test]
fn error_messages_name_the_kind() {
    assert_eq!(ProcessError::Authentication.message(), "Authentication error: decryption failed");
    assert!(ProcessError::Decode(DecodeIssue::TooLarge).message().starts_with("Decode error"));
    assert!(ProcessError::Encryption.message().starts_with("Encryption error"));
    assert!(ProcessError::Scan.message().starts_with("Scan error"));
}
