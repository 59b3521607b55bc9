//! Tests for the identity codec: parsing, formatting, and their round trip.

use casper_multisig_tool::account_hash::AccountHash;
use casper_multisig_tool::errors::Error;
use casper_multisig_tool::validate_account_hash;

fn formatted(two_hex_chars: &str) -> String {
    format!("account-hash-{}", two_hex_chars.repeat(32))
}

#[test]
fn parse_accepts_lowercase() {
    let hash = AccountHash::from_formatted_str(&formatted("ab")).unwrap();
    assert_eq!(hash.bytes, vec![0xab_u8; 32]);
}

#[test]
fn parse_accepts_uppercase_and_mixed_case() {
    let upper = AccountHash::from_formatted_str(&formatted("AB")).unwrap();
    let mixed = AccountHash::from_formatted_str(&formatted("aB")).unwrap();
    assert_eq!(upper.bytes, vec![0xab_u8; 32]);
    assert_eq!(mixed.bytes, vec![0xab_u8; 32]);
}

#[test]
fn format_emits_lowercase() {
    let hash = AccountHash::new(vec![0xAB_u8; 32]);
    assert_eq!(hash.to_formatted_string(), formatted("ab"));
}

#[test]
fn parse_format_roundtrip() {
    let mut bytes: Vec<u8> = Vec::new();
    for i in 0..32 {
        bytes.push((i * 7 + 3) as u8);
    }
    let original = AccountHash::new(bytes.clone());
    let reparsed = AccountHash::from_formatted_str(&original.to_formatted_string()).unwrap();
    assert_eq!(reparsed.bytes, bytes);
    assert_eq!(reparsed.to_formatted_string(), original.to_formatted_string());
}

#[test]
fn roundtrip_canonicalizes_case() {
    let hash = AccountHash::from_formatted_str(&formatted("CD")).unwrap();
    assert_eq!(hash.to_formatted_string(), formatted("cd"));
    let again = AccountHash::from_formatted_str(&hash.to_formatted_string()).unwrap();
    assert_eq!(again.bytes, hash.bytes);
}

#[test]
fn parse_rejects_missing_prefix() {
    let err = AccountHash::from_formatted_str(&"ab".repeat(32)).unwrap_err();
    assert_eq!(err, "invalid prefix");
}

#[test]
fn parse_rejects_wrong_length() {
    let err = AccountHash::from_formatted_str("account-hash-abcd").unwrap_err();
    assert_eq!(err, "invalid length");
}

#[test]
fn parse_rejects_non_hex_characters() {
    let input = format!("account-hash-{}zz", "ab".repeat(31));
    let err = AccountHash::from_formatted_str(&input).unwrap_err();
    assert_eq!(err, "invalid hex character");
}

#[test]
fn validate_account_hash_accepts_valid() {
    assert!(validate_account_hash(&formatted("0f")).is_ok());
}

#[test]
fn validate_account_hash_rejects_invalid() {
    let err = validate_account_hash("nonsense").unwrap_err();
    assert!(matches!(err, Error::ParseAccountHash { .. }));
    assert_eq!(
        err.message(),
        "failed to parse as a formatted account hash: invalid prefix"
    );
}
