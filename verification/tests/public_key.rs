//! Tests for the public-key-to-account-hash derivation, cross-checked
//! against the cryptographic identity library it relies on.

use casper_multisig_tool::errors::Error;
use casper_multisig_tool::get_account_hash_from_hex_encoded_public_key;
use casper_types::AsymmetricType;

// A valid ed25519 public key, with the `01` algorithm tag prefix.
const ED25519_PUBLIC_KEY_HEX: &str =
    "01d75a980182b10ab7d54bfed3c964073a0ee172f3daa62325af021a68f707511a";

#[test]
fn derives_a_formatted_account_hash() {
    let result = get_account_hash_from_hex_encoded_public_key(ED25519_PUBLIC_KEY_HEX).unwrap();
    assert!(result.starts_with("account-hash-"));
    assert_eq!(result.len(), "account-hash-".len() + 64);
    // The derivation is a digest, not an echo of the input.
    assert!(!result.contains(&ED25519_PUBLIC_KEY_HEX["01".len()..]));
}

#[test]
fn matches_the_identity_library_derivation() {
    let ours = get_account_hash_from_hex_encoded_public_key(ED25519_PUBLIC_KEY_HEX).unwrap();
    let theirs = casper_types::PublicKey::from_hex(ED25519_PUBLIC_KEY_HEX)
        .unwrap()
        .to_account_hash()
        .to_formatted_string();
    assert!(ours.eq_ignore_ascii_case(&theirs));
}

#[test]
fn repeated_derivation_is_stable() {
    let first = get_account_hash_from_hex_encoded_public_key(ED25519_PUBLIC_KEY_HEX).unwrap();
    let second = get_account_hash_from_hex_encoded_public_key(ED25519_PUBLIC_KEY_HEX).unwrap();
    assert_eq!(first, second);
}

#[test]
fn rejects_text_that_is_not_a_public_key() {
    let err = get_account_hash_from_hex_encoded_public_key("zz").unwrap_err();
    assert!(matches!(err, Error::ParseHexPublicKey { .. }));
    assert!(err
        .message()
        .starts_with("failed to parse as a hex-encoded public key: "));
}

#[test]
fn error_messages_name_their_cause() {
    let err = casper_multisig_tool::errors::make_parse_file_error("some/file", "oops".to_string());
    assert_eq!(err.message(), "failed to parse some/file as a public key: oops");

    let bare = Error::ParsePublicKeyFile { file: "some/file".to_string(), inner: None };
    assert_eq!(bare.message(), "failed to parse some/file as a public key");
}
