//! The one outside computation the library leans on: deriving an account
//! hash from a hex-encoded public key.

use vstd::prelude::*;

use casper_types::AsymmetricType;

verus! {

/// The account hash derived from a hex-encoded public key, when the text
/// parses as one.  Parsing and hashing are fixed functions of the text
/// alone, so the whole derivation gets a single name.
pub uninterp spec fn spec_public_key_account_hash(s: Seq<char>) -> Option<Seq<u8>>;

/// Relies on `casper_types::PublicKey::from_hex`, which deterministically
/// parses a tag-prefixed hex public key or rejects the text, and on
/// `casper_types::PublicKey::to_account_hash`, which derives a 32-byte
/// digest depending on the parsed key alone.
#[verifier::external_body]
pub(crate) fn account_hash_from_public_key_hex(hex_public_key: &str) -> (r: Result<Vec<u8>, String>)
    ensures
        match r {
            Ok(bytes) => spec_public_key_account_hash(hex_public_key@) == Some(bytes@) && bytes@.len()
                == 32,
            Err(_) => spec_public_key_account_hash(hex_public_key@) is None,
        },
{
    match casper_types::PublicKey::from_hex(hex_public_key) {
        Ok(public_key) => Ok(public_key.to_account_hash().value().to_vec()),
        Err(error) => Err(error.to_string()),
    }
}

} // verus!
