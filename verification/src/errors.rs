//! The error type reported by the configuration-setting operations.

use vstd::prelude::*;

verus! {

/// Everything that can go wrong while validating a key configuration.
#[derive(Debug)]
pub enum Error {
    /// A key file could not be parsed as a public key.
    ParsePublicKeyFile { file: String, inner: Option<String> },
    /// A hex string could not be parsed as a public key.
    ParseHexPublicKey { inner: String },
    /// A string could not be parsed as a formatted account hash.
    ParseAccountHash { inner: String },
    /// An empty key list was submitted.
    NoKeys,
}

/// The user-visible message for each error.
pub open spec fn spec_error_message(e: Error) -> Seq<char> {
    match e {
        Error::ParsePublicKeyFile { file, inner } => {
            let head = "failed to parse "@ + file@ + " as a public key"@;
            match inner {
                Some(source) => head + ": "@ + source@,
                None => head,
            }
        },
        Error::ParseHexPublicKey { inner } => "failed to parse as a hex-encoded public key: "@
            + inner@,
        Error::ParseAccountHash { inner } => "failed to parse as a formatted account hash: "@
            + inner@,
        Error::NoKeys => "at least one key must be provided"@,
    }
}

impl Error {
    /// Renders the error as a single descriptive message.
    pub fn message(&self) -> (r: String)
        ensures
            r@ =~= spec_error_message(*self),
    {
        match self {
            Error::ParsePublicKeyFile { file, inner } => {
                let mut s = String::from_str("failed to parse ");
                s.append(file.as_str());
                s.append(" as a public key");
                match inner {
                    Some(source) => {
                        s.append(": ");
                        s.append(source.as_str());
                    },
                    None => {},
                }
                s
            },
            Error::ParseHexPublicKey { inner } => {
                let mut s = String::from_str("failed to parse as a hex-encoded public key: ");
                s.append(inner.as_str());
                s
            },
            Error::ParseAccountHash { inner } => {
                let mut s = String::from_str("failed to parse as a formatted account hash: ");
                s.append(inner.as_str());
                s
            },
            Error::NoKeys => String::from_str("at least one key must be provided"),
        }
    }
}

/// Wraps a file path and an underlying parser message into the error
/// reported for an unreadable public-key file.
pub fn make_parse_file_error(path: &str, error: String) -> (r: Error)
    ensures
        r matches Error::ParsePublicKeyFile { file, inner } && file@ == path@ && (inner
            matches Some(m) && m@ == error@),
{
    Error::ParsePublicKeyFile { file: path.to_owned(), inner: Some(error) }
}

} // verus!
