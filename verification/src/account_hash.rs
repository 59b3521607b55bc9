//! The account identity model: a 32-byte account hash with a canonical
//! formatted-string representation, `account-hash-` followed by 64 hex digits.
//!
//! Formatting always emits lowercase hex; parsing accepts hex digits in either
//! case, so distinct spellings of the same bytes parse to equal identities.

use vstd::prelude::*;

use crate::text::{
    append_hex_bytes, spec_hex_bytes, spec_hex_char, spec_hex_val, spec_is_hex_digit,
};

verus! {

/// The length in bytes of an account hash.
pub const ACCOUNT_HASH_LENGTH: usize = 32;

/// A 32-byte account identifier.
#[derive(Clone, Debug, PartialEq, Eq)]
pub struct AccountHash {
    /// The raw bytes of the hash; always exactly 32 of them.
    pub bytes: Vec<u8>,
}

impl AccountHash {
    /// The type's validity: exactly 32 bytes.
    pub open spec fn wf(self) -> bool {
        self.bytes@.len() == ACCOUNT_HASH_LENGTH
    }

    /// Constructs an account hash from its raw bytes.
    pub fn new(bytes: Vec<u8>) -> (r: AccountHash)
        requires
            bytes@.len() == ACCOUNT_HASH_LENGTH,
        ensures
            r.wf(),
            r.bytes@ == bytes@,
    {
        AccountHash { bytes }
    }

    /// Formats the account hash as `account-hash-` followed by the lowercase
    /// hex encoding of its bytes.
    pub fn to_formatted_string(&self) -> (r: String)
        requires
            self.wf(),
        ensures
            r@ =~= spec_formatted_account_hash(self.bytes@),
    {
        let mut s = String::from_str("account-hash-");
        append_hex_bytes(&mut s, &self.bytes);
        s
    }

    /// Parses a string formatted as per [`Self::to_formatted_string`], with
    /// hex digits accepted in either case.  On failure the returned message
    /// names the first kind of defect found: prefix, then length, then digits.
    pub fn from_formatted_str(input: &str) -> (r: Result<AccountHash, String>)
        ensures
            match r {
                Ok(h) => spec_is_valid_formatted(input@) && h.wf() && h.bytes@
                    == spec_parsed_bytes(input@),
                Err(m) => !spec_is_valid_formatted(input@) && m@ == spec_parse_error_msg(input@),
            },
    {
        let prefix = "account-hash-";
        proof {
            reveal_strlit("account-hash-");
        }
        let len = input.unicode_len();
        if len < 13 {
            return Err(String::from_str("invalid prefix"));
        }
        let mut i: usize = 0;
        while i < 13
            invariant
                i <= 13,
                13 <= input@.len(),
                prefix@ == "account-hash-"@,
                prefix@.len() == 13,
                forall|k: int| 0 <= k < i ==> input@[k] == prefix@[k],
            decreases 13 - i,
        {
            if input.get_char(i) != prefix.get_char(i) {
                proof {
                    assert(input@.take(13)[i as int] != "account-hash-"@[i as int]);
                }
                return Err(String::from_str("invalid prefix"));
            }
            i = i + 1;
        }
        proof {
            assert(input@.take(13) =~= "account-hash-"@);
        }
        if len != 77 {
            return Err(String::from_str("invalid length"));
        }
        let mut j: usize = 13;
        while j < 77
            invariant
                13 <= j <= 77,
                input@.len() == 77,
                spec_has_prefix(input@),
                forall|k: int| 13 <= k < j ==> spec_is_hex_digit(input@[k]),
            decreases 77 - j,
        {
            if !is_hex_digit(input.get_char(j)) {
                return Err(String::from_str("invalid hex character"));
            }
            j = j + 1;
        }
        let mut bytes: Vec<u8> = Vec::new();
        let mut k: usize = 0;
        while k < 32
            invariant
                k <= 32,
                input@.len() == 77,
                forall|t: int| 13 <= t < 77 ==> spec_is_hex_digit(input@[t]),
                bytes@.len() == k,
                forall|t: int| 0 <= t < k ==> bytes@[t] == spec_parsed_bytes(input@)[t],
            decreases 32 - k,
        {
            let hi = hex_val(input.get_char(13 + 2 * k));
            let lo = hex_val(input.get_char(13 + 2 * k + 1));
            bytes.push(16 * hi + lo);
            k = k + 1;
        }
        proof {
            assert(bytes@ =~= spec_parsed_bytes(input@));
        }
        Ok(AccountHash { bytes })
    }
}

/// Whether a character is a hex digit in either case.
fn is_hex_digit(c: char) -> (r: bool)
    ensures
        r == spec_is_hex_digit(c),
{
    c == '0' || c == '1' || c == '2' || c == '3' || c == '4' || c == '5' || c == '6' || c == '7'
        || c == '8' || c == '9' || c == 'a' || c == 'b' || c == 'c' || c == 'd' || c == 'e'
        || c == 'f' || c == 'A' || c == 'B' || c == 'C' || c == 'D' || c == 'E' || c == 'F'
}

/// The numeric value of a hex digit character; 0 for any other character.
fn hex_val(c: char) -> (r: u8)
    ensures
        r == spec_hex_val(c),
        r < 16,
{
    if c == '0' {
        0
    } else if c == '1' {
        1
    } else if c == '2' {
        2
    } else if c == '3' {
        3
    } else if c == '4' {
        4
    } else if c == '5' {
        5
    } else if c == '6' {
        6
    } else if c == '7' {
        7
    } else if c == '8' {
        8
    } else if c == '9' {
        9
    } else if c == 'a' || c == 'A' {
        10
    } else if c == 'b' || c == 'B' {
        11
    } else if c == 'c' || c == 'C' {
        12
    } else if c == 'd' || c == 'D' {
        13
    } else if c == 'e' || c == 'E' {
        14
    } else if c == 'f' || c == 'F' {
        15
    } else {
        0
    }
}

/// The canonical formatted representation of 32 raw bytes.
pub open spec fn spec_formatted_account_hash(bs: Seq<u8>) -> Seq<char> {
    "account-hash-"@ + spec_hex_bytes(bs)
}

/// Whether the prefix of a formatted account hash is present.
pub open spec fn spec_has_prefix(s: Seq<char>) -> bool {
    s.len() >= 13 && s.take(13) == "account-hash-"@
}

/// Whether a string is an acceptable formatted account hash: the prefix,
/// then exactly 64 hex digits in either case.
pub open spec fn spec_is_valid_formatted(s: Seq<char>) -> bool {
    &&& s.len() == 77
    &&& spec_has_prefix(s)
    &&& forall|i: int| 13 <= i < 77 ==> spec_is_hex_digit(s[i])
}

/// The bytes denoted by a valid formatted account hash.
pub open spec fn spec_parsed_bytes(s: Seq<char>) -> Seq<u8> {
    Seq::new(32, |i: int| (16 * spec_hex_val(s[13 + 2 * i]) + spec_hex_val(s[13 + 2 * i + 1])) as u8)
}

/// The message reported for an invalid formatted account hash.
pub open spec fn spec_parse_error_msg(s: Seq<char>) -> Seq<char> {
    if !spec_has_prefix(s) {
        "invalid prefix"@
    } else if s.len() != 77 {
        "invalid length"@
    } else {
        "invalid hex character"@
    }
}

/// The hex encoding of any byte sequence has twice as many characters.
pub proof fn lemma_hex_bytes_len(bs: Seq<u8>)
    ensures
        spec_hex_bytes(bs).len() == 2 * bs.len(),
    decreases bs.len(),
{
    if bs.len() > 0 {
        lemma_hex_bytes_len(bs.drop_last());
    }
}

/// Each byte appears in the hex encoding as its two nibble characters.
pub proof fn lemma_hex_bytes_index(bs: Seq<u8>, i: int)
    requires
        0 <= i < bs.len(),
    ensures
        spec_hex_bytes(bs)[2 * i] == spec_hex_char(bs[i] / 16),
        spec_hex_bytes(bs)[2 * i + 1] == spec_hex_char(bs[i] % 16),
    decreases bs.len(),
{
    lemma_hex_bytes_len(bs.drop_last());
    if i < bs.len() - 1 {
        lemma_hex_bytes_index(bs.drop_last(), i);
    }
}

/// A lowercase hex digit character produced from a value below 16 is a hex
/// digit and decodes back to that value.
pub proof fn lemma_hex_char_roundtrip(n: u8)
    requires
        n < 16,
    ensures
        spec_is_hex_digit(spec_hex_char(n)),
        spec_hex_val(spec_hex_char(n)) == n,
{
}

/// Round trip: every 32-byte identity, once formatted, is accepted by the
/// parser and parses back to exactly the same bytes.
pub proof fn lemma_parse_format_roundtrip(bs: Seq<u8>)
    requires
        bs.len() == 32,
    ensures
        spec_is_valid_formatted(spec_formatted_account_hash(bs)),
        spec_parsed_bytes(spec_formatted_account_hash(bs)) == bs,
{
    reveal_strlit("account-hash-");
    let s = spec_formatted_account_hash(bs);
    lemma_hex_bytes_len(bs);
    assert(s.len() == 77);
    assert(s.take(13) =~= "account-hash-"@);
    assert forall|i: int| 13 <= i < 77 implies spec_is_hex_digit(s[i]) by {
        let k = (i - 13) / 2;
        lemma_hex_bytes_index(bs, k);
        lemma_hex_char_roundtrip(bs[k] / 16);
        lemma_hex_char_roundtrip(bs[k] % 16);
        if (i - 13) % 2 == 0 {
            assert(i == 13 + 2 * k);
            assert(s[i] == spec_hex_char(bs[k] / 16));
        } else {
            assert(i == 13 + 2 * k + 1);
            assert(s[i] == spec_hex_char(bs[k] % 16));
        }
    }
    assert forall|k: int| 0 <= k < 32 implies spec_parsed_bytes(s)[k] == bs[k] by {
        lemma_hex_bytes_index(bs, k);
        lemma_hex_char_roundtrip(bs[k] / 16);
        lemma_hex_char_roundtrip(bs[k] % 16);
        assert(s[13 + 2 * k] == spec_hex_char(bs[k] / 16));
        assert(s[13 + 2 * k + 1] == spec_hex_char(bs[k] % 16));
        assert(16 * (bs[k] / 16) + bs[k] % 16 == bs[k]);
    }
    assert(spec_parsed_bytes(s) =~= bs);
}

} // verus!
