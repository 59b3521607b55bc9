//! The source renderer: a pure function from a validated session to the
//! program text of the account-configuration contract.
//!
//! The rendered text declares the primary key first, then one indexed
//! declaration per secondary key in input order, then the two threshold
//! constants; its body updates the primary key's weight, adds each secondary
//! key in order, sets both action thresholds, and only then — last of all —
//! removes the primary key if that was requested.  The late removal is
//! load-bearing: removing the primary key earlier could lock the account
//! out of enforcing the very thresholds being set.

use vstd::prelude::*;

use crate::account_hash::spec_formatted_account_hash;
use crate::smart_contract::{spec_remove_after_creation, AssociatedKey, SmartContract};
use crate::text::{append_dec_u64, append_hex_bytes, spec_dec};

verus! {

/// The fixed attributes and imports that open every rendered program.
pub open spec fn spec_preamble() -> Seq<char> {
    "#![cfg_attr(\n    not(target_arch = \"wasm32\"),\n    crate_type = \"target arch should be wasm32\"\n)]\n#![no_main]\n\nuse casper_contract::{contract_api::account, unwrap_or_revert::UnwrapOrRevert};\nuse casper_types::account::{AccountHash, ActionType, Weight};\n\n"@
}

/// The decimal list of a byte sequence, separated by comma and space.
pub open spec fn spec_byte_list(bs: Seq<u8>) -> Seq<char>
    decreases bs.len(),
{
    if bs.len() == 0 {
        Seq::empty()
    } else if bs.len() == 1 {
        spec_dec(bs[0] as nat)
    } else {
        spec_byte_list(bs.drop_last()) + ", "@ + spec_dec(bs.last() as nat)
    }
}

/// A byte sequence rendered as a bracketed decimal array literal.
pub open spec fn spec_byte_array(bs: Seq<u8>) -> Seq<char> {
    "["@ + spec_byte_list(bs) + "]"@
}

/// The declaration block for the primary key: its formatted hash as a
/// comment, then its raw bytes and weight as named constants.
pub open spec fn spec_primary_block(k: AssociatedKey) -> Seq<char> {
    "// "@ + spec_formatted_account_hash(k.account_hash.bytes@)
        + "\n#[rustfmt::skip]\nconst MAIN_ACCOUNT_HASH: AccountHash = AccountHash::new("@
        + spec_byte_array(k.account_hash.bytes@) + ");\nconst MAIN_ACCOUNT_WEIGHT: u8 = "@
        + spec_dec(k.weight as nat) + ";\n\n"@
}

/// The declaration block for the secondary key at position `i`.
pub open spec fn spec_secondary_block(k: AssociatedKey, i: int) -> Seq<char> {
    "// "@ + spec_formatted_account_hash(k.account_hash.bytes@)
        + "\n#[rustfmt::skip]\nconst ACCOUNT_"@ + spec_dec(i as nat)
        + "_HASH: AccountHash = AccountHash::new("@ + spec_byte_array(k.account_hash.bytes@)
        + ");\nconst ACCOUNT_"@ + spec_dec(i as nat) + "_WEIGHT: u8 = "@ + spec_dec(
        k.weight as nat,
    ) + ";\n\n"@
}

/// The declaration blocks of the first `n` keys after the primary one,
/// in input order.
pub open spec fn spec_secondary_blocks(keys: Seq<AssociatedKey>, n: int) -> Seq<char>
    decreases n,
{
    if n <= 1 {
        Seq::empty()
    } else {
        spec_secondary_blocks(keys, n - 1) + spec_secondary_block(keys[n - 1], n - 1)
    }
}

/// The two threshold constants.
pub open spec fn spec_threshold_consts(km: u8, dp: u8) -> Seq<char> {
    "const KEY_MANAGEMENT_WEIGHT: u8 = "@ + spec_dec(km as nat)
        + ";\nconst DEPLOYMENT_WEIGHT: u8 = "@ + spec_dec(dp as nat) + ";\n\n"@
}

/// The opening of the entry point, including the primary-weight update,
/// which always comes first in the body.
pub open spec fn spec_call_open() -> Seq<char> {
    "#[no_mangle]\npub extern \"C\" fn call() {\n    // Update the main account key's weight.\n    account::update_associated_key(MAIN_ACCOUNT_HASH, Weight::new(MAIN_ACCOUNT_WEIGHT))\n        .unwrap_or_revert();\n\n"@
}

/// The statement adding the secondary key at position `i`.
pub open spec fn spec_add_stmt(i: int) -> Seq<char> {
    "    // Add associated key "@ + spec_dec(i as nat) + ".\n    account::add_associated_key(ACCOUNT_"@
        + spec_dec(i as nat) + "_HASH, Weight::new(ACCOUNT_"@ + spec_dec(i as nat)
        + "_WEIGHT)).unwrap_or_revert();\n\n"@
}

/// The add statements for the first `n` keys after the primary one.
pub open spec fn spec_add_stmts(n: int) -> Seq<char>
    decreases n,
{
    if n <= 1 {
        Seq::empty()
    } else {
        spec_add_stmts(n - 1) + spec_add_stmt(n - 1)
    }
}

/// The two threshold-setting statements.
pub open spec fn spec_threshold_stmts() -> Seq<char> {
    "    // Set the action thresholds.\n    account::set_action_threshold(\n        ActionType::KeyManagement,\n        Weight::new(KEY_MANAGEMENT_WEIGHT),\n    )\n    .unwrap_or_revert();\n    account::set_action_threshold(ActionType::Deployment, Weight::new(DEPLOYMENT_WEIGHT))\n        .unwrap_or_revert();\n"@
}

/// The primary-removal statement, present only when requested.
pub open spec fn spec_removal(remove_primary: bool) -> Seq<char> {
    if remove_primary {
        "\n    // Remove the main account's key.\n    account::remove_associated_key(MAIN_ACCOUNT_HASH).unwrap_or_revert();\n"@
    } else {
        Seq::empty()
    }
}

/// The closing brace of the entry point.
pub open spec fn spec_closing() -> Seq<char> {
    "}\n"@
}

/// Everything declared before the entry point.
pub open spec fn spec_declarations(c: SmartContract) -> Seq<char> {
    spec_preamble() + spec_primary_block(c.associated_keys@[0]) + spec_secondary_blocks(
        c.associated_keys@,
        c.associated_keys@.len() as int,
    ) + spec_threshold_consts(c.key_management_weight, c.deployment_weight)
}

/// The entry point's body.
pub open spec fn spec_body(c: SmartContract) -> Seq<char> {
    spec_call_open() + spec_add_stmts(c.associated_keys@.len() as int) + spec_threshold_stmts()
        + spec_removal(spec_remove_after_creation(c.associated_keys@[0])) + spec_closing()
}

/// Whether a session is ready to render: some keys and non-zero thresholds.
pub open spec fn spec_ready(c: SmartContract) -> bool {
    c.associated_keys@.len() > 0 && c.key_management_weight != 0 && c.deployment_weight != 0
}

/// The rendered program source of a session, or the empty string for a
/// session that is not ready to render.
pub open spec fn spec_main_rs(c: SmartContract) -> Seq<char> {
    if !spec_ready(c) {
        Seq::empty()
    } else {
        spec_declarations(c) + spec_body(c)
    }
}

/// Appends a byte sequence as a bracketed decimal array literal.
fn append_byte_array(s: &mut String, bs: &Vec<u8>)
    ensures
        final(s)@ =~= old(s)@ + spec_byte_array(bs@),
{
    s.append("[");
    let mut i: usize = 0;
    while i < bs.len()
        invariant
            i <= bs.len(),
            s@ =~= old(s)@ + "["@ + spec_byte_list(bs@.take(i as int)),
        decreases bs.len() - i,
    {
        if i > 0 {
            s.append(", ");
        }
        append_dec_u64(s, bs[i] as u64);
        proof {
            assert(bs@.take(i + 1 as int).drop_last() =~= bs@.take(i as int));
            assert(bs@.take(i + 1 as int).last() == bs@[i as int]);
            assert(bs@.take(i + 1 as int).len() == i + 1);
        }
        i = i + 1;
    }
    proof {
        assert(bs@.take(bs@.len() as int) =~= bs@);
    }
    s.append("]");
}

impl SmartContract {
    /// Renders the program source for this session, or the empty string if
    /// the session has no keys or a zero threshold and so is not ready.
    pub fn main_rs_contents(&self) -> (r: String)
        requires
            self.wf(),
        ensures
            r@ =~= spec_main_rs(*self),
    {
        if self.associated_keys.len() == 0 || self.key_management_weight == 0
            || self.deployment_weight == 0 {
            return String::new();
        }
        proof {
            assert(self.associated_keys@[0].wf());
        }
        let mut s = String::from_str(
            "#![cfg_attr(\n    not(target_arch = \"wasm32\"),\n    crate_type = \"target arch should be wasm32\"\n)]\n#![no_main]\n\nuse casper_contract::{contract_api::account, unwrap_or_revert::UnwrapOrRevert};\nuse casper_types::account::{AccountHash, ActionType, Weight};\n\n",
        );

        // The primary key's declaration block.
        let formatted = self.associated_keys[0].account_hash.to_formatted_string();
        s.append("// ");
        s.append(formatted.as_str());
        s.append("\n#[rustfmt::skip]\nconst MAIN_ACCOUNT_HASH: AccountHash = AccountHash::new(");
        append_byte_array(&mut s, &self.associated_keys[0].account_hash.bytes);
        s.append(");\nconst MAIN_ACCOUNT_WEIGHT: u8 = ");
        append_dec_u64(&mut s, self.associated_keys[0].weight as u64);
        s.append(";\n\n");
        proof {
            assert(s@ =~= spec_preamble() + spec_primary_block(self.associated_keys@[0]));
        }

        // One declaration block per secondary key, in input order.
        let mut i: usize = 1;
        while i < self.associated_keys.len()
            invariant
                1 <= i <= self.associated_keys@.len(),
                self.wf(),
                s@ =~= spec_preamble() + spec_primary_block(self.associated_keys@[0])
                    + spec_secondary_blocks(self.associated_keys@, i as int),
            decreases self.associated_keys@.len() - i,
        {
            proof {
                assert(self.associated_keys@[i as int].wf());
            }
            let formatted = self.associated_keys[i].account_hash.to_formatted_string();
            s.append("// ");
            s.append(formatted.as_str());
            s.append("\n#[rustfmt::skip]\nconst ACCOUNT_");
            append_dec_u64(&mut s, i as u64);
            s.append("_HASH: AccountHash = AccountHash::new(");
            append_byte_array(&mut s, &self.associated_keys[i].account_hash.bytes);
            s.append(");\nconst ACCOUNT_");
            append_dec_u64(&mut s, i as u64);
            s.append("_WEIGHT: u8 = ");
            append_dec_u64(&mut s, self.associated_keys[i].weight as u64);
            s.append(";\n\n");
            i = i + 1;
        }

        // The threshold constants and the opening of the entry point.
        s.append("const KEY_MANAGEMENT_WEIGHT: u8 = ");
        append_dec_u64(&mut s, self.key_management_weight as u64);
        s.append(";\nconst DEPLOYMENT_WEIGHT: u8 = ");
        append_dec_u64(&mut s, self.deployment_weight as u64);
        s.append(";\n\n");
        proof {
            assert(s@ =~= spec_declarations(*self));
        }
        s.append(
            "#[no_mangle]\npub extern \"C\" fn call() {\n    // Update the main account key's weight.\n    account::update_associated_key(MAIN_ACCOUNT_HASH, Weight::new(MAIN_ACCOUNT_WEIGHT))\n        .unwrap_or_revert();\n\n",
        );

        // One add statement per secondary key, in the same order.
        let mut j: usize = 1;
        while j < self.associated_keys.len()
            invariant
                1 <= j <= self.associated_keys@.len(),
                s@ =~= spec_declarations(*self) + spec_call_open() + spec_add_stmts(j as int),
            decreases self.associated_keys@.len() - j,
        {
            s.append("    // Add associated key ");
            append_dec_u64(&mut s, j as u64);
            s.append(".\n    account::add_associated_key(ACCOUNT_");
            append_dec_u64(&mut s, j as u64);
            s.append("_HASH, Weight::new(ACCOUNT_");
            append_dec_u64(&mut s, j as u64);
            s.append("_WEIGHT)).unwrap_or_revert();\n\n");
            j = j + 1;
        }

        // The threshold statements, then — last — the optional removal.
        s.append(
            "    // Set the action thresholds.\n    account::set_action_threshold(\n        ActionType::KeyManagement,\n        Weight::new(KEY_MANAGEMENT_WEIGHT),\n    )\n    .unwrap_or_revert();\n    account::set_action_threshold(ActionType::Deployment, Weight::new(DEPLOYMENT_WEIGHT))\n        .unwrap_or_revert();\n",
        );
        if self.associated_keys[0].remove_after_creation() {
            s.append(
                "\n    // Remove the main account's key.\n    account::remove_associated_key(MAIN_ACCOUNT_HASH).unwrap_or_revert();\n",
            );
        }
        s.append("}\n");
        proof {
            assert(s@ =~= spec_declarations(*self) + spec_body(*self));
        }
        s
    }
}

/// Rendering is deterministic: two sessions with the same keys and
/// thresholds render to the same text, whatever their paths and names.
pub proof fn lemma_render_deterministic(a: SmartContract, b: SmartContract)
    requires
        a.associated_keys@ == b.associated_keys@,
        a.key_management_weight == b.key_management_weight,
        a.deployment_weight == b.deployment_weight,
    ensures
        spec_main_rs(a) == spec_main_rs(b),
{
}

/// The rendered text is empty exactly when the session has no keys or a
/// zero threshold; any ready session renders to non-empty text.
pub proof fn lemma_render_empty_iff(c: SmartContract)
    ensures
        spec_main_rs(c).len() == 0 <==> !spec_ready(c),
{
    reveal_strlit(
        "#![cfg_attr(\n    not(target_arch = \"wasm32\"),\n    crate_type = \"target arch should be wasm32\"\n)]\n#![no_main]\n\nuse casper_contract::{contract_api::account, unwrap_or_revert::UnwrapOrRevert};\nuse casper_types::account::{AccountHash, ActionType, Weight};\n\n",
    );
}

/// The first declared key block of a ready session's rendered text is the
/// primary entry's block: it follows the fixed preamble immediately,
/// before every secondary block.
pub proof fn lemma_first_block_is_primary(c: SmartContract)
    requires
        spec_ready(c),
    ensures
        spec_main_rs(c) == spec_preamble() + spec_primary_block(c.associated_keys@[0]) + (
        spec_secondary_blocks(c.associated_keys@, c.associated_keys@.len() as int)
            + spec_threshold_consts(c.key_management_weight, c.deployment_weight) + spec_body(c)),
{
    assert(spec_main_rs(c) =~= spec_preamble() + spec_primary_block(c.associated_keys@[0]) + (
    spec_secondary_blocks(c.associated_keys@, c.associated_keys@.len() as int)
        + spec_threshold_consts(c.key_management_weight, c.deployment_weight) + spec_body(c)));
}

/// In a ready session's rendered text the primary-removal statement, when
/// present, stands after every threshold-setting statement: the text ends
/// with the threshold statements, then the removal statement, then the
/// closing brace — and the removal statement is present exactly when the
/// primary key asked to be removed.
pub proof fn lemma_removal_after_thresholds(c: SmartContract)
    requires
        spec_ready(c),
    ensures
        spec_main_rs(c) == (spec_declarations(c) + spec_call_open() + spec_add_stmts(
            c.associated_keys@.len() as int,
        )) + spec_threshold_stmts() + spec_removal(
            spec_remove_after_creation(c.associated_keys@[0]),
        ) + spec_closing(),
        spec_removal(spec_remove_after_creation(c.associated_keys@[0])).len() > 0
            <==> spec_remove_after_creation(c.associated_keys@[0]),
{
    reveal_strlit(
        "\n    // Remove the main account's key.\n    account::remove_associated_key(MAIN_ACCOUNT_HASH).unwrap_or_revert();\n",
    );
    assert(spec_main_rs(c) =~= (spec_declarations(c) + spec_call_open() + spec_add_stmts(
        c.associated_keys@.len() as int,
    )) + spec_threshold_stmts() + spec_removal(spec_remove_after_creation(c.associated_keys@[0]))
        + spec_closing());
}

} // verus!
