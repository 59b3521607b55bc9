//! Tests for the source renderer: determinism, the ready sentinel, output
//! structure and ordering, and one byte-exact rendering.

use casper_multisig_tool::smart_contract::SmartContract;
use casper_multisig_tool::{main_rs_contents, set_associated_keys_and_thresholds};

fn formatted(two_hex_chars: &str) -> String {
    format!("account-hash-{}", two_hex_chars.repeat(32))
}

fn session(keys: Vec<(String, u8)>, delete_primary: bool, km: u8, dp: u8) -> SmartContract {
    let mut session = SmartContract::default();
    set_associated_keys_and_thresholds(&mut session, keys, delete_primary, km, dp).unwrap();
    session
}

#[test]
fn render_is_deterministic() {
    let s = session(vec![(formatted("aa"), 5), (formatted("bb"), 2)], true, 5, 3);
    let first = main_rs_contents(&s);
    let second = main_rs_contents(&s);
    assert!(!first.is_empty());
    assert_eq!(first.as_bytes(), second.as_bytes());
}

#[test]
fn render_is_empty_only_without_keys_or_with_zero_threshold() {
    let empty = SmartContract::default();
    assert_eq!(main_rs_contents(&empty), "");

    let zero_km = session(vec![(formatted("aa"), 5)], false, 0, 0);
    assert_eq!(main_rs_contents(&zero_km), "");

    let zero_dp = session(vec![(formatted("aa"), 5)], false, 5, 0);
    assert_eq!(main_rs_contents(&zero_dp), "");

    let ready = session(vec![(formatted("aa"), 5)], false, 5, 3);
    assert!(!main_rs_contents(&ready).is_empty());
}

#[test]
fn render_declares_primary_key_first() {
    let s = session(vec![(formatted("aa"), 5), (formatted("bb"), 2)], false, 5, 3);
    let text = main_rs_contents(&s);
    let main_decl = text.find("const MAIN_ACCOUNT_HASH").unwrap();
    let secondary_decl = text.find("const ACCOUNT_1_HASH").unwrap();
    assert!(main_decl < secondary_decl);
    let comment = format!("// {}", formatted("aa"));
    assert!(text.find(&comment).unwrap() < main_decl);
}

#[test]
fn scenario_single_key_without_removal() {
    let s = session(vec![(formatted("aa"), 5)], false, 5, 3);
    let text = main_rs_contents(&s);
    assert!(text.contains("const MAIN_ACCOUNT_WEIGHT: u8 = 5;"));
    assert!(text.contains("const KEY_MANAGEMENT_WEIGHT: u8 = 5;"));
    assert!(text.contains("const DEPLOYMENT_WEIGHT: u8 = 3;"));
    assert!(!text.contains("remove_associated_key"));
    assert!(!text.contains("add_associated_key"));
}

#[test]
fn scenario_two_keys_with_removal_last() {
    let s = session(vec![(formatted("aa"), 1), (formatted("bb"), 2)], true, 1, 1);
    let text = main_rs_contents(&s);

    assert_eq!(text.matches("account::add_associated_key").count(), 1);
    assert!(text.contains(
        "account::add_associated_key(ACCOUNT_1_HASH, Weight::new(ACCOUNT_1_WEIGHT)).unwrap_or_revert();"
    ));
    assert!(text.ends_with(
        "\n    // Remove the main account's key.\n    account::remove_associated_key(MAIN_ACCOUNT_HASH).unwrap_or_revert();\n}\n"
    ));
}

#[test]
fn removal_comes_after_every_threshold_statement() {
    let s = session(vec![(formatted("aa"), 1)], true, 1, 1);
    let text = main_rs_contents(&s);
    let removal = text.find("account::remove_associated_key").unwrap();
    let last_threshold = text.rfind("account::set_action_threshold").unwrap();
    assert!(last_threshold < removal);
    assert_eq!(text.matches("account::set_action_threshold").count(), 2);
}

#[test]
fn secondary_keys_keep_input_order() {
    let s = session(
        vec![(formatted("aa"), 1), (formatted("bb"), 2), (formatted("cc"), 3)],
        false,
        6,
        6,
    );
    let text = main_rs_contents(&s);
    let first = text.find(&format!("// {}", formatted("bb"))).unwrap();
    let second = text.find(&format!("// {}", formatted("cc"))).unwrap();
    assert!(first < second);
    assert!(text.contains("const ACCOUNT_1_WEIGHT: u8 = 2;"));
    assert!(text.contains("const ACCOUNT_2_WEIGHT: u8 = 3;"));
    let add_1 = text.find("add_associated_key(ACCOUNT_1_HASH").unwrap();
    let add_2 = text.find("add_associated_key(ACCOUNT_2_HASH").unwrap();
    assert!(add_1 < add_2);
}

#[test]
fn render_canonicalizes_identity_case() {
    let upper = session(vec![(formatted("AB"), 4)], false, 4, 4);
    let lower = session(vec![(formatted("ab"), 4)], false, 4, 4);
    let text = main_rs_contents(&upper);
    assert_eq!(text, main_rs_contents(&lower));
    assert!(text.contains(&format!("// {}", formatted("ab"))));
    assert!(!text.contains(&formatted("AB")));
}

#[test]
fn render_single_key_exact_output() {
    let s = session(vec![(formatted("aa"), 5)], false, 5, 3);
    let text = main_rs_contents(&s);

    let bytes = format!("[{}{}]", "170, ".repeat(31), "170");
    let expected = format!(
        r#"#![cfg_attr(
    not(target_arch = "wasm32"),
    crate_type = "target arch should be wasm32"
)]
#![no_main]

use casper_contract::{{contract_api::account, unwrap_or_revert::UnwrapOrRevert}};
use casper_types::account::{{AccountHash, ActionType, Weight}};

// {hash}
#[rustfmt::skip]
const MAIN_ACCOUNT_HASH: AccountHash = AccountHash::new({bytes});
const MAIN_ACCOUNT_WEIGHT: u8 = 5;

const KEY_MANAGEMENT_WEIGHT: u8 = 5;
const DEPLOYMENT_WEIGHT: u8 = 3;

#[no_mangle]
pub extern "C" fn call() {{
    // Update the main account key's weight.
    account::update_associated_key(MAIN_ACCOUNT_HASH, Weight::new(MAIN_ACCOUNT_WEIGHT))
        .unwrap_or_revert();

    // Set the action thresholds.
    account::set_action_threshold(
        ActionType::KeyManagement,
        Weight::new(KEY_MANAGEMENT_WEIGHT),
    )
    .unwrap_or_revert();
    account::set_action_threshold(ActionType::Deployment, Weight::new(DEPLOYMENT_WEIGHT))
        .unwrap_or_revert();
}}
"#,
        hash = formatted("aa"),
        bytes = bytes,
    );
    assert_eq!(text, expected);
}
