//! Tests for the generation plan: paths, file contents, log framing, and
//! idempotence across repeated calls.

use casper_multisig_tool::smart_contract::SmartContract;
use casper_multisig_tool::{
    contract_name, generate_smart_contract, main_rs_contents, project_path,
    set_associated_keys_and_thresholds, set_contract_name, set_project_path,
};

fn formatted(two_hex_chars: &str) -> String {
    format!("account-hash-{}", two_hex_chars.repeat(32))
}

fn ready_session() -> SmartContract {
    let mut session = SmartContract::default();
    set_project_path(&mut session, "/tmp/workdir");
    set_contract_name(&mut session, "my_contract");
    set_associated_keys_and_thresholds(
        &mut session,
        vec![(formatted("aa"), 3), (formatted("bb"), 2)],
        false,
        3,
        2,
    )
    .unwrap();
    session
}

#[test]
fn accessors_roundtrip() {
    let mut session = SmartContract::default();
    assert_eq!(project_path(&session), "");
    assert_eq!(contract_name(&session), "");
    set_project_path(&mut session, "/somewhere");
    set_contract_name(&mut session, "named");
    assert_eq!(project_path(&session), "/somewhere");
    assert_eq!(contract_name(&session), "named");
}

#[test]
fn project_dir_joins_root_and_name() {
    let session = ready_session();
    assert_eq!(session.project_dir(), "/tmp/workdir/my_contract");

    let mut no_root = SmartContract::default();
    set_contract_name(&mut no_root, "alone");
    assert_eq!(no_root.project_dir(), "alone");

    let mut trailing = SmartContract::default();
    set_project_path(&mut trailing, "/tmp/");
    set_contract_name(&mut trailing, "inner");
    assert_eq!(trailing.project_dir(), "/tmp/inner");
}

#[test]
fn plan_lists_directories_and_files() {
    let session = ready_session();
    let plan = generate_smart_contract(&session);

    assert_eq!(plan.project_dir, "/tmp/workdir/my_contract");
    assert_eq!(
        plan.directories,
        vec![
            "/tmp/workdir/my_contract".to_string(),
            "/tmp/workdir/my_contract/.cargo".to_string(),
            "/tmp/workdir/my_contract/src".to_string(),
        ]
    );

    assert_eq!(plan.files.len(), 4);
    assert_eq!(plan.files[0].0, "/tmp/workdir/my_contract/.cargo/config.toml");
    assert_eq!(plan.files[0].1, "[build]\ntarget = \"wasm32-unknown-unknown\"\n");
    assert_eq!(plan.files[1].0, "/tmp/workdir/my_contract/src/main.rs");
    assert_eq!(plan.files[1].1, main_rs_contents(&session));
    assert_eq!(plan.files[2].0, "/tmp/workdir/my_contract/Cargo.toml");
    assert_eq!(plan.files[3].0, "/tmp/workdir/my_contract/rust-toolchain");
    assert_eq!(plan.files[3].1, "nightly-2020-12-16\n");
}

#[test]
fn plan_manifest_substitutes_only_the_contract_name() {
    let session = ready_session();
    let plan = generate_smart_contract(&session);
    let manifest = &plan.files[2].1;
    assert!(manifest.starts_with("[package]\nname = \"my_contract\"\n"));
    assert!(manifest.contains("[[bin]]\nname = \"my_contract\"\npath = \"src/main.rs\"\n"));
    assert_eq!(manifest.matches("my_contract").count(), 2);
    assert!(manifest.contains("casper-contract = \"1\""));
    assert!(manifest.contains("casper-types = \"1\""));
}

#[test]
fn plan_frames_the_build_log() {
    let session = ready_session();
    let plan = generate_smart_contract(&session);

    assert_eq!(
        plan.prologue,
        vec![
            "Running \"cargo\" \"build\" \"--release\" in /tmp/workdir/my_contract".to_string(),
            String::new(),
        ]
    );
    assert_eq!(
        plan.epilogue,
        vec![
            String::new(),
            "Smart contract source code:".to_string(),
            "/tmp/workdir/my_contract/src/main.rs".to_string(),
            String::new(),
            "Compiled smart contract:".to_string(),
            "/tmp/workdir/my_contract/target/wasm32-unknown-unknown/release/my_contract.wasm"
                .to_string(),
        ]
    );
}

#[test]
fn repeated_generation_plans_identically() {
    let session = ready_session();
    let first = generate_smart_contract(&session);
    let second = generate_smart_contract(&session);
    assert_eq!(first.project_dir, second.project_dir);
    assert_eq!(first.directories, second.directories);
    assert_eq!(first.files, second.files);
    assert_eq!(first.prologue, second.prologue);
    assert_eq!(first.epilogue, second.epilogue);
}
