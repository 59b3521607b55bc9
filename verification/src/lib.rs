//! A verified core for a multi-signature account-configuration tool: it
//! validates a set of account identities and weights into a key-set model,
//! renders that model deterministically into contract source text, and plans
//! the project files and log framing for an external build of that text.
//!
//! The session state is an explicit [`SmartContract`] value handed into every
//! entry point; callers that want a process-wide session wrap one in a lock.

use vstd::prelude::*;

pub mod account_hash;
pub mod crypto;
pub mod errors;
pub mod project;
pub mod render;
pub mod smart_contract;
pub mod text;

use account_hash::{
    spec_formatted_account_hash, spec_is_valid_formatted, spec_parse_error_msg, AccountHash,
};
use crypto::spec_public_key_account_hash;
use errors::Error;
use project::{
    cargo_config_contents, cargo_toml_contents, join_path, rust_toolchain_contents,
    spec_artifact_path, spec_build_banner, spec_cargo_config, spec_cargo_toml, spec_join_path,
    spec_main_rs_path, spec_project_dir, spec_rust_toolchain,
};
use render::spec_main_rs;
use smart_contract::{spec_first_invalid_err, spec_key_matches, SmartContract};

verus! {

/// Returns the hex-encoded account hash derived from the provided
/// hex-encoded public key.
///
/// The input must be a hex-encoded public key, prefixed with a hex-encoded
/// tag indicating the algorithm.
pub fn get_account_hash_from_hex_encoded_public_key(hex_public_key: &str) -> (r: Result<
    String,
    Error,
>)
    ensures
        match r {
            Ok(s) => spec_public_key_account_hash(hex_public_key@) matches Some(bytes) && s@
                =~= spec_formatted_account_hash(bytes),
            Err(e) => spec_public_key_account_hash(hex_public_key@) is None && (e
                matches Error::ParseHexPublicKey { .. }),
        },
{
    match crypto::account_hash_from_public_key_hex(hex_public_key) {
        Ok(bytes) => {
            let hash = AccountHash::new(bytes);
            Ok(hash.to_formatted_string())
        },
        Err(inner) => Err(Error::ParseHexPublicKey { inner }),
    }
}

/// Returns `Ok` if the provided account hash is correctly formatted, else
/// `Err`.
///
/// The input must be a hex-encoded hash, prefixed with `account-hash-` as
/// per the formatted representation of account hashes.
pub fn validate_account_hash(formatted_account_hash: &str) -> (r: Result<(), Error>)
    ensures
        (r is Ok) <==> spec_is_valid_formatted(formatted_account_hash@),
        r matches Err(e) ==> (e matches Error::ParseAccountHash { inner } && inner@
            == spec_parse_error_msg(formatted_account_hash@)),
{
    match AccountHash::from_formatted_str(formatted_account_hash) {
        Ok(_) => Ok(()),
        Err(inner) => Err(Error::ParseAccountHash { inner }),
    }
}

/// Sets the values which will be written to the smart contract.
///
/// Can be called multiple times before actually generating the contract; on
/// any failure the session keeps its previous configuration.
pub fn set_associated_keys_and_thresholds(
    contract: &mut SmartContract,
    keys: Vec<(String, u8)>,
    primary_key_should_be_deleted: bool,
    key_management_weight: u8,
    deployment_weight: u8,
) -> (r: Result<(), Error>)
    ensures
        (r is Ok) <==> (keys@.len() > 0 && (forall|i: int|
            0 <= i < keys@.len() ==> spec_is_valid_formatted(keys@[i].0@))),
        match r {
            Ok(()) => {
                &&& final(contract).root_dir@ == old(contract).root_dir@
                &&& final(contract).contract_name@ == old(contract).contract_name@
                &&& final(contract).key_management_weight == key_management_weight
                &&& final(contract).deployment_weight == deployment_weight
                &&& final(contract).associated_keys@.len() == keys@.len()
                &&& forall|i: int|
                    0 <= i < keys@.len() ==> #[trigger] spec_key_matches(
                        final(contract).associated_keys@[i],
                        keys@[i],
                        i,
                        primary_key_should_be_deleted,
                    )
                &&& final(contract).wf()
                &&& final(contract).keys_structured()
            },
            Err(e) => {
                &&& *final(contract) == *old(contract)
                &&& if keys@.len() == 0 {
                    e matches Error::NoKeys
                } else {
                    spec_first_invalid_err(keys@, e)
                }
            },
        },
{
    contract.set_associated_keys_and_thresholds(
        keys,
        primary_key_should_be_deleted,
        key_management_weight,
        deployment_weight,
    )
}

/// Returns the root dir of the project which will hold the smart contract.
pub fn project_path(contract: &SmartContract) -> (r: String)
    ensures
        r@ == contract.root_dir@,
{
    contract.root_dir.clone()
}

/// Returns the smart contract's name.
pub fn contract_name(contract: &SmartContract) -> (r: String)
    ensures
        r@ == contract.contract_name@,
{
    contract.contract_name.clone()
}

/// Sets the root dir of the project which will hold the smart contract.
pub fn set_project_path(contract: &mut SmartContract, root_dir: &str)
    ensures
        final(contract).root_dir@ == root_dir@,
        final(contract).contract_name == old(contract).contract_name,
        final(contract).associated_keys == old(contract).associated_keys,
        final(contract).key_management_weight == old(contract).key_management_weight,
        final(contract).deployment_weight == old(contract).deployment_weight,
{
    contract.root_dir = root_dir.to_owned();
}

/// Sets the smart contract's name.
pub fn set_contract_name(contract: &mut SmartContract, name: &str)
    ensures
        final(contract).contract_name@ == name@,
        final(contract).root_dir == old(contract).root_dir,
        final(contract).associated_keys == old(contract).associated_keys,
        final(contract).key_management_weight == old(contract).key_management_weight,
        final(contract).deployment_weight == old(contract).deployment_weight,
{
    contract.contract_name = name.to_owned();
}

/// Renders the contract source for the session's current configuration, or
/// the empty string if the session is not ready to preview.
pub fn main_rs_contents(contract: &SmartContract) -> (r: String)
    requires
        contract.wf(),
    ensures
        r@ =~= spec_main_rs(*contract),
{
    contract.main_rs_contents()
}

/// Everything a caller must do to materialize and build the generated
/// project: the directories to create, the files to write (in order, as
/// whole-file overwrites), and the synthetic log lines that bracket the
/// build subprocess's own output.
pub struct GenerationPlan {
    /// The directory the build runs in.
    pub project_dir: String,
    /// The directories to create, parents first.
    pub directories: Vec<String>,
    /// The files to write, as (path, contents), in write order.
    pub files: Vec<(String, String)>,
    /// The log lines to emit before any subprocess output.
    pub prologue: Vec<String>,
    /// The log lines to emit after the subprocess has exited and both its
    /// streams are drained.
    pub epilogue: Vec<String>,
}

/// Plans the generation of the smart contract: which directories and files
/// to materialize (the rendered source among them) and how the build log is
/// framed.  Pure: the same session always yields the same plan.
pub fn generate_smart_contract(contract: &SmartContract) -> (plan: GenerationPlan)
    requires
        contract.wf(),
    ensures
        plan.project_dir@ == spec_project_dir(*contract),
        plan.directories@.len() == 3,
        plan.directories@[0]@ == spec_project_dir(*contract),
        plan.directories@[1]@ == spec_join_path(spec_project_dir(*contract), ".cargo"@),
        plan.directories@[2]@ == spec_join_path(spec_project_dir(*contract), "src"@),
        plan.files@.len() == 4,
        plan.files@[0].0@ == spec_join_path(
            spec_join_path(spec_project_dir(*contract), ".cargo"@),
            "config.toml"@,
        ),
        plan.files@[0].1@ == spec_cargo_config(),
        plan.files@[1].0@ == spec_main_rs_path(*contract),
        plan.files@[1].1@ == spec_main_rs(*contract),
        plan.files@[2].0@ == spec_join_path(spec_project_dir(*contract), "Cargo.toml"@),
        plan.files@[2].1@ == spec_cargo_toml(contract.contract_name@),
        plan.files@[3].0@ == spec_join_path(spec_project_dir(*contract), "rust-toolchain"@),
        plan.files@[3].1@ == spec_rust_toolchain(),
        plan.prologue@.len() == 2,
        plan.prologue@[0]@ == spec_build_banner(spec_project_dir(*contract)),
        plan.prologue@[1]@ == Seq::<char>::empty(),
        plan.epilogue@.len() == 6,
        plan.epilogue@[0]@ == Seq::<char>::empty(),
        plan.epilogue@[1]@ == "Smart contract source code:"@,
        plan.epilogue@[2]@ == spec_main_rs_path(*contract),
        plan.epilogue@[3]@ == Seq::<char>::empty(),
        plan.epilogue@[4]@ == "Compiled smart contract:"@,
        plan.epilogue@[5]@ == spec_artifact_path(*contract),
{
    let project_dir = contract.project_dir();
    let cargo_config_dir = join_path(project_dir.as_str(), ".cargo");
    let src_dir = join_path(project_dir.as_str(), "src");
    let main_rs_path = join_path(src_dir.as_str(), "main.rs");

    let mut directories: Vec<String> = Vec::new();
    directories.push(project_dir.clone());
    directories.push(cargo_config_dir.clone());
    directories.push(src_dir.clone());

    let mut files: Vec<(String, String)> = Vec::new();
    files.push((join_path(cargo_config_dir.as_str(), "config.toml"), cargo_config_contents()));
    files.push((main_rs_path.clone(), contract.main_rs_contents()));
    files.push((
        join_path(project_dir.as_str(), "Cargo.toml"),
        cargo_toml_contents(contract.contract_name.as_str()),
    ));
    files.push((join_path(project_dir.as_str(), "rust-toolchain"), rust_toolchain_contents()));

    let mut banner = String::from_str("Running \"cargo\" \"build\" \"--release\" in ");
    banner.append(project_dir.as_str());
    let mut prologue: Vec<String> = Vec::new();
    prologue.push(banner);
    prologue.push(String::new());

    let mut wasm_name = contract.contract_name.clone();
    wasm_name.append(".wasm");
    let artifact_path = join_path(
        join_path(
            join_path(join_path(project_dir.as_str(), "target").as_str(), "wasm32-unknown-unknown")
                .as_str(),
            "release",
        ).as_str(),
        wasm_name.as_str(),
    );
    let mut epilogue: Vec<String> = Vec::new();
    epilogue.push(String::new());
    epilogue.push(String::from_str("Smart contract source code:"));
    epilogue.push(main_rs_path);
    epilogue.push(String::new());
    epilogue.push(String::from_str("Compiled smart contract:"));
    epilogue.push(artifact_path);

    GenerationPlan { project_dir, directories, files, prologue, epilogue }
}

} // verus!
