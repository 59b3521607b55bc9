//! The materializer's file contents and the path model of the generated
//! project: everything the generated directory tree holds, as pure text.

use vstd::prelude::*;

use crate::smart_contract::SmartContract;

verus! {

/// The build-target configuration pinning the wasm platform.
pub open spec fn spec_cargo_config() -> Seq<char> {
    "[build]\ntarget = \"wasm32-unknown-unknown\"\n"@
}

/// Returns the fixed build-target configuration file contents.
pub fn cargo_config_contents() -> (r: String)
    ensures
        r@ =~= spec_cargo_config(),
{
    String::from_str("[build]\ntarget = \"wasm32-unknown-unknown\"\n")
}

/// The toolchain pin for the generated project.
pub open spec fn spec_rust_toolchain() -> Seq<char> {
    "nightly-2020-12-16\n"@
}

/// Returns the fixed toolchain-pin file contents.
pub fn rust_toolchain_contents() -> (r: String)
    ensures
        r@ =~= spec_rust_toolchain(),
{
    String::from_str("nightly-2020-12-16\n")
}

/// The generated project's manifest: a fixed template whose only dynamic
/// field is the contract name, substituted verbatim as the package name
/// and again as the binary name.
pub open spec fn spec_cargo_toml(name: Seq<char>) -> Seq<char> {
    "[package]\nname = \""@ + name
        + "\"\nversion = \"0.1.0\"\nauthors = [\"Fraser Hutchison <fraser@casperlabs.io>\"]\nedition = \"2018\"\n\n[dependencies]\ncasper-contract = \"1\"\ncasper-types = \"1\"\n\n[[bin]]\nname = \""@
        + name
        + "\"\npath = \"src/main.rs\"\nbench = false\ndoctest = false\ntest = false\n\n[features]\ndefault = [\"casper-contract/std\", \"casper-types/std\"]\n\n[profile.release]\nlto = true\ncodegen-units = 1\n"@
}

/// Returns the generated project's manifest for the given contract name.
pub fn cargo_toml_contents(name: &str) -> (r: String)
    ensures
        r@ =~= spec_cargo_toml(name@),
{
    let mut s = String::from_str("[package]\nname = \"");
    s.append(name);
    s.append(
        "\"\nversion = \"0.1.0\"\nauthors = [\"Fraser Hutchison <fraser@casperlabs.io>\"]\nedition = \"2018\"\n\n[dependencies]\ncasper-contract = \"1\"\ncasper-types = \"1\"\n\n[[bin]]\nname = \"",
    );
    s.append(name);
    s.append(
        "\"\npath = \"src/main.rs\"\nbench = false\ndoctest = false\ntest = false\n\n[features]\ndefault = [\"casper-contract/std\", \"casper-types/std\"]\n\n[profile.release]\nlto = true\ncodegen-units = 1\n",
    );
    s
}

/// How two path segments join: an absolute right side stands alone, an
/// empty left side adds no separator, and a separator is inserted only
/// where the left side does not already end with one.
pub open spec fn spec_join_path(a: Seq<char>, b: Seq<char>) -> Seq<char> {
    if b.len() > 0 && b[0] == '/' {
        b
    } else if a.len() == 0 {
        b
    } else if a.last() == '/' {
        a + b
    } else {
        a + "/"@ + b
    }
}

/// Joins two path segments as [`spec_join_path`] describes.
pub fn join_path(a: &str, b: &str) -> (r: String)
    ensures
        r@ =~= spec_join_path(a@, b@),
{
    let b_len = b.unicode_len();
    if b_len > 0 && b.get_char(0) == '/' {
        return b.to_owned();
    }
    let a_len = a.unicode_len();
    if a_len == 0 {
        return b.to_owned();
    }
    let mut s = a.to_owned();
    if a.get_char(a_len - 1) != '/' {
        s.append("/");
    }
    s.append(b);
    s
}

/// The directory that holds the generated project.
pub open spec fn spec_project_dir(c: SmartContract) -> Seq<char> {
    spec_join_path(c.root_dir@, c.contract_name@)
}

/// The path of the generated source file.
pub open spec fn spec_main_rs_path(c: SmartContract) -> Seq<char> {
    spec_join_path(spec_join_path(spec_project_dir(c), "src"@), "main.rs"@)
}

/// The path where the compiled artifact is expected to appear.
pub open spec fn spec_artifact_path(c: SmartContract) -> Seq<char> {
    spec_join_path(
        spec_join_path(
            spec_join_path(spec_join_path(spec_project_dir(c), "target"@), "wasm32-unknown-unknown"@),
            "release"@,
        ),
        c.contract_name@ + ".wasm"@,
    )
}

/// The synthetic line describing the build command and where it runs.
pub open spec fn spec_build_banner(project_dir: Seq<char>) -> Seq<char> {
    "Running \"cargo\" \"build\" \"--release\" in "@ + project_dir
}

impl SmartContract {
    /// Returns the directory that holds the generated project: the project
    /// root with the contract name joined onto it.
    pub fn project_dir(&self) -> (r: String)
        ensures
            r@ =~= spec_project_dir(*self),
    {
        join_path(self.root_dir.as_str(), self.contract_name.as_str())
    }
}

} // verus!
