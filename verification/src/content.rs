//! The boilerplate content table: fixed templates keyed by destination file
//! name, and the templates interpolated with a crate name that the workspace
//! skeleton uses. Any file name outside the table yields no content, which
//! the builder turns into an empty file.

use vstd::prelude::*;
use vstd::string::StringExecFns;

verus! {

/// Entry-file template offered for a top-level `lib.rs`.
pub const LIB_RS_TEMPLATE: &'static str = "//! Main library module\n            \n#![warn(missing_docs)]\n#![warn(clippy::all)]\n\npub mod error;\npub mod types;\n";

/// Manifest template offered for a top-level `Cargo.toml`; the placeholder
/// is left as written, it is not interpolated.
pub const CARGO_TOML_TEMPLATE: &'static str = "[package]\nname = \"{crate_name}\"\nversion = \"0.1.0\"\nedition = \"2021\"\n\n[dependencies]\n";

/// Read-me template offered for a top-level `README.md`.
pub const README_TEMPLATE: &'static str = "# Rust ML Project\n\n## Overview\n\nThis is a machine learning project implemented in Rust.\n\n## Project Structure\n\n- `ml-core`: Core functionality and shared types\n- `ml-data`: Data processing and pipelines\n- `ml-models`: Model implementations\n- `ml-train`: Training and evaluation\n\n## Getting Started\n\n1. Install Rust\n2. Build: `cargo build`\n3. Test: `cargo test`\n";

/// Stub written into a skeleton crate's integration-test file.
pub const INTEGRATION_TEST_TEMPLATE: &'static str = "//! Integration tests\n";

/// Manifest written at the root of a generated workspace.
pub const WORKSPACE_MANIFEST: &'static str = "[workspace]\nmembers = [\n    \"crates/ml-core\",\n    \"crates/ml-data\",\n    \"crates/ml-models\",\n    \"crates/ml-train\",\n]\n\n[workspace.package]\nversion = \"0.1.0\"\nedition = \"2021\"\nauthors = []\n\n[workspace.dependencies]\n# ML and numerical computing\nndarray = { version = \"0.15\", features = [\"rayon\"] }\npolars = { version = \"0.35\", features = [\"lazy\"] }\nrand = \"0.8\"\nrayon = \"1.8\"\n\n# Serialization\nserde = { version = \"1.0\", features = [\"derive\"] }\nserde_json = \"1.0\"\nserde_yaml = \"0.9\"\n\n# Error handling\nthiserror = \"1.0\"\nanyhow = \"1.0\"\n\n# Logging and metrics\ntracing = \"0.1\"\ntracing-subscriber = \"0.3\"\n\n[profile.dev]\nopt-level = 1\n\n[profile.release]\nopt-level = 3\nlto = \"thin\"\ncodegen-units = 1\n";

/// The entry-file content of a skeleton crate, with the crate's name
/// interpolated.
pub open spec fn crate_lib_text(name: Seq<char>) -> Seq<char> {
    "//! "@ + name + " crate\n\n#![warn(missing_docs)]\n"@
}

/// The manifest content of a skeleton crate, with the crate's name
/// interpolated.
pub open spec fn crate_manifest_text(name: Seq<char>) -> Seq<char> {
    "[package]\nname = \""@ + name + "\"\nversion = \"0.1.0\"\nedition = \"2021\"\n\n[dependencies]\n"@
}

/// Builds the entry-file content of a skeleton crate named `name`.
pub fn crate_lib_content(name: &str) -> (r: String)
    ensures
        r@ == crate_lib_text(name@),
{
    let mut s: String = "//! ".to_owned();
    s.append(name);
    s.append(" crate\n\n#![warn(missing_docs)]\n");
    s
}

/// Builds the manifest content of a skeleton crate named `name`.
pub fn crate_manifest_content(name: &str) -> (r: String)
    ensures
        r@ == crate_manifest_text(name@),
{
    let mut s: String = "[package]\nname = \"".to_owned();
    s.append(name);
    s.append("\"\nversion = \"0.1.0\"\nedition = \"2021\"\n\n[dependencies]\n");
    s
}

/// What the content table yields for a given destination file name.
pub open spec fn initial_content(name: Seq<char>) -> Option<Seq<char>> {
    if name == "lib.rs"@ {
        Some(LIB_RS_TEMPLATE@)
    } else if name == "Cargo.toml"@ {
        Some(CARGO_TOML_TEMPLATE@)
    } else if name == "README.md"@ {
        Some(README_TEMPLATE@)
    } else {
        None
    }
}

/// Compares two string slices by their character sequences.
pub(crate) fn str_eq(a: &str, b: &str) -> (r: bool)
    ensures
        r == (a@ == b@),
{
    let sa: String = a.to_owned();
    let sb: String = b.to_owned();
    sa == sb
}

/// Looks a destination file name up in the content table: a fixed template
/// for the recognized names, no content for every other name.
pub fn create_initial_content(file_name: &str) -> (r: Option<String>)
    ensures
        r.deep_view() == initial_content(file_name@),
{
    if str_eq(file_name, "lib.rs") {
        Some(LIB_RS_TEMPLATE.to_owned())
    } else if str_eq(file_name, "Cargo.toml") {
        Some(CARGO_TOML_TEMPLATE.to_owned())
    } else if str_eq(file_name, "README.md") {
        Some(README_TEMPLATE.to_owned())
    } else {
        None
    }
}

} // verus!
