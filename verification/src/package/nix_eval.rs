//! The Nix expressions a run evaluates, and what it makes of their answers.
use vstd::prelude::*;

use crate::package::util::{string_from_std, utf8_lossy};
use crate::text::{compare_str, strings_view, Order};

verus! {

/// What precedes the store path in the expression that describes a package.
pub const PACKAGE_EXPR_HEAD: &'static str = "\n            let\n                sp = ";

/// What follows the store path in the expression that describes a package.
pub const PACKAGE_EXPR_TAIL: &'static str = ";\n                base = builtins.baseNameOf sp;\n\n                rest = (let m = builtins.match \"^[^-]+-(.*)$\" base;\n                        in if m == null then base else builtins.elemAt m 0);\n\n                parsed = builtins.parseDrvName rest;\n\n                name =\n                if parsed ? name\n                then parsed.name\n                else rest;\n\n                current_version =\n                if parsed ? version && parsed.version != null\n                then parsed.version\n                else \"unknown\";\n            in\n            {\n                name = name;\n                current_version = current_version;\n            }\n            ";

/// The attribute path of the packages that a flake configuration installs.
pub open spec fn flake_packages_attr(path: Seq<char>, config_name: Seq<char>) -> Seq<char> {
    path + "#darwinConfigurations.\""@ + config_name + "\".config.environment.systemPackages"@
}

/// The expression that yields `{ name, current_version }` for a store path:
/// the name and version that Nix parses out of the path's base name.
pub open spec fn package_details(store_path: Seq<char>) -> Seq<char> {
    PACKAGE_EXPR_HEAD@ + store_path + PACKAGE_EXPR_TAIL@
}

/// The attribute path of a package's version in nixpkgs-unstable.
pub open spec fn unstable_version_attr(package_name: Seq<char>) -> Seq<char> {
    "github:NixOS/nixpkgs/nixpkgs-unstable#"@ + package_name + ".version"@
}

/// The installable whose packages `nix eval --json` lists for the
/// configuration `config_name` of the flake at `path`.
pub fn flake_packages_expr(path: &str, config_name: &str) -> (r: String)
    ensures
        r@ == flake_packages_attr(path@, config_name@),
{
    let mut r = String::from_str(path);
    r.append("#darwinConfigurations.\"");
    r.append(config_name);
    r.append("\".config.environment.systemPackages");
    r
}

/// The expression that describes the package at `store_path`.
pub fn package_details_expr(store_path: &str) -> (r: String)
    ensures
        r@ == package_details(store_path@),
{
    let mut r = String::from_str(PACKAGE_EXPR_HEAD);
    r.append(store_path);
    r.append(PACKAGE_EXPR_TAIL);
    r
}

/// The installable whose value is the version nixpkgs-unstable offers of
/// `package_name`.
pub fn unstable_version_expr(package_name: &str) -> (r: String)
    ensures
        r@ == unstable_version_attr(package_name@),
{
    let mut r = String::from_str("github:NixOS/nixpkgs/nixpkgs-unstable#");
    r.append(package_name);
    r.append(".version");
    r
}

/// The upstream version, when it differs from the installed one.
pub fn unstable_upgrade(unstable_version: String, current_version: &str) -> (r: Option<String>)
    ensures
        unstable_version@ != current_version@ ==> r == Some(unstable_version),
        unstable_version@ == current_version@ ==> r is None,
{
    match compare_str(unstable_version.as_str(), current_version) {
        Order::Equal => None,
        _ => Some(unstable_version),
    }
}

/// `serde_json::Error`, carried as an opaque value.
#[verifier::external_type_specification]
#[verifier::external_body]
pub struct ExJsonError(serde_json::Error);

/// The list of strings that the JSON text `input` denotes, or none when it
/// is not a JSON array of strings.
pub uninterp spec fn json_string_list(input: Seq<char>) -> Option<Seq<Seq<char>>>;

/// Calls `serde_json::from_str::<Vec<String>>`. Trusted: it succeeds exactly
/// when the name above gives a list for the input, and then yields that list.
#[verifier::external_body]
fn json_from_str_strings(input: &str) -> (r: Result<Vec<String>, serde_json::Error>)
    ensures
        r is Ok <==> json_string_list(input@) is Some,
        r matches Ok(v) ==> strings_view(v@) == json_string_list(input@)->Some_0,
{
    serde_json::from_str(input)
}

/// Calls `Display` of `serde_json::Error`; nothing is stated of the text.
#[verifier::external_body]
fn json_error_text(e: &serde_json::Error) -> String {
    e.to_string()
}

/// A JSON text that is not what was expected.
pub struct JsonError {
    /// Why the text was refused.
    pub reason: String,
}

/// Reads the store paths out of the JSON array that the flake query printed.
pub fn parse_store_paths(input: &str) -> (r: Result<Vec<String>, JsonError>)
    ensures
        r is Ok <==> json_string_list(input@) is Some,
        r matches Ok(v) ==> strings_view(v@) == json_string_list(input@)->Some_0,
{
    match json_from_str_strings(input) {
        Ok(v) => Ok(v),
        Err(e) => Err(JsonError { reason: json_error_text(&e) }),
    }
}

/// The store paths in what `nix eval --json` printed for the flake query.
pub fn store_paths_from_output(stdout: &[u8]) -> (r: Result<Vec<String>, JsonError>)
    ensures
        r is Ok <==> json_string_list(utf8_lossy(stdout@)) is Some,
        r matches Ok(v) ==> strings_view(v@) == json_string_list(utf8_lossy(stdout@))->Some_0,
{
    let text = string_from_std(stdout);
    parse_store_paths(text.as_str())
}

} // verus!
