//! The source of package data that a flake is queried through.
use vstd::prelude::*;

verus! {

/// Answers the questions a run asks about a flake and about nixpkgs.
/// Implementations run the actual queries; nothing is assumed of their
/// answers.
pub trait GetsJSON {
    /// What a failed query reports.
    type Error;

    /// The store paths of the packages that the configuration
    /// `config_name` of the flake at `path` installs.
    fn path_generator(&self, path: &str, config_name: &str) -> Result<Vec<String>, Self::Error>;

    /// The JSON object `{"name": .., "current_version": ..}` that describes
    /// the package at `store_path`.
    fn package_generator(&self, store_path: &str) -> Result<String, Self::Error>;

    /// The version that nixpkgs-unstable offers of `package_name`, when it
    /// differs from `current_version`.
    fn unstable_version_generator(
        &self,
        package_name: &str,
        current_version: &str,
    ) -> Result<Option<String>, Self::Error>;
}

} // verus!
