use platypus_powder_ping::package::nix_eval::{
    flake_packages_expr, package_details_expr, unstable_upgrade, unstable_version_expr,
};

#[test]
fn flake_query_names_the_configuration() {
    assert_eq!(
        flake_packages_expr("/flake", "my-mac"),
        "/flake#darwinConfigurations.\"my-mac\".config.environment.systemPackages"
    );
}

#[test]
fn unstable_query_names_the_package() {
    assert_eq!(
        unstable_version_expr("ripgrep"),
        "github:NixOS/nixpkgs/nixpkgs-unstable#ripgrep.version"
    );
}

#[test]
fn package_expression_binds_the_store_path() {
    let e = package_details_expr("/nix/store/abc-ripgrep-15.2.0");
    assert!(e.contains("sp = /nix/store/abc-ripgrep-15.2.0;"));
    assert!(e.contains("builtins.parseDrvName rest;"));
    assert!(e.contains("{\n                name = name;"));
    assert!(e.ends_with("}\n            "));
}

#[test]
fn upgrade_only_when_versions_differ() {
    assert_eq!(unstable_upgrade("2.0".to_string(), "1.0"), Some("2.0".to_string()));
    assert_eq!(unstable_upgrade("1.0".to_string(), "1.0"), None);
}
