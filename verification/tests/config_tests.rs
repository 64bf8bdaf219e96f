use platypus_powder_ping::config::{expand_tilde_with_home, resolve_config_path, Args, ConfigPkgs};

fn no_flags() -> Args {
    Args { config: None, notify: false, benchmark: false }
}

#[test]
fn resolves_fallback_config_when_config_absent() {
    let args = no_flags();
    let resolved = resolve_config_path(&args, "/home/testuser");

    assert_eq!(
        resolved,
        "/home/testuser/.config/platypus-powder-ping/config.toml"
    );
}

#[test]
fn resolves_custom_config_when_config_provided() {
    let args = Args { config: Some("~/.config/x.toml".to_string()), notify: false, benchmark: false };
    let resolved = resolve_config_path(&args, "/home/testuser");

    assert_eq!(resolved, "/home/testuser/.config/x.toml");
}

#[test]
fn custom_absolute_config_is_kept() {
    let args = Args { config: Some("/etc/ppp.toml".to_string()), notify: true, benchmark: true };
    assert_eq!(resolve_config_path(&args, "/home/testuser"), "/etc/ppp.toml");
}

#[test]
fn lone_tilde_is_home() {
    assert_eq!(expand_tilde_with_home("~", "/home/u"), "/home/u");
}

#[test]
fn tilde_not_followed_by_slash_is_kept() {
    assert_eq!(expand_tilde_with_home("~user/x", "/home/u"), "~user/x");
    assert_eq!(expand_tilde_with_home("a/~/b", "/home/u"), "a/~/b");
    assert_eq!(expand_tilde_with_home("", "/home/u"), "");
}

#[test]
fn tilde_slash_alone_is_home_with_slash() {
    assert_eq!(expand_tilde_with_home("~/", "/home/u"), "/home/u/");
}

#[test]
fn default_package_settings_are_empty() {
    let c = ConfigPkgs::default();
    assert!(c.ignore.is_empty());
    assert!(c.overrides.is_empty());
}
