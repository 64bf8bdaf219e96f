use platypus_powder_ping::package::darwin::{env_var_reference, hostname_from_output};
use platypus_powder_ping::package::nix_eval::{parse_store_paths, store_paths_from_output};
use platypus_powder_ping::package::string_from_std;

#[test]
fn test_valid_utf8() {
    let stdout = b"testing".to_vec();
    assert_eq!(string_from_std(&stdout), "testing");
}

#[test]
fn test_invalid_utf8_replacement() {
    let stdout = vec![0xFF, 0xFE];
    let result = string_from_std(&stdout);
    assert!(!result.is_empty());
}

#[test]
fn test_empty_stdout() {
    let stdout: Vec<u8> = vec![];
    assert_eq!(string_from_std(&stdout), "");
}

#[test]
fn test_multiline_output() {
    let stdout = b"Line 1\nLine 2\nLine 3".to_vec();
    assert_eq!(string_from_std(&stdout), "Line 1\nLine 2\nLine 3");
}

#[test]
fn store_paths_are_read_from_json() {
    let paths = parse_store_paths("[\"/nix/store/abc-ripgrep-15.2.0\", \"/nix/store/def-git-2.44\"]").ok().unwrap();
    assert_eq!(paths, vec!["/nix/store/abc-ripgrep-15.2.0".to_string(), "/nix/store/def-git-2.44".to_string()]);
    assert!(parse_store_paths("[]").ok().unwrap().is_empty());
}

#[test]
fn malformed_store_paths_are_refused() {
    assert!(parse_store_paths("not json").is_err());
    assert!(parse_store_paths("[1, 2]").is_err());
    let e = parse_store_paths("{").err().unwrap();
    assert!(!e.reason.is_empty());
}

#[test]
fn store_paths_from_command_output() {
    let out = b"[\"/nix/store/x-a-1\"]\n".to_vec();
    assert_eq!(store_paths_from_output(&out).ok().unwrap(), vec!["/nix/store/x-a-1".to_string()]);
}

#[test]
fn hostname_is_trimmed() {
    assert_eq!(hostname_from_output(b"  my-mac\n"), "my-mac");
    assert_eq!(hostname_from_output(b"host"), "host");
}

#[test]
fn env_var_settings_are_recognised() {
    assert_eq!(env_var_reference("$FLAKE_DIR"), Some("FLAKE_DIR".to_string()));
    assert_eq!(env_var_reference("$"), None);
    assert_eq!(env_var_reference("/some/dir"), None);
    assert_eq!(env_var_reference("a$B"), None);
}
