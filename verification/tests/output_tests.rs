use platypus_powder_ping::output::{
    notification_message, osascript_command, spinner_message, update_string, NOTIFICATION_TITLE,
};
use platypus_powder_ping::text::usize_to_decimal;

#[test]
fn update_string_formats_correctly_for_updates() {
    let update_names = vec![
        "a-pkg".to_string(),
        "b-pkg".to_string(),
        "c-pkg".to_string(),
    ];

    let update_string = update_string(&update_names);

    assert_eq!(update_string, "3 Updated Packages - a-pkg, b-pkg, c-pkg")
}

#[test]
fn update_string_formats_correctly_for_none() {
    let update_names = vec![];

    let update_string = update_string(&update_names);

    assert_eq!(update_string, "0 Updated Packages")
}

#[test]
fn update_string_counts_past_nine() {
    let names: Vec<String> = (0..12).map(|i| format!("p{i}")).collect();
    let s = update_string(&names);
    assert!(s.starts_with("12 Updated Packages - p0, p1, "));
    assert!(s.ends_with("p10, p11"));
}

#[test]
fn single_update() {
    assert_eq!(update_string(&["only".to_string()]), "1 Updated Packages - only");
}

#[test]
fn decimal_rendering() {
    assert_eq!(usize_to_decimal(0), "0");
    assert_eq!(usize_to_decimal(7), "7");
    assert_eq!(usize_to_decimal(10), "10");
    assert_eq!(usize_to_decimal(1234567890), "1234567890");
    assert_eq!(usize_to_decimal(usize::MAX), usize::MAX.to_string());
}

#[test]
fn notification_lists_each_package() {
    let names = vec!["PkgA".to_string(), "PkgB".to_string()];
    assert_eq!(
        notification_message(&names),
        "Following Packages have updates\n• PkgA\n• PkgB"
    );
}

#[test]
fn osascript_shows_message_under_title() {
    assert_eq!(
        osascript_command("hi", NOTIFICATION_TITLE),
        "display notification \"hi\" with title \"Nix Package Update\""
    );
}

#[test]
fn spinner_message_names_flake_and_config() {
    assert_eq!(
        spinner_message("/some/dir", "mac"),
        "Querying Darwin Flake\n  • location:'/some/dir'\n  • config:  'mac'"
    );
}
