use anyhow::Result;
use platypus_powder_ping::actions::{maybe_benchmark, maybe_notify};
use platypus_powder_ping::package::Package;
use platypus_powder_ping::summary::summarize;

#[test]
fn runs_when_benchmark_true() {
    let mut count = 0;

    maybe_benchmark(true, || {
        count += 1;
    });

    assert_eq!(count, 1);

    let mut count2 = 0;
    maybe_benchmark(false, || {
        count2 += 1;
    });
    assert_eq!(count2, 0);
}

#[test]
fn calls_notifications_when_notify_true() -> Result<()> {
    let mut counter = 0;

    let update_names: [String; 3] = ["PkgA".into(), "PkgB".into(), "PkgC".into()];

    let x = |_updates: &[String]| -> Result<()> {
        counter += 1;
        Ok(())
    };

    let notify_result = maybe_notify(true, &update_names, x)?;

    assert_eq!(counter, 1);

    Ok(notify_result)
}

#[test]
fn run_skips_notifications_when_notify_false() -> Result<()> {
    let mut counter = 0;

    let update_names: [String; 3] = ["PkgA".into(), "PkgB".into(), "PkgC".into()];

    let x = |_updates: &[String]| -> Result<()> {
        counter += 1;
        Ok(())
    };

    let notify_result = maybe_notify(false, &update_names, x)?;

    assert_eq!(counter, 0);

    Ok(notify_result)
}

#[test]
fn run_does_not_call_notifications_when_no_updates() -> Result<()> {
    let mut counter = 0;

    let x = |_updates: &[String]| -> Result<()> {
        counter += 1;
        Ok(())
    };

    let notify_result = maybe_notify(true, &[], x)?;

    assert_eq!(counter, 0);

    Ok(notify_result)
}

#[test]
fn notification_failure_is_passed_on() {
    let names = ["PkgA".to_string()];
    let r: std::result::Result<(), String> =
        maybe_notify(true, &names, |u: &[String]| Err(format!("failed for {}", u.len())));
    assert_eq!(r, Err("failed for 1".to_string()));
}

fn setup() -> (Vec<Option<Package>>, Vec<Package>) {
    let pkg_a = Package {
        name: "GoodPkg".to_string(),
        current_version: "1.0.0".to_string(),
        update: None,
    };

    let pkg_b = Package {
        name: "FunPkg".to_string(),
        current_version: "1.1.1".to_string(),
        update: None,
    };

    let pkg_c = Package {
        name: "WeirdPkg".to_string(),
        current_version: "some_day_string".to_string(),
        update: Some("animalName".to_string()),
    };

    let pkgs = vec![pkg_a, pkg_b, pkg_c];
    let results = vec![
        Some(pkgs[0].clone()),
        Some(pkgs[1].clone()),
        Some(pkgs[2].clone()),
    ];
    (results, pkgs)
}

#[test]
fn run_returns_packages() {
    let (results, mut pkgs) = setup();

    let rs = summarize(results);

    // the summary sorts the packages by name, so b,a,c is the order for
    // this instance
    pkgs.sort();

    assert_eq!(rs.packages, pkgs);
    assert_eq!(rs.update_names, vec!["WeirdPkg".to_string()]);
}

#[test]
fn summary_skips_paths_without_packages() {
    let (mut results, _) = setup();
    results.insert(1, None);
    results.push(None);
    let rs = summarize(results);
    assert_eq!(rs.packages.len(), 3);
    assert_eq!(rs.packages[0].name, "FunPkg");
}

#[test]
fn summary_does_not_depend_on_path_order() {
    let (results, _) = setup();
    let mut reversed = results.clone();
    reversed.reverse();
    let a = summarize(results);
    let b = summarize(reversed);
    assert_eq!(a.packages, b.packages);
    assert_eq!(a.update_names, b.update_names);
}

#[test]
fn update_names_follow_sorted_order() {
    let p = |n: &str, u: Option<&str>| Package {
        name: n.to_string(),
        current_version: "1".to_string(),
        update: u.map(|s| s.to_string()),
    };
    let rs = summarize(vec![Some(p("zeta", Some("2"))), None, Some(p("alpha", Some("3"))), Some(p("mid", None))]);
    assert_eq!(rs.update_names, vec!["alpha".to_string(), "zeta".to_string()]);
    assert!(summarize(vec![]).update_names.is_empty());
}
