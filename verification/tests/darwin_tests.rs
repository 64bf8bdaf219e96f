use std::convert::Infallible;

use platypus_powder_ping::config::ConfigPkgs;
use platypus_powder_ping::package::darwin::{package_lookup_name, with_update};
use platypus_powder_ping::package::{Darwin, GetsJSON, Package};
use platypus_powder_ping::summary::{summarize, RunSummary};

struct MockEval<F>
where
    F: Fn(&str) -> String,
{
    //this is the only thing that changes between tests.
    package_logic: F,
}

impl<F: Fn(&str) -> String> GetsJSON for MockEval<F> {
    type Error = Infallible;

    fn path_generator(&self, _path: &str, _config_name: &str) -> Result<Vec<String>, Infallible> {
        let paths: Vec<String> = vec!["path_a".into(), "path_b".into()];
        Ok(paths)
    }
    fn package_generator(&self, store_path: &str) -> Result<String, Infallible> {
        let logic = &self.package_logic;
        Ok(logic(store_path))
    }

    fn unstable_version_generator(
        &self,
        _package_name: &str,
        _current_version: &str,
    ) -> Result<Option<String>, Infallible> {
        Ok(None)
    }
}

fn get_test_darwin<G: GetsJSON>(json_gen: G) -> Darwin<G> {
    Darwin {
        path: "/some/dir".to_string(),
        config_name: "config name".to_string(),
        json_gen,
    }
}

fn package_from_json(json: &str) -> Package {
    let v: serde_json::Value = serde_json::from_str(json).unwrap();
    Package {
        name: v["name"].as_str().unwrap().to_string(),
        current_version: v["current_version"].as_str().unwrap().to_string(),
        update: None,
    }
}

fn run<G: GetsJSON>(flake: &Darwin<G>, pkgs: ConfigPkgs) -> RunSummary
where
    G::Error: std::fmt::Debug,
{
    let paths = flake.json_gen.path_generator(flake.path(), flake.config_name()).unwrap();
    let options: Vec<Option<Package>> = paths
        .iter()
        .map(|path| {
            let json = flake.json_gen.package_generator(path).unwrap();
            flake.resolve_package(package_from_json(&json), &pkgs).unwrap()
        })
        .collect();
    summarize(options)
}

fn codebook_and_ripgrep(store_path: &str) -> String {
    if store_path == "path_a" {
        "{\"current_version\":\"0.3.42\",\"name\":\"codebook\"}\n".to_string()
    } else {
        "{\"current_version\":\"15.2.0\",\"name\":\"ripgrep\"}\n".to_string()
    }
}

#[test]
fn option_package_from_path_filters_ignored() {
    let eval = MockEval { package_logic: codebook_and_ripgrep };

    let flake = get_test_darwin(eval);

    let pkgs = ConfigPkgs {
        ignore: vec!["codebook".into()],
        overrides: vec![],
    };

    let rs = run(&flake, pkgs);

    let codebook = rs.packages.iter().find(|pkg| pkg.name == "codebook");
    assert!(codebook.is_none());
}

#[test]
fn option_package_from_path_overrides() {
    let eval = MockEval { package_logic: codebook_and_ripgrep };

    let pkgs = ConfigPkgs {
        ignore: vec![],
        overrides: vec![("ripgrep".into(), "rg".into())],
    };

    let flake = get_test_darwin(eval);

    let rs = run(&flake, pkgs);

    let ripgrep = rs.packages.iter().find(|pkg| pkg.name == "ripgrep (rg)");

    assert!(ripgrep.is_some());
}

#[test]
fn option_package_from_path_ignore_unversioned() {
    let eval = MockEval {
        package_logic: |store_path: &str| {
            if store_path == "path_a" {
                "{\"current_version\":\"\",\"name\":\"codebook\"}\n".to_string()
            } else {
                "{\"current_version\":\"15.2.0\",\"name\":\"ripgrep\"}\n".to_string()
            }
        },
    };

    let pkgs = ConfigPkgs {
        ignore: vec![],
        overrides: vec![],
    };

    let flake = get_test_darwin(eval);

    let rs = run(&flake, pkgs);

    let codebook = rs.packages.iter().find(|pkg| pkg.name == "codebook");
    let ripgrep = rs.packages.iter().find(|pkg| pkg.name == "ripgrep");

    assert!(ripgrep.is_some());
    assert!(codebook.is_none());
}

struct UpstreamHas(&'static str);

impl GetsJSON for UpstreamHas {
    type Error = String;

    fn path_generator(&self, _path: &str, _config_name: &str) -> Result<Vec<String>, String> {
        Ok(vec![])
    }
    fn package_generator(&self, _store_path: &str) -> Result<String, String> {
        Err("unused".to_string())
    }
    fn unstable_version_generator(&self, package_name: &str, current_version: &str) -> Result<Option<String>, String> {
        if package_name == "missing" {
            Err(format!("no {package_name}"))
        } else if self.0 != current_version {
            Ok(Some(self.0.to_string()))
        } else {
            Ok(None)
        }
    }
}

fn pkg(name: &str, version: &str) -> Package {
    Package { name: name.to_string(), current_version: version.to_string(), update: None }
}

#[test]
fn resolved_package_carries_the_update() {
    let flake = get_test_darwin(UpstreamHas("2.0"));
    let cfg = ConfigPkgs { ignore: vec![], overrides: vec![] };
    let p = flake.resolve_package(pkg("git", "1.0"), &cfg).unwrap().unwrap();
    assert_eq!(p, Package { name: "git".into(), current_version: "1.0".into(), update: Some("2.0".into()) });
    let q = flake.resolve_package(pkg("git", "2.0"), &cfg).unwrap().unwrap();
    assert_eq!(q.update, None);
}

#[test]
fn failed_lookup_is_passed_on() {
    let flake = get_test_darwin(UpstreamHas("2.0"));
    let cfg = ConfigPkgs { ignore: vec![], overrides: vec![("thing".into(), "missing".into())] };
    assert_eq!(flake.resolve_package(pkg("thing", "1"), &cfg), Err("no missing".to_string()));
    let ignored = ConfigPkgs { ignore: vec!["thing".into()], overrides: vec![("thing".into(), "missing".into())] };
    assert_eq!(flake.resolve_package(pkg("thing", "1"), &ignored), Ok(None));
}

#[test]
fn first_override_counts() {
    let cfg = ConfigPkgs {
        ignore: vec!["other".into()],
        overrides: vec![("a".into(), "x".into()), ("a".into(), "y".into())],
    };
    assert_eq!(package_lookup_name(&pkg("a", "1"), &cfg), Some("x".to_string()));
    assert_eq!(package_lookup_name(&pkg("b", "1"), &cfg), Some("b".to_string()));
    assert_eq!(package_lookup_name(&pkg("other", "1"), &cfg), None);
    assert_eq!(package_lookup_name(&pkg("b", ""), &cfg), None);
}

#[test]
fn name_is_annotated_only_when_looked_up_elsewhere() {
    let p = with_update(pkg("ripgrep", "15"), &"rg".to_string(), Some("16".into()));
    assert_eq!(p.name, "ripgrep (rg)");
    assert_eq!(p.update, Some("16".to_string()));
    let q = with_update(pkg("ripgrep", "15"), &"ripgrep".to_string(), None);
    assert_eq!(q.name, "ripgrep");
}

#[test]
fn darwin_getters() {
    let flake = get_test_darwin(UpstreamHas("1"));
    assert_eq!(flake.path(), "/some/dir");
    assert_eq!(flake.config_name(), "config name");
}
