//! The Darwin flake: which installed packages are reported, under which
//! name they are looked up upstream, and how they are shown.
use vstd::prelude::*;

use crate::config::ConfigPkgs;
use crate::package::model::{opt_chars, Package, PackageView};
use crate::package::traits::GetsJSON;
use crate::package::util::{string_from_std, utf8_lossy};

verus! {

/// A Darwin flake and the source that answers queries about it.
pub struct Darwin<G> {
    /// The flake's directory.
    pub path: String,
    /// The configuration inside the flake.
    pub config_name: String,
    /// The source of package data.
    pub json_gen: G,
}

/// `name` is on the ignore list.
pub open spec fn is_ignored(ignore: Seq<String>, name: Seq<char>) -> bool {
    exists|i: int| 0 <= i < ignore.len() && (#[trigger] ignore[i])@ == name
}

/// The name that `overrides` gives for `name`: that of the first pair for it.
pub open spec fn override_for(overrides: Seq<(String, String)>, name: Seq<char>) -> Option<Seq<char>>
    decreases overrides.len(),
{
    if overrides.len() == 0 {
        None
    } else if overrides[0].0@ == name {
        Some(overrides[0].1@)
    } else {
        override_for(overrides.drop_first(), name)
    }
}

/// The name under which a package is looked up upstream; none when the
/// package is ignored or has no version, since such a package is not
/// reported.
pub open spec fn lookup_name(p: PackageView, ignore: Seq<String>, overrides: Seq<(String, String)>) -> Option<Seq<char>> {
    if is_ignored(ignore, p.name) || p.current_version.len() == 0 {
        None
    } else {
        match override_for(overrides, p.name) {
            Some(l) => Some(l),
            None => Some(p.name),
        }
    }
}

/// The name a reported package is shown under: its own, followed by the
/// looked-up name in parentheses when the two differ.
pub open spec fn shown_name(name: Seq<char>, lookup: Seq<char>) -> Seq<char> {
    if name == lookup {
        name
    } else {
        name + " ("@ + lookup + ")"@
    }
}

fn is_ignored_exec(ignore: &Vec<String>, name: &String) -> (r: bool)
    ensures
        r == is_ignored(ignore@, name@),
{
    let n = ignore.len();
    for i in 0..n
        invariant
            n == ignore@.len(),
            forall|j: int| 0 <= j < i ==> (#[trigger] ignore@[j])@ != name@,
    {
        if ignore[i] == *name {
            return true;
        }
    }
    false
}

fn override_for_exec(overrides: &Vec<(String, String)>, name: &String) -> (r: Option<String>)
    ensures
        opt_chars(r) == override_for(overrides@, name@),
{
    let n = overrides.len();
    let mut i: usize = 0;
    assert(overrides@.skip(0) =~= overrides@);
    while i < n
        invariant
            n == overrides@.len(),
            i <= n,
            override_for(overrides@, name@) == override_for(overrides@.skip(i as int), name@),
        decreases n - i,
    {
        assert(overrides@.skip(i as int).drop_first() =~= overrides@.skip(i + 1));
        if overrides[i].0 == *name {
            return Some(overrides[i].1.clone());
        }
        i = i + 1;
    }
    None
}

/// The name under which `package` is looked up upstream, or none when it is
/// not to be reported.
pub fn package_lookup_name(package: &Package, cfg_pkgs: &ConfigPkgs) -> (r: Option<String>)
    ensures
        opt_chars(r) == lookup_name(package@, cfg_pkgs.ignore@, cfg_pkgs.overrides@),
        r is None <==> ((exists|i: int|
            0 <= i < cfg_pkgs.ignore@.len() && (#[trigger] cfg_pkgs.ignore@[i])@ == package.name@)
            || package.current_version@.len() == 0),
        r is Some && (forall|j: int|
            0 <= j < cfg_pkgs.overrides@.len() ==> (#[trigger] cfg_pkgs.overrides@[j]).0@ != package.name@)
            ==> r->Some_0@ == package.name@,
        forall|j: int|
            0 <= j < cfg_pkgs.overrides@.len() && (#[trigger] cfg_pkgs.overrides@[j]).0@ == package.name@
                && (forall|k: int| 0 <= k < j ==> (#[trigger] cfg_pkgs.overrides@[k]).0@ != package.name@)
                ==> (r matches Some(l) ==> l@ == cfg_pkgs.overrides@[j].1@),
{
    proof {
        lemma_lookup_name_meaning(package@, cfg_pkgs.ignore@, cfg_pkgs.overrides@);
    }
    let is_ignored = is_ignored_exec(&cfg_pkgs.ignore, &package.name);
    let is_unversioned = package.current_version.as_str().is_empty();
    if is_ignored || is_unversioned {
        None
    } else {
        match override_for_exec(&cfg_pkgs.overrides, &package.name) {
            Some(l) => Some(l),
            None => Some(package.name.clone()),
        }
    }
}

/// `package` with the update found for it, shown under the name that tells
/// how it was looked up.
pub fn with_update(package: Package, lookup: &String, update: Option<String>) -> (r: Package)
    ensures
        r.name@ == shown_name(package.name@, lookup@),
        r.current_version@ == package.current_version@,
        r.update == update,
{
    let mut p = package;
    p.update = update;
    if p.name != *lookup {
        p.name.append(" (");
        p.name.append(lookup.as_str());
        p.name.append(")");
    }
    p
}

/// The text that `str::trim` leaves of `s`.
pub uninterp spec fn trimmed(s: Seq<char>) -> Seq<char>;

/// Calls `str::trim`. Trusted: the result is what that function leaves of
/// the input; which characters count as white space is not stated.
#[verifier::external_body]
fn trim_str(s: &str) -> (r: &str)
    ensures
        r@ == trimmed(s@),
{
    s.trim()
}

/// The host name in what `hostname -s` printed, without surrounding white
/// space.
pub fn hostname_from_output(stdout: &[u8]) -> (r: String)
    ensures
        r@ == trimmed(utf8_lossy(stdout@)),
{
    let text = string_from_std(stdout);
    String::from_str(trim_str(text.as_str()))
}

/// The variable that a setting names when it is written `$NAME`.
pub open spec fn env_var_name(setting: Seq<char>) -> Option<Seq<char>> {
    if setting.len() >= 2 && setting[0] == '$' {
        Some(setting.skip(1))
    } else {
        None
    }
}

/// The name of the environment variable that `setting` refers to, when it
/// is written `$NAME`; none when the setting is to be taken as it is.
pub fn env_var_reference(setting: &str) -> (r: Option<String>)
    ensures
        opt_chars(r) == env_var_name(setting@),
{
    let n = setting.unicode_len();
    if n >= 2 && setting.get_char(0) == '$' {
        Some(String::from_str(setting.substring_char(1, n)))
    } else {
        None
    }
}

/// With no pair for `name`, the overrides give nothing for it; otherwise
/// they give the second half of the first pair for it.
proof fn lemma_override_for_first(overrides: Seq<(String, String)>, name: Seq<char>)
    ensures
        (forall|j: int| 0 <= j < overrides.len() ==> (#[trigger] overrides[j]).0@ != name)
            ==> override_for(overrides, name) is None,
        forall|j: int|
            0 <= j < overrides.len() && (#[trigger] overrides[j]).0@ == name && (forall|k: int|
                0 <= k < j ==> (#[trigger] overrides[k]).0@ != name)
                ==> override_for(overrides, name) == Some(overrides[j].1@),
    decreases overrides.len(),
{
    if overrides.len() > 0 {
        let rest = overrides.drop_first();
        lemma_override_for_first(rest, name);
        assert forall|j: int|
            0 <= j < overrides.len() && (#[trigger] overrides[j]).0@ == name && (forall|k: int|
                0 <= k < j ==> (#[trigger] overrides[k]).0@ != name)
                implies override_for(overrides, name) == Some(overrides[j].1@) by {
            if j > 0 {
                assert(overrides[0].0@ != name);
                assert(rest[j - 1] == overrides[j]);
                assert forall|k: int| 0 <= k < j - 1 implies (#[trigger] rest[k]).0@ != name by {
                    assert(rest[k] == overrides[k + 1]);
                }
            }
        }
        if forall|j: int| 0 <= j < overrides.len() ==> (#[trigger] overrides[j]).0@ != name {
            assert(overrides[0].0@ != name);
            assert forall|j: int| 0 <= j < rest.len() implies (#[trigger] rest[j]).0@ != name by {
                assert(rest[j] == overrides[j + 1]);
            }
        }
    }
}

/// Law: what the lookup name is, in terms of the settings. A package is
/// skipped exactly when its name is an entry of the ignore list or its
/// version is empty; otherwise it is looked up under the second half of the
/// first override pair for its name, or under its own name when there is
/// no such pair.
pub proof fn lemma_lookup_name_meaning(
    p: PackageView,
    ignore: Seq<String>,
    overrides: Seq<(String, String)>,
)
    ensures
        lookup_name(p, ignore, overrides) is None <==> ((exists|i: int|
            0 <= i < ignore.len() && (#[trigger] ignore[i])@ == p.name) || p.current_version.len() == 0),
        lookup_name(p, ignore, overrides) is Some && (forall|j: int|
            0 <= j < overrides.len() ==> (#[trigger] overrides[j]).0@ != p.name)
            ==> lookup_name(p, ignore, overrides) == Some(p.name),
        forall|j: int|
            0 <= j < overrides.len() && (#[trigger] overrides[j]).0@ == p.name && (forall|k: int|
                0 <= k < j ==> (#[trigger] overrides[k]).0@ != p.name)
                ==> (lookup_name(p, ignore, overrides) is Some ==> lookup_name(p, ignore, overrides)
                == Some(overrides[j].1@)),
{
    lemma_override_for_first(overrides, p.name);
}

/// Law: a package that is on the ignore list, or that has no version, is
/// never looked up and never reported.
pub proof fn lemma_ignored_or_unversioned_not_reported(
    p: PackageView,
    ignore: Seq<String>,
    overrides: Seq<(String, String)>,
)
    requires
        is_ignored(ignore, p.name) || p.current_version.len() == 0,
    ensures
        lookup_name(p, ignore, overrides) is None,
{
}

/// Law: a reported package is shown under its own name when it was looked
/// up under that name; otherwise under its own name, a space, and the
/// looked-up name in parentheses.
pub proof fn lemma_shown_name_extends_name(name: Seq<char>, lookup: Seq<char>)
    ensures
        shown_name(name, lookup).len() >= name.len(),
        shown_name(name, lookup).take(name.len() as int) == name,
        shown_name(name, lookup) == name <==> name == lookup,
        name != lookup ==> {
            let s = shown_name(name, lookup);
            &&& s.len() == name.len() + lookup.len() + 3
            &&& s[name.len() as int] == ' '
            &&& s[name.len() + 1int] == '('
            &&& s.subrange(name.len() + 2int, name.len() + 2int + lookup.len()) == lookup
            &&& s.last() == ')'
        },
{
    reveal_strlit(" (");
    reveal_strlit(")");
    if name != lookup {
        let s = name + " ("@ + lookup + ")"@;
        assert(s.take(name.len() as int) =~= name);
        assert(s.subrange(name.len() + 2int, name.len() + 2int + lookup.len()) =~= lookup);
        assert(s.len() > name.len());
    } else {
        assert(name.take(name.len() as int) =~= name);
    }
}

impl<G: GetsJSON> Darwin<G> {
    /// The flake's directory.
    pub fn path(&self) -> (r: &str)
        ensures
            r@ == self.path@,
    {
        self.path.as_str()
    }

    /// The configuration inside the flake.
    pub fn config_name(&self) -> (r: &str)
        ensures
            r@ == self.config_name@,
    {
        self.config_name.as_str()
    }

    /// Decides what becomes of an installed package: none when it is ignored
    /// or has no version; otherwise it is looked up upstream and comes back
    /// with the update found, under the name that tells how it was looked up.
    /// A failed lookup is passed on.
    pub fn resolve_package(&self, package: Package, cfg_pkgs: &ConfigPkgs) -> (r: Result<Option<Package>, G::Error>)
        ensures
            lookup_name(package@, cfg_pkgs.ignore@, cfg_pkgs.overrides@) is None ==> r matches Ok(None),
            lookup_name(package@, cfg_pkgs.ignore@, cfg_pkgs.overrides@) matches Some(l) ==> (
                r matches Ok(o) ==> (o matches Some(p) && p.name@ == shown_name(package.name@, l)
                    && p.current_version@ == package.current_version@)),
            lookup_name(package@, cfg_pkgs.ignore@, cfg_pkgs.overrides@) matches Some(l) ==> (
                exists|a: &str, b: &str| #![trigger a@, b@] a@ == l && b@ == package.current_version@
                    && match r {
                    Ok(Some(p)) => call_ensures(G::unstable_version_generator, (&self.json_gen, a, b), Ok(p.update)),
                    Ok(None) => false,
                    Err(e) => call_ensures(G::unstable_version_generator, (&self.json_gen, a, b), Err(e)),
                }),
    {
        match package_lookup_name(&package, cfg_pkgs) {
            None => Ok(None),
            Some(lookup) => {
                match self.json_gen.unstable_version_generator(
                    lookup.as_str(),
                    package.current_version.as_str(),
                ) {
                    Ok(update) => Ok(Some(with_update(package, &lookup, update))),
                    Err(e) => Err(e),
                }
            },
        }
    }
}

} // verus!
