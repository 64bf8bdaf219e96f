//! The package record that the rest of the library sorts and reports on.
use vstd::prelude::*;

use crate::text::{
    chars_lt, compare_str, lemma_chars_lt_irreflexive, lemma_chars_lt_transitive,
    lemma_chars_lt_trichotomy, Order,
};

verus! {

/// One installed package: its name, the version installed, and the newer
/// version available upstream, if any.
#[derive(Clone, Debug, PartialEq, Eq, PartialOrd, Ord)]
pub struct Package {
    pub name: String,
    pub current_version: String,
    pub update: Option<String>,
}

/// What a package holds, as character sequences.
pub struct PackageView {
    pub name: Seq<char>,
    pub current_version: Seq<char>,
    pub update: Option<Seq<char>>,
}

/// The characters of an optional string.
pub open spec fn opt_chars(o: Option<String>) -> Option<Seq<char>> {
    match o {
        Some(s) => Some(s@),
        None => None,
    }
}

impl View for Package {
    type V = PackageView;

    open spec fn view(&self) -> PackageView {
        PackageView {
            name: self.name@,
            current_version: self.current_version@,
            update: opt_chars(self.update),
        }
    }
}

/// Strict order on optional strings: no string comes before every string,
/// and two strings compare lexicographically.
pub open spec fn opt_chars_lt(a: Option<Seq<char>>, b: Option<Seq<char>>) -> bool {
    match (a, b) {
        (None, Some(_)) => true,
        (Some(x), Some(y)) => chars_lt(x, y),
        _ => false,
    }
}

/// Strict order on packages: by name, then by installed version, then by
/// available update, each compared as above.
pub open spec fn package_lt(a: PackageView, b: PackageView) -> bool {
    ||| chars_lt(a.name, b.name)
    ||| a.name == b.name && chars_lt(a.current_version, b.current_version)
    ||| a.name == b.name && a.current_version == b.current_version && opt_chars_lt(
        a.update,
        b.update,
    )
}

/// `a` may stand before `b` in sorted order.
pub open spec fn package_le(a: PackageView, b: PackageView) -> bool {
    !package_lt(b, a)
}

proof fn lemma_opt_chars_lt_order(a: Option<Seq<char>>, b: Option<Seq<char>>, c: Option<Seq<char>>)
    ensures
        !opt_chars_lt(a, a),
        a != b ==> (opt_chars_lt(a, b) || opt_chars_lt(b, a)),
        !(opt_chars_lt(a, b) && opt_chars_lt(b, a)),
        opt_chars_lt(a, b) && opt_chars_lt(b, c) ==> opt_chars_lt(a, c),
{
    match (a, b) {
        (Some(x), Some(y)) => {
            lemma_chars_lt_irreflexive(x);
            lemma_chars_lt_trichotomy(x, y);
        },
        (Some(x), None) => {
            lemma_chars_lt_irreflexive(x);
        },
        _ => {},
    }
    match (a, b, c) {
        (Some(x), Some(y), Some(z)) => {
            if chars_lt(x, y) && chars_lt(y, z) {
                lemma_chars_lt_transitive(x, y, z);
            }
        },
        _ => {},
    }
}

/// The package order is a strict total order on package views.
pub proof fn lemma_package_lt_order(a: PackageView, b: PackageView, c: PackageView)
    ensures
        !package_lt(a, a),
        !(package_lt(a, b) && package_lt(b, a)),
        package_lt(a, b) && package_lt(b, c) ==> package_lt(a, c),
        a != b ==> (package_lt(a, b) || package_lt(b, a)),
{
    lemma_chars_lt_irreflexive(a.name);
    lemma_chars_lt_irreflexive(a.current_version);
    lemma_chars_lt_trichotomy(a.name, b.name);
    lemma_chars_lt_trichotomy(a.current_version, b.current_version);
    lemma_chars_lt_trichotomy(b.name, c.name);
    lemma_chars_lt_trichotomy(a.name, c.name);
    lemma_opt_chars_lt_order(a.update, b.update, c.update);
    if chars_lt(a.name, b.name) && chars_lt(b.name, c.name) {
        lemma_chars_lt_transitive(a.name, b.name, c.name);
    }
    if chars_lt(a.current_version, b.current_version) && chars_lt(
        b.current_version,
        c.current_version,
    ) {
        lemma_chars_lt_transitive(a.current_version, b.current_version, c.current_version);
    }
    if a.name == b.name && a.current_version == b.current_version && a.update == b.update {
        assert(a == b);
    }
}

/// Law: how packages are ordered. Different names decide by name; equal
/// names and different installed versions decide by version; otherwise a
/// package without an update comes before one with an update, and two
/// updates decide by version text.
pub proof fn lemma_package_order_meaning(a: PackageView, b: PackageView)
    ensures
        a.name != b.name ==> (package_lt(a, b) <==> chars_lt(a.name, b.name)),
        a.name == b.name && a.current_version != b.current_version ==> (package_lt(a, b)
            <==> chars_lt(a.current_version, b.current_version)),
        a.name == b.name && a.current_version == b.current_version ==> (package_lt(a, b) <==> (
        a.update is None && b.update is Some || a.update is Some && b.update is Some && chars_lt(
            a.update->Some_0,
            b.update->Some_0,
        ))),
{
    lemma_chars_lt_irreflexive(a.name);
    lemma_chars_lt_irreflexive(a.current_version);
}

fn compare_opt_str(a: &Option<String>, b: &Option<String>) -> (r: Order)
    ensures
        r == Order::Less <==> opt_chars_lt(opt_chars(*a), opt_chars(*b)),
        r == Order::Equal <==> opt_chars(*a) == opt_chars(*b),
        r == Order::Greater <==> opt_chars_lt(opt_chars(*b), opt_chars(*a)),
{
    match (a, b) {
        (None, None) => Order::Equal,
        (None, Some(_)) => Order::Less,
        (Some(_), None) => Order::Greater,
        (Some(x), Some(y)) => compare_str(x.as_str(), y.as_str()),
    }
}

/// Three-way comparison of two packages in the package order.
pub fn compare_packages(a: &Package, b: &Package) -> (r: Order)
    ensures
        r == Order::Less <==> package_lt(a@, b@),
        r == Order::Equal <==> a@ == b@,
        r == Order::Greater <==> package_lt(b@, a@),
{
    proof {
        lemma_package_lt_order(a@, b@, a@);
    }
    match compare_str(a.name.as_str(), b.name.as_str()) {
        Order::Less => Order::Less,
        Order::Greater => Order::Greater,
        Order::Equal => match compare_str(a.current_version.as_str(), b.current_version.as_str()) {
            Order::Less => Order::Less,
            Order::Greater => Order::Greater,
            Order::Equal => compare_opt_str(&a.update, &b.update),
        },
    }
}

/// The text shown for an available update: the version, or nothing.
pub fn display_update(update: &Option<String>) -> (s: String)
    ensures
        s@ == match opt_chars(*update) {
            Some(v) => v,
            None => Seq::<char>::empty(),
        },
{
    match update {
        Some(v) => v.clone(),
        None => String::new(),
    }
}

} // verus!
