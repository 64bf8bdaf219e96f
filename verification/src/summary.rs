//! What a run reports once every path of the flake has been examined: the
//! packages in sorted order and the names of those with an update.
use vstd::multiset::Multiset;
use vstd::prelude::*;

use crate::package::model::{
    compare_packages, lemma_package_lt_order, package_le, package_lt, PackageView,
};
use crate::package::Package;
use crate::text::{strings_view, Order};

verus! {

broadcast use {vstd::multiset::group_multiset_properties, vstd::seq_lib::group_to_multiset_ensures};

/// The outcome of a run.
pub struct RunSummary {
    pub packages: Vec<Package>,
    pub update_names: Vec<String>,
}

/// The packages that the examined paths yielded, in path order.
pub open spec fn installed(options: Seq<Option<Package>>) -> Seq<Package>
    decreases options.len(),
{
    if options.len() == 0 {
        Seq::empty()
    } else {
        match options[0] {
            Some(p) => seq![p] + installed(options.drop_first()),
            None => installed(options.drop_first()),
        }
    }
}

/// Every package may stand before every later one.
pub open spec fn is_sorted(s: Seq<Package>) -> bool {
    forall|i: int, j: int| 0 <= i < j < s.len() ==> package_le(#[trigger] s[i]@, #[trigger] s[j]@)
}

/// The names of the packages that have an update, in order.
pub open spec fn names_with_updates(s: Seq<Package>) -> Seq<Seq<char>>
    decreases s.len(),
{
    if s.len() == 0 {
        Seq::empty()
    } else if s.last().update is Some {
        names_with_updates(s.drop_last()).push(s.last().name@)
    } else {
        names_with_updates(s.drop_last())
    }
}

/// Law: the names with updates are, in order, the name of each package
/// whose update is present, and nothing else.
pub proof fn lemma_names_with_updates_meaning(s: Seq<Package>)
    ensures
        names_with_updates(s) == s.filter_map(
            |p: Package|
                if p.update is Some {
                    Some(p.name@)
                } else {
                    None
                },
        ),
    decreases s.len(),
{
    if s.len() > 0 {
        lemma_names_with_updates_meaning(s.drop_last());
        let f = |p: Package|
            if p.update is Some {
                Some(p.name@)
            } else {
                None
            };
        assert(s.filter_map(f) == if s.last().update is Some {
            s.drop_last().filter_map(f) + seq![s.last().name@]
        } else {
            s.drop_last().filter_map(f)
        });
        assert(names_with_updates(s.drop_last()).push(s.last().name@) =~= names_with_updates(
            s.drop_last(),
        ) + seq![s.last().name@]);
    }
}

/// Taking what one more path yielded onto the end of the answers.
proof fn lemma_installed_push(o: Seq<Option<Package>>, x: Option<Package>)
    ensures
        installed(o.push(x)) == match x {
            Some(p) => installed(o).push(p),
            None => installed(o),
        },
    decreases o.len(),
{
    if o.len() == 0 {
        assert(o.push(x).drop_first() =~= o);
        assert(installed(o) =~= Seq::<Package>::empty());
        match x {
            Some(p) => {
                assert(seq![p] + Seq::<Package>::empty() =~= Seq::<Package>::empty().push(p));
            },
            None => {},
        }
    } else {
        lemma_installed_push(o.drop_first(), x);
        assert(o.push(x).drop_first() =~= o.drop_first().push(x));
        match (o[0], x) {
            (Some(q), Some(p)) => {
                assert(seq![q] + installed(o.drop_first()).push(p) =~= (seq![q] + installed(
                    o.drop_first(),
                )).push(p));
            },
            _ => {},
        }
    }
}

/// Law: the installed packages are, in order, the package of each path that
/// yielded one, and nothing else.
pub proof fn lemma_installed_meaning(o: Seq<Option<Package>>)
    ensures
        installed(o) == o.filter_map(|x: Option<Package>| x),
    decreases o.len(),
{
    if o.len() > 0 {
        lemma_installed_meaning(o.drop_last());
        lemma_installed_push(o.drop_last(), o.last());
        assert(o.drop_last().push(o.last()) =~= o);
        match o.last() {
            Some(p) => {
                assert(installed(o.drop_last()).push(p) =~= installed(o.drop_last()) + seq![p]);
            },
            None => {},
        }
    }
}

/// Puts packages in the package order.
pub fn sort_packages(v: Vec<Package>) -> (r: Vec<Package>)
    ensures
        r@.to_multiset() == v@.to_multiset(),
        is_sorted(r@),
{
    let ghost orig = v@;
    let mut rest = v;
    let mut out: Vec<Package> = Vec::new();
    while rest.len() > 0
        invariant
            is_sorted(out@),
            out@.to_multiset().add(rest@.to_multiset()) == orig.to_multiset(),
        decreases rest.len(),
    {
        let ghost before = rest@;
        let p = rest.pop().unwrap();
        assert(before =~= rest@.push(p));
        let mut k: usize = 0;
        let mut found = false;
        while k < out.len() && !found
            invariant
                k <= out.len(),
                forall|j: int| 0 <= j < k ==> !package_lt(p@, #[trigger] out@[j]@),
                found ==> k < out.len() && package_lt(p@, out@[k as int]@),
            decreases out.len() - k + (if found { 0int } else { 1int }),
        {
            match compare_packages(&p, &out[k]) {
                Order::Less => {
                    found = true;
                },
                _ => {
                    proof {
                        lemma_package_lt_order(p@, out@[k as int]@, p@);
                    }
                    k = k + 1;
                },
            }
        }
        let ghost old_out = out@;
        out.insert(k, p);
        proof {
            assert(out@ == old_out.insert(k as int, p));
            assert forall|i: int, j: int| 0 <= i < j < out@.len() implies package_le(
                #[trigger] out@[i]@,
                #[trigger] out@[j]@,
            ) by {
                if j < k {
                    assert(out@[i] == old_out[i] && out@[j] == old_out[j]);
                } else if i > k {
                    assert(out@[i] == old_out[i - 1] && out@[j] == old_out[j - 1]);
                } else if j == k {
                    assert(out@[i] == old_out[i] && out@[j] == p);
                } else if i == k {
                    assert(out@[j] == old_out[j - 1] && out@[i] == p);
                    let q = old_out[j - 1];
                    let f = old_out[k as int];
                    lemma_package_lt_order(q@, p@, f@);
                    lemma_package_lt_order(q@, f@, q@);
                    if j - 1 > k {
                        assert(package_le(old_out[k as int]@, old_out[j - 1]@));
                    }
                } else {
                    assert(i < k < j);
                    assert(out@[i] == old_out[i] && out@[j] == old_out[j - 1]);
                }
            }
            vstd::seq_lib::to_multiset_insert(old_out, k as int, p);
            vstd::seq_lib::to_multiset_build(rest@, p);
        }
    }
    proof {
        assert(rest@.to_multiset() =~= Multiset::empty());
    }
    out
}

/// Sorts what the examined paths yielded and lists the packages that have
/// an update.
pub fn summarize(options: Vec<Option<Package>>) -> (r: RunSummary)
    ensures
        r.packages@.to_multiset() == installed(options@).to_multiset(),
        is_sorted(r.packages@),
        strings_view(r.update_names@) == names_with_updates(r.packages@),
        r.packages@.to_multiset() == options@.filter_map(|x: Option<Package>| x).to_multiset(),
        strings_view(r.update_names@) == r.packages@.filter_map(
            |p: Package|
                if p.update is Some {
                    Some(p.name@)
                } else {
                    None
                },
        ),
{
    proof {
        lemma_installed_meaning(options@);
    }
    let ghost all = options@;
    let mut rest = options;
    let mut flat: Vec<Package> = Vec::new();
    assert(rest@ =~= all);
    while rest.len() > 0
        invariant
            flat@ + installed(rest@) == installed(all),
        decreases rest.len(),
    {
        let ghost before = rest@;
        let o = rest.remove(0);
        assert(rest@ =~= before.drop_first());
        match o {
            Some(p) => {
                assert(flat@.push(p) + installed(rest@) =~= flat@ + (seq![p] + installed(rest@)));
                flat.push(p);
            },
            None => {},
        }
    }
    assert(flat@ =~= installed(all));
    let packages = sort_packages(flat);
    let mut update_names: Vec<String> = Vec::new();
    let n = packages.len();
    for i in 0..n
        invariant
            n == packages@.len(),
            strings_view(update_names@) == names_with_updates(packages@.take(i as int)),
    {
        assert(packages@.take(i + 1).drop_last() =~= packages@.take(i as int));
        if packages[i].update.is_some() {
            update_names.push(packages[i].name.clone());
        }
        assert(strings_view(update_names@) =~= names_with_updates(packages@.take(i + 1)));
    }
    assert(packages@.take(n as int) =~= packages@);
    proof {
        lemma_names_with_updates_meaning(packages@);
    }
    RunSummary { packages, update_names }
}

/// The views of the packages, in order.
pub open spec fn views(s: Seq<Package>) -> Seq<PackageView> {
    s.map_values(|p: Package| p@)
}

/// Two sorted arrangements of the same packages show the same packages in
/// the same order.
pub proof fn lemma_sorted_arrangements_agree(a: Seq<Package>, b: Seq<Package>)
    requires
        is_sorted(a),
        is_sorted(b),
        a.to_multiset() == b.to_multiset(),
    ensures
        views(a) == views(b),
    decreases a.len(),
{
    vstd::seq_lib::to_multiset_len(a);
    vstd::seq_lib::to_multiset_len(b);
    if a.len() == 0 {
        assert(views(a) =~= views(b));
    } else {
        let x = a[0];
        vstd::seq_lib::to_multiset_contains(a, x);
        vstd::seq_lib::to_multiset_contains(b, x);
        assert(a.contains(x));
        let k = choose|k: int| 0 <= k < b.len() && b[k] == x;
        let y = b[0];
        vstd::seq_lib::to_multiset_contains(a, y);
        vstd::seq_lib::to_multiset_contains(b, y);
        assert(b.contains(y));
        let j = choose|j: int| 0 <= j < a.len() && a[j] == y;
        if j > 0 {
            assert(package_le(a[0]@, a[j]@));
        }
        if k > 0 {
            assert(package_le(b[0]@, b[k]@));
        }
        lemma_package_lt_order(x@, y@, x@);
        assert(x@ == y@);
        assert forall|i: int| 0 <= i <= k implies (#[trigger] b[i])@ == x@ by {
            if 0 < i {
                assert(package_le(b[0]@, b[i]@));
            }
            if i < k {
                assert(package_le(b[i]@, b[k]@));
            }
            lemma_package_lt_order(b[i]@, x@, x@);
        }
        let a2 = a.drop_first();
        let b2 = b.remove(k);
        assert(a2 =~= a.remove(0));
        vstd::seq_lib::to_multiset_remove(a, 0);
        vstd::seq_lib::to_multiset_remove(b, k);
        assert forall|i: int, l: int| 0 <= i < l < b2.len() implies package_le(
            #[trigger] b2[i]@,
            #[trigger] b2[l]@,
        ) by {
            let bi = if i < k { i } else { i + 1 };
            let bl = if l < k { l } else { l + 1 };
            assert(b2[i] == b[bi] && b2[l] == b[bl]);
            assert(package_le(b[bi]@, b[bl]@));
        }
        assert forall|i: int, l: int| 0 <= i < l < a2.len() implies package_le(
            #[trigger] a2[i]@,
            #[trigger] a2[l]@,
        ) by {
            assert(package_le(a[i + 1]@, a[l + 1]@));
        }
        lemma_sorted_arrangements_agree(a2, b2);
        assert forall|i: int| 0 <= i < b.len() implies #[trigger] views(b)[i] == views(a)[i] by {
            if i == 0 {
            } else if i <= k {
                assert(views(a)[i] == views(a2)[i - 1]);
                assert(views(b2)[i - 1] == b[i - 1]@);
            } else {
                assert(views(a)[i] == views(a2)[i - 1]);
                assert(views(b2)[i - 1] == b[i]@);
            }
        }
        assert(views(a) =~= views(b));
    }
}

/// Which names have updates depends only on what the packages show.
proof fn lemma_names_follow_views(a: Seq<Package>, b: Seq<Package>)
    requires
        views(a) == views(b),
    ensures
        names_with_updates(a) == names_with_updates(b),
    decreases a.len(),
{
    assert(a.len() == views(a).len() && b.len() == views(b).len());
    if a.len() > 0 {
        assert(views(a.drop_last()) =~= views(a).drop_last());
        assert(views(b.drop_last()) =~= views(b).drop_last());
        lemma_names_follow_views(a.drop_last(), b.drop_last());
        assert(views(a)[a.len() - 1] == views(b)[b.len() - 1]);
        assert(a.last()@ == b.last()@);
    }
}

/// Each package occurs among the installed ones as often as the examined
/// paths yielded it.
proof fn lemma_installed_count(o: Seq<Option<Package>>, p: Package)
    ensures
        installed(o).to_multiset().count(p) == o.to_multiset().count(Some(p)),
    decreases o.len(),
{
    if o.len() > 0 {
        lemma_installed_count(o.drop_first(), p);
        assert(o =~= seq![o[0]] + o.drop_first());
        vstd::seq_lib::lemma_multiset_commutative(seq![o[0]], o.drop_first());
        match o[0] {
            Some(q) => {
                vstd::seq_lib::lemma_multiset_commutative(seq![q], installed(o.drop_first()));
            },
            None => {},
        }
    }
}

/// Law: the summary depends only on what the examined paths yielded, not on
/// the order in which they were examined. Any two summaries that `summarize`
/// may give for the same answers in two orders show the same packages in the
/// same order and the same names with updates.
pub proof fn lemma_summary_order_independent(
    o1: Seq<Option<Package>>,
    o2: Seq<Option<Package>>,
    p1: Seq<Package>,
    p2: Seq<Package>,
)
    requires
        o1.to_multiset() == o2.to_multiset(),
        p1.to_multiset() == installed(o1).to_multiset(),
        is_sorted(p1),
        p2.to_multiset() == installed(o2).to_multiset(),
        is_sorted(p2),
    ensures
        views(p1) == views(p2),
        names_with_updates(p1) == names_with_updates(p2),
{
    assert forall|p: Package| #[trigger] installed(o1).to_multiset().count(p) == installed(
        o2,
    ).to_multiset().count(p) by {
        lemma_installed_count(o1, p);
        lemma_installed_count(o2, p);
    }
    assert(installed(o1).to_multiset() =~= installed(o2).to_multiset());
    lemma_sorted_arrangements_agree(p1, p2);
    lemma_names_follow_views(p1, p2);
}

} // verus!
