//! The registry of known branches: one record per name, remote records first.

use vstd::prelude::*;
use crate::repository::{BranchView, RemoteBranch, branch_views, names_of};
use crate::config::Config;
use crate::text::{same_text, views};

verus! {

/// `acc` followed by each record of `items` whose name is not there yet, in order:
/// the first record of a name wins.
pub open spec fn merged(acc: Seq<BranchView>, items: Seq<BranchView>) -> Seq<BranchView>
    decreases items.len(),
{
    if items.len() == 0 {
        acc
    } else {
        let prev = merged(acc, items.drop_last());
        if names_of(prev).contains(items.last().name) {
            prev
        } else {
            prev.push(items.last())
        }
    }
}

/// The names of `scan` that `known` lacks and `ignored` lets through, each once, in
/// scan order.
pub open spec fn discovered(
    scan: Seq<Seq<char>>,
    known: Seq<Seq<char>>,
    ignored: spec_fn(Seq<char>) -> bool,
) -> Seq<Seq<char>>
    decreases scan.len(),
{
    if scan.len() == 0 {
        Seq::empty()
    } else {
        let prev = discovered(scan.drop_last(), known, ignored);
        let n = scan.last();
        if !known.contains(n) && !scan.drop_last().contains(n) && !ignored(n) {
            prev.push(n)
        } else {
            prev
        }
    }
}

/// The names of `names` that `present` lacks, in order.
pub open spec fn missing_from(names: Seq<Seq<char>>, present: Seq<Seq<char>>) -> Seq<Seq<char>>
    decreases names.len(),
{
    if names.len() == 0 {
        Seq::empty()
    } else {
        let prev = missing_from(names.drop_last(), present);
        if present.contains(names.last()) {
            prev
        } else {
            prev.push(names.last())
        }
    }
}

/// The ignore rule of `config`, as a predicate on names.
pub open spec fn ignored_by(config: Config) -> spec_fn(Seq<char>) -> bool {
    |n: Seq<char>| config.ignores(n)
}

/// A name is in a merge exactly when it is in one of the two parts.
pub proof fn lemma_merged_names(acc: Seq<BranchView>, items: Seq<BranchView>, n: Seq<char>)
    ensures
        names_of(merged(acc, items)).contains(n) <==> (names_of(acc).contains(n) || names_of(
            items,
        ).contains(n)),
    decreases items.len(),
{
    if items.len() > 0 {
        let prev = merged(acc, items.drop_last());
        let x = items.last();
        lemma_merged_names(acc, items.drop_last(), n);
        lemma_names_push(items.drop_last(), x, n);
        assert(items.drop_last().push(x) == items);
        if !names_of(prev).contains(x.name) {
            lemma_names_push(prev, x, n);
        }
    }
}

proof fn lemma_names_push(s: Seq<BranchView>, x: BranchView, n: Seq<char>)
    ensures
        names_of(s.push(x)).contains(n) <==> (names_of(s).contains(n) || x.name == n),
{
    let t = names_of(s.push(x));
    assert(t =~= names_of(s).push(x.name));
    if t.contains(n) && x.name != n {
        let k = choose|k: int| 0 <= k < t.len() && t[k] == n;
        assert(names_of(s)[k] == n);
    }
    if names_of(s).contains(n) {
        let k = choose|k: int| 0 <= k < names_of(s).len() && names_of(s)[k] == n;
        assert(t[k] == n);
    }
    if x.name == n {
        assert(t[s.len() as int] == n);
    }
}

/// The position of the record named `name`, if any.
pub fn find_branch(v: &Vec<RemoteBranch>, name: &str) -> (r: Option<usize>)
    ensures
        r is None <==> !names_of(branch_views(v@)).contains(name@),
        r matches Some(k) ==> k < v@.len() && v@[k as int].name@ == name@,
{
    let mut i: usize = 0;
    while i < v.len()
        invariant
            i <= v.len(),
            forall|j: int| 0 <= j < i ==> v@[j].name@ != name@,
        decreases v.len() - i,
    {
        if same_text(v[i].name.as_str(), name) {
            assert(names_of(branch_views(v@))[i as int] == name@);
            return Some(i);
        }
        i = i + 1;
    }
    assert forall|j: int| 0 <= j < names_of(branch_views(v@)).len() implies names_of(
        branch_views(v@),
    )[j] != name@ by {
        assert(names_of(branch_views(v@))[j] == v@[j].name@);
    }
    None
}

/// Appends to `acc` each record of `items` whose name it does not hold yet.
pub fn merge_into(acc: &mut Vec<RemoteBranch>, items: &Vec<RemoteBranch>)
    requires
        names_of(branch_views(old(acc)@)).no_duplicates(),
    ensures
        names_of(branch_views(final(acc)@)).no_duplicates(),
        branch_views(final(acc)@) == merged(branch_views(old(acc)@), branch_views(items@)),
{
    let mut i: usize = 0;
    while i < items.len()
        invariant
            i <= items.len(),
            names_of(branch_views(acc@)).no_duplicates(),
            branch_views(acc@) == merged(
                branch_views(old(acc)@),
                branch_views(items@).subrange(0, i as int),
            ),
        decreases items.len() - i,
    {
        let ghost pre = branch_views(items@).subrange(0, i + 1);
        proof {
            assert(pre.drop_last() == branch_views(items@).subrange(0, i as int));
            assert(pre.last() == items@[i as int]@);
        }
        match find_branch(acc, items[i].name.as_str()) {
            Some(_) => {},
            None => {
                let ghost before = names_of(branch_views(acc@));
                acc.push(items[i].copy());
                proof {
                    let after = names_of(branch_views(acc@));
                    assert(after =~= before.push(items@[i as int].name@));
                    assert forall|p: int, q: int|
                        0 <= p < after.len() && 0 <= q < after.len() && p != q implies after[p]
                        != after[q] by {
                        if p < before.len() && q < before.len() {
                            assert(after[p] == before[p]);
                            assert(after[q] == before[q]);
                        } else if p < before.len() {
                            assert(after[p] == before[p]);
                            assert(before.contains(before[p]));
                        } else if q < before.len() {
                            assert(after[q] == before[q]);
                            assert(before.contains(before[q]));
                        }
                    }
                    assert(branch_views(acc@) =~= merged(branch_views(old(acc)@), pre));
                }
            },
        }
        i = i + 1;
    }
    assert(branch_views(items@).subrange(0, items.len() as int) == branch_views(items@));
}

/// The registry that a scan of `remote` and `local` branches gives, and the names
/// of `remote` that `known` lacked and `config` does not ignore.
pub fn reconcile_scan(
    known: &Vec<RemoteBranch>,
    remote: &Vec<RemoteBranch>,
    local: &Vec<RemoteBranch>,
    config: &Config,
) -> (r: (Vec<RemoteBranch>, Vec<String>))
    ensures
        names_of(branch_views(r.0@)).no_duplicates(),
        branch_views(r.0@) == merged(merged(Seq::empty(), branch_views(remote@)), branch_views(local@)),
        views(r.1@) == discovered(
            names_of(branch_views(remote@)),
            names_of(branch_views(known@)),
            ignored_by(*config),
        ),
{
    let mut reg: Vec<RemoteBranch> = Vec::new();
    let mut found: Vec<String> = Vec::new();
    let ghost scan = names_of(branch_views(remote@));
    let ghost known_names = names_of(branch_views(known@));
    assert(branch_views(reg@) =~= Seq::empty());
    assert(views(found@) =~= Seq::empty());
    let mut i: usize = 0;
    while i < remote.len()
        invariant
            i <= remote.len(),
            scan == names_of(branch_views(remote@)),
            known_names == names_of(branch_views(known@)),
            names_of(branch_views(reg@)).no_duplicates(),
            branch_views(reg@) == merged(Seq::empty(), branch_views(remote@).subrange(0, i as int)),
            views(found@) == discovered(
                scan.subrange(0, i as int),
                known_names,
                ignored_by(*config),
            ),
        decreases remote.len() - i,
    {
        let name = remote[i].name.as_str();
        let ghost pre = branch_views(remote@).subrange(0, i + 1);
        let ghost spre = scan.subrange(0, i + 1);
        proof {
            assert(pre.drop_last() == branch_views(remote@).subrange(0, i as int));
            assert(pre.last() == remote@[i as int]@);
            assert(spre.drop_last() == scan.subrange(0, i as int));
            assert(spre.last() == name@);
            assert(names_of(branch_views(remote@).subrange(0, i as int)) == scan.subrange(
                0,
                i as int,
            ));
            lemma_merged_names(Seq::empty(), branch_views(remote@).subrange(0, i as int), name@);
            assert(names_of(Seq::<BranchView>::empty()) =~= Seq::empty());
        }
        let seen = find_branch(&reg, name).is_some();
        let was_known = find_branch(known, name).is_some();
        if !seen && !was_known && !config.should_ignore_branch(name) {
            found.push(String::from_str(name));
            assert(views(found@) =~= discovered(spre, known_names, ignored_by(*config)));
        }
        let ghost before = branch_views(reg@);
        let ghost merge_pre = merged(Seq::empty(), pre);
        let one = vec![remote[i].copy()];
        proof {
            assert(branch_views(one@) =~= seq![pre.last()]);
            assert(seq![pre.last()].drop_last() =~= Seq::<BranchView>::empty());
            assert(merged(before, Seq::<BranchView>::empty()) == before);
            assert(merged(before, seq![pre.last()]) == merge_pre);
        }
        merge_into(&mut reg, &one);
        i = i + 1;
    }
    assert(branch_views(remote@).subrange(0, remote.len() as int) == branch_views(remote@));
    assert(scan.subrange(0, remote.len() as int) == scan);
    merge_into(&mut reg, local);
    (reg, found)
}

} // verus!
