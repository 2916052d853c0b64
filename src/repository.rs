//! Branches as the version-control tool reports them, and the repository root.

use vstd::prelude::*;
use crate::fetch::{collect_messages, nonblank_trimmed};
use crate::text::{
    ends_with, is_prefix, is_suffix, lines_of, same_text, split_lines, split_words, strip_prefix,
    trim, trimmed, views, words_of,
};

verus! {

/// A branch known to the watcher: remote (`origin/x`) or local.
#[derive(Debug, Clone, PartialEq, Eq)]
pub struct RemoteBranch {
    /// Full reference name (e.g. `origin/feature/my-branch`).
    pub full_ref: String,
    /// Short branch name (e.g. `feature/my-branch`); the branch's identity.
    pub name: String,
    /// Remote name, empty for a local branch.
    pub remote: String,
    /// Commit the branch points to, abbreviated.
    pub commit: String,
    /// Whether only a local branch of this name is known.
    pub is_local: bool,
}

/// A branch record over plain values.
pub struct BranchView {
    pub full_ref: Seq<char>,
    pub name: Seq<char>,
    pub remote: Seq<char>,
    pub commit: Seq<char>,
    pub is_local: bool,
}

impl View for RemoteBranch {
    type V = BranchView;

    open spec fn view(&self) -> BranchView {
        BranchView {
            full_ref: self.full_ref@,
            name: self.name@,
            remote: self.remote@,
            commit: self.commit@,
            is_local: self.is_local,
        }
    }
}

/// The views of a sequence of branch records.
pub open spec fn branch_views(v: Seq<RemoteBranch>) -> Seq<BranchView> {
    v.map_values(|b: RemoteBranch| b@)
}

/// The branch names of a sequence of branch records.
pub open spec fn names_of(v: Seq<BranchView>) -> Seq<Seq<char>> {
    v.map_values(|b: BranchView| b.name)
}

impl RemoteBranch {
    /// A copy of this record.
    pub fn copy(&self) -> (r: RemoteBranch)
        ensures
            r@ == self@,
    {
        RemoteBranch {
            full_ref: self.full_ref.clone(),
            name: self.name.clone(),
            remote: self.remote.clone(),
            commit: self.commit.clone(),
            is_local: self.is_local,
        }
    }

    /// The record of a local branch known only by its name `name`.
    pub open spec fn local_view(name: Seq<char>) -> BranchView {
        BranchView {
            full_ref: name,
            name: name,
            remote: Seq::empty(),
            commit: Seq::empty(),
            is_local: true,
        }
    }

    /// The record of a local branch known only by name.
    pub fn local(name: &str) -> (r: RemoteBranch)
        ensures
            r@ == RemoteBranch::local_view(name@),
    {
        RemoteBranch {
            full_ref: String::from_str(name),
            name: String::from_str(name),
            remote: String::new(),
            commit: String::new(),
            is_local: true,
        }
    }
}

/// The record that one line `<ref> <commit>` of a remote-branch listing stands for;
/// none for a short line or for the remote's `HEAD`.
pub open spec fn record_of_line(line: Seq<char>, remote: Seq<char>) -> Option<BranchView> {
    let w = words_of(line);
    if w.len() >= 2 && !is_suffix("/HEAD"@, w[0]) {
        let prefix = remote + "/"@;
        Some(
            BranchView {
                full_ref: w[0],
                name: if is_prefix(prefix, w[0]) {
                    w[0].subrange(prefix.len() as int, w[0].len() as int)
                } else {
                    w[0]
                },
                remote: remote,
                commit: w[1],
                is_local: false,
            },
        )
    } else {
        None
    }
}

/// The records of a whole remote-branch listing, in listing order.
pub open spec fn records_of_listing(out: Seq<char>, remote: Seq<char>) -> Seq<BranchView> {
    lines_of(out).filter_map(|l: Seq<char>| record_of_line(l, remote))
}

/// The record of one listing line, if it stands for a branch.
fn parse_branch_line(line: &str, remote_name: &str, prefix: &str) -> (r: Option<RemoteBranch>)
    requires
        prefix@ == remote_name@ + "/"@,
    ensures
        match r {
            Some(b) => record_of_line(line@, remote_name@) == Some(b@),
            None => record_of_line(line@, remote_name@) is None,
        },
{
    let parts = split_words(line);
    if parts.len() < 2 {
        return None;
    }
    let full_ref = parts[0].as_str();
    let commit = parts[1].as_str();
    assert(views(parts@)[0] == full_ref@);
    assert(views(parts@)[1] == commit@);
    if ends_with(full_ref, "/HEAD") {
        return None;
    }
    let name = match strip_prefix(full_ref, prefix) {
        Some(rest) => String::from_str(rest),
        None => String::from_str(full_ref),
    };
    Some(
        RemoteBranch {
            full_ref: String::from_str(full_ref),
            name,
            remote: String::from_str(remote_name),
            commit: String::from_str(commit),
            is_local: false,
        },
    )
}

/// Reads the output of `git for-each-ref --format='%(refname:short) %(objectname:short)'
/// refs/remotes/<remote>`: one record per line of a reference and a commit, but for
/// the remote's `HEAD`, with the remote prefix taken off the name.
pub fn parse_remote_branches(output: &str, remote_name: &str) -> (r: Vec<RemoteBranch>)
    ensures
        branch_views(r@) == records_of_listing(output@, remote_name@),
{
    let lines = split_lines(output);
    let prefix = String::from_str(remote_name).concat("/");
    let mut r: Vec<RemoteBranch> = Vec::new();
    let ghost f = |l: Seq<char>| record_of_line(l, remote_name@);
    let mut i: usize = 0;
    while i < lines.len()
        invariant
            i <= lines.len(),
            views(lines@) == lines_of(output@),
            prefix@ == remote_name@ + "/"@,
            f == (|l: Seq<char>| record_of_line(l, remote_name@)),
            branch_views(r@) == views(lines@).subrange(0, i as int).filter_map(f),
        decreases lines.len() - i,
    {
        let parsed = parse_branch_line(lines[i].as_str(), remote_name, prefix.as_str());
        proof {
            let pre = views(lines@).subrange(0, i + 1);
            assert(pre.drop_last() == views(lines@).subrange(0, i as int));
            assert(pre.last() == lines@[i as int]@);
        }
        match parsed {
            Some(b) => {
                r.push(b);
                assert(branch_views(r@) == views(lines@).subrange(0, i + 1).filter_map(f));
            },
            None => {},
        }
        i = i + 1;
    }
    assert(views(lines@).subrange(0, lines.len() as int) == views(lines@));
    r
}

/// `s` without any number of leading `* ` marks.
pub open spec fn unmarked(s: Seq<char>) -> Seq<char>
    decreases s.len(),
{
    if s.len() >= 2 && is_prefix("* "@, s) {
        unmarked(s.subrange(2, s.len() as int))
    } else {
        s
    }
}

/// The names tried, in order, when the remote does not name its default branch.
pub open spec fn common_defaults() -> Seq<Seq<char>> {
    seq!["main"@, "master"@, "develop"@, "dev"@]
}

/// A line of a `git branch -r` listing names `<remote>/<d>`.
pub open spec fn lists_branch(listing: Seq<char>, remote: Seq<char>, d: Seq<char>) -> bool {
    exists|i: int|
        0 <= i < lines_of(listing).len() && unmarked(trimmed(#[trigger] lines_of(listing)[i]))
            == remote + "/"@ + d
}

/// The first common default name that the listing has, if any.
pub open spec fn first_listed(listing: Seq<char>, remote: Seq<char>, k: int) -> Option<Seq<char>>
    decreases 4 - k,
{
    if k < 0 || k >= 4 {
        None
    } else if lists_branch(listing, remote, common_defaults()[k]) {
        Some(common_defaults()[k])
    } else {
        first_listed(listing, remote, k + 1)
    }
}

/// The default branch of `remote`: the one its `HEAD` names
/// (`symbolic` is the output of `git symbolic-ref refs/remotes/<remote>/HEAD`, if it
/// succeeded); else the first of `main`, `master`, `develop`, `dev` that the remote
/// has (`listing`, the output of `git branch -r`); else the branch checked out
/// (`current`, the output of `git branch --show-current`), if not blank.
pub open spec fn default_branch_of(
    remote: Seq<char>,
    symbolic: Option<Seq<char>>,
    listing: Option<Seq<char>>,
    current: Option<Seq<char>>,
) -> Option<Seq<char>> {
    let head_prefix = "refs/remotes/"@ + remote + "/"@;
    if symbolic is Some && is_prefix(head_prefix, trimmed(symbolic->0)) {
        Some(trimmed(symbolic->0).subrange(head_prefix.len() as int, trimmed(symbolic->0).len() as int))
    } else if listing is Some && first_listed(listing->0, remote, 0) is Some {
        first_listed(listing->0, remote, 0)
    } else if current is Some && trimmed(current->0).len() > 0 {
        Some(trimmed(current->0))
    } else {
        None
    }
}

/// Takes off all leading `* ` marks.
fn strip_marks(s: &str) -> (r: &str)
    ensures
        r@ == unmarked(s@),
    decreases s@.len(),
{
    match strip_prefix(s, "* ") {
        Some(rest) => {
            proof {
                reveal_strlit("* ");
            }
            strip_marks(rest)
        },
        None => s,
    }
}

/// Whether the `git branch -r` listing names `<remote>/<d>`.
fn listing_has(lines: &Vec<String>, listing: &str, remote: &str, d: &str) -> (r: bool)
    requires
        views(lines@) == lines_of(listing@),
    ensures
        r == lists_branch(listing@, remote@, d@),
{
    let want = String::from_str(remote).concat("/").concat(d);
    let mut i: usize = 0;
    while i < lines.len()
        invariant
            i <= lines.len(),
            views(lines@) == lines_of(listing@),
            want@ == remote@ + "/"@ + d@,
            forall|j: int|
                0 <= j < i ==> unmarked(trimmed(#[trigger] lines_of(listing@)[j])) != want@,
        decreases lines.len() - i,
    {
        assert(views(lines@)[i as int] == lines@[i as int]@);
        if same_text(strip_marks(trim(lines[i].as_str())), want.as_str()) {
            return true;
        }
        i = i + 1;
    }
    false
}

/// Picks the default branch of `remote_name` from what git said; see
/// `default_branch_of`.
pub fn pick_default_branch(
    remote_name: &str,
    symbolic: Option<&str>,
    listing: Option<&str>,
    current: Option<&str>,
) -> (r: Option<String>)
    ensures
        match r {
            Some(s) => default_branch_of(
                remote_name@,
                match symbolic {
                    Some(x) => Some(x@),
                    None => None,
                },
                match listing {
                    Some(x) => Some(x@),
                    None => None,
                },
                match current {
                    Some(x) => Some(x@),
                    None => None,
                },
            ) == Some(s@),
            None => default_branch_of(
                remote_name@,
                match symbolic {
                    Some(x) => Some(x@),
                    None => None,
                },
                match listing {
                    Some(x) => Some(x@),
                    None => None,
                },
                match current {
                    Some(x) => Some(x@),
                    None => None,
                },
            ) is None,
        },
{
    let head_prefix = String::from_str("refs/remotes/").concat(remote_name).concat("/");
    if let Some(out) = symbolic {
        let t = trim(out);
        if let Some(rest) = strip_prefix(t, head_prefix.as_str()) {
            return Some(String::from_str(rest));
        }
    }
    let ghost head_fails = match symbolic {
        Some(x) => !is_prefix("refs/remotes/"@ + remote_name@ + "/"@, trimmed(x@)),
        None => true,
    };
    assert(head_fails);
    if let Some(out) = listing {
        let lines = split_lines(out);
        let defaults = vec![
            String::from_str("main"),
            String::from_str("master"),
            String::from_str("develop"),
            String::from_str("dev"),
        ];
        assert(views(defaults@) =~= common_defaults());
        let mut k: usize = 0;
        while k < 4
            invariant
                k <= 4,
                defaults@.len() == 4,
                listing == Some(out),
                head_fails,
                head_fails == match symbolic {
                    Some(x) => !is_prefix("refs/remotes/"@ + remote_name@ + "/"@, trimmed(x@)),
                    None => true,
                },
                views(defaults@) == common_defaults(),
                views(lines@) == lines_of(out@),
                first_listed(out@, remote_name@, 0) == first_listed(out@, remote_name@, k as int),
            decreases 4 - k,
        {
            assert(views(defaults@)[k as int] == defaults@[k as int]@);
            if listing_has(&lines, out, remote_name, defaults[k].as_str()) {
                assert(first_listed(out@, remote_name@, k as int) == Some(common_defaults()[k as int]));
                let d = defaults[k].clone();
                return Some(d);
            }
            k = k + 1;
        }
    }
    if let Some(out) = current {
        let t = trim(out);
        if !t.is_empty() {
            return Some(String::from_str(t));
        }
    }
    None
}

/// The names of the remotes in the output of `git remote`: its non-blank lines,
/// trimmed.
pub fn parse_remotes(output: &str) -> (r: Vec<String>)
    ensures
        views(r@) == nonblank_trimmed(lines_of(output@)),
{
    let lines = split_lines(output);
    let mut r: Vec<String> = Vec::new();
    collect_messages(&mut r, &lines);
    assert(views(r@) =~= Seq::<Seq<char>>::empty() + nonblank_trimmed(lines_of(output@)));
    r
}

/// What is said when the remote `remote_name` is not configured.
pub fn missing_remote_message(remote_name: &str) -> (r: String)
    ensures
        r@ == "Remote '"@ + remote_name@ + "' not found.\n\nPlease add the remote first:\n  git remote add "@
            + remote_name@ + " <url>\n\nOr update your configuration to use an existing remote."@,
{
    String::from_str("Remote '").concat(remote_name).concat(
        "' not found.\n\nPlease add the remote first:\n  git remote add ",
    ).concat(remote_name).concat(" <url>\n\nOr update your configuration to use an existing remote.")
}

/// The record that one line `<name> <commit>` of a local-branch listing stands for.
pub open spec fn local_record_of_line(line: Seq<char>) -> Option<BranchView> {
    let w = words_of(line);
    if w.len() >= 2 {
        Some(
            BranchView {
                full_ref: w[0],
                name: w[0],
                remote: Seq::empty(),
                commit: w[1],
                is_local: true,
            },
        )
    } else {
        None
    }
}

/// Reads the output of `git for-each-ref --format='%(refname:short) %(objectname:short)'
/// refs/heads`: one local record per line of a name and a commit.
pub fn parse_local_branches(output: &str) -> (r: Vec<RemoteBranch>)
    ensures
        branch_views(r@) == lines_of(output@).filter_map(|l: Seq<char>| local_record_of_line(l)),
{
    let lines = split_lines(output);
    let mut r: Vec<RemoteBranch> = Vec::new();
    let ghost f = |l: Seq<char>| local_record_of_line(l);
    let mut i: usize = 0;
    while i < lines.len()
        invariant
            i <= lines.len(),
            views(lines@) == lines_of(output@),
            f == (|l: Seq<char>| local_record_of_line(l)),
            branch_views(r@) == views(lines@).subrange(0, i as int).filter_map(f),
        decreases lines.len() - i,
    {
        let parts = split_words(lines[i].as_str());
        proof {
            let pre = views(lines@).subrange(0, i + 1);
            assert(pre.drop_last() == views(lines@).subrange(0, i as int));
            assert(pre.last() == lines@[i as int]@);
        }
        if parts.len() >= 2 {
            assert(views(parts@)[0] == parts@[0]@);
            assert(views(parts@)[1] == parts@[1]@);
            r.push(
                RemoteBranch {
                    full_ref: parts[0].clone(),
                    name: parts[0].clone(),
                    remote: String::new(),
                    commit: parts[1].clone(),
                    is_local: true,
                },
            );
            assert(branch_views(r@) == views(lines@).subrange(0, i + 1).filter_map(f));
        }
        i = i + 1;
    }
    assert(views(lines@).subrange(0, lines.len() as int) == views(lines@));
    r
}

/// A repository, known by its root directory.
pub struct Repository {
    root: String,
}

impl Repository {
    /// The repository whose root directory is `root`.
    pub fn at(root: String) -> (r: Repository)
        ensures
            r.root_view() == root@,
    {
        Repository { root }
    }

    /// The root directory.
    pub closed spec fn root_view(&self) -> Seq<char> {
        self.root@
    }

    /// The repository root directory.
    pub fn root(&self) -> (r: &str)
        ensures
            r@ == self.root_view(),
    {
        self.root.as_str()
    }
}

} // verus!
