//! The user's preferences: poll interval, remote, setup command, which branches
//! to ignore, and the worktrees made so far.

use vstd::prelude::*;
use crate::text::{holds_text, insert_text, push_char, remove_text, same_text, views};
use crate::worktree::{InfoView, WorktreeInfo, info_views};

verus! {

/// Relies on `glob::Pattern::new` and `glob::Pattern::matches`: whether `pattern`
/// compiles as a glob and matches `name` with the default options.
pub uninterp spec fn glob_matches(pattern: Seq<char>, name: Seq<char>) -> bool;

/// The path `part` joined onto `base`, as `Path::join` forms it.
pub uninterp spec fn path_joined(base: Seq<char>, part: Seq<char>) -> Seq<char>;

/// Relies on `glob::Pattern::new` and `glob::Pattern::matches`; a pattern that does
/// not compile matches nothing.
#[verifier::external_body]
fn pattern_matches(pattern: &str, name: &str) -> (r: bool)
    ensures
        r == glob_matches(pattern@, name@),
{
    glob::Pattern::new(pattern).map(|p| p.matches(name)).unwrap_or(false)
}

/// Relies on `Path::join`: `part` joined onto `base`, as text.
#[verifier::external_body]
fn join_path(base: &str, part: &str) -> (r: String)
    ensures
        r@ == path_joined(base@, part@),
{
    std::path::Path::new(base).join(part).to_string_lossy().into_owned()
}

/// Relies on `str::chars`: the characters of `s` in order.
#[verifier::external_body]
fn chars_of(s: &str) -> (r: Vec<char>)
    ensures
        r@ == s@,
{
    s.chars().collect()
}

/// The name of the preferences file in the repository root.
pub const CONFIG_FILE_NAME: &'static str = ".gwa-config.json";

/// Status of the setup command of one worktree.
#[derive(Debug, Clone, PartialEq, Default)]
pub enum HookStatus {
    /// No command configured, or not run yet.
    #[default]
    NotRun,
    /// The command is running.
    Running,
    /// The command exited with code zero.
    Success,
    /// The command failed, with a message.
    Failed(String),
    /// The command was skipped.
    Skipped,
}

/// What is remembered of one worktree.
#[derive(Debug, Clone, PartialEq)]
pub struct WorktreeState {
    /// Branch name.
    pub branch: String,
    /// Path of the worktree directory.
    pub path: String,
    /// When the worktree was made, in seconds since the Unix epoch.
    pub created_at: i64,
    /// Status of the setup command.
    pub hook_status: HookStatus,
    /// Whether the worktree is in use.
    pub is_active: bool,
}

/// The preferences of one repository.
#[derive(Debug, Clone)]
pub struct Config {
    /// Version of the file format.
    pub version: u32,
    /// Seconds between two fetches.
    pub poll_interval_secs: u64,
    /// Command run in a new worktree (e.g. `npm install`).
    pub post_create_command: Option<String>,
    /// Directory, relative to the worktree, in which that command runs.
    pub command_working_dir: Option<String>,
    /// Glob patterns of branches to ignore.
    pub ignore_patterns: Vec<String>,
    /// Branches explicitly tracked; no name twice.
    pub tracked_branches: Vec<String>,
    /// Branches explicitly not tracked; no name twice.
    pub untracked_branches: Vec<String>,
    /// Whether new branches get a worktree without being asked.
    pub auto_create_worktrees: bool,
    /// Directory of the worktrees, relative to the repository root.
    pub worktree_base_dir: String,
    /// The branch to start new branches from.
    pub base_branch: Option<String>,
    /// The remote that is watched.
    pub remote_name: String,
    /// The worktrees made so far.
    pub worktrees: Vec<WorktreeState>,
    /// Time of the last successful fetch, in seconds since the Unix epoch.
    pub last_fetch: Option<i64>,
}

/// The default file format version.
pub fn default_version() -> (r: u32)
    ensures
        r == 1,
{
    1
}

/// The default poll interval, in seconds.
pub fn default_poll_interval() -> (r: u64)
    ensures
        r == 10,
{
    10
}

/// New branches get no worktree unless asked, by default.
pub fn default_auto_create() -> (r: bool)
    ensures
        !r,
{
    false
}

/// Worktrees go next to the repository, by default.
pub fn default_worktree_base() -> (r: String)
    ensures
        r@ == ".."@,
{
    String::from_str("..")
}

/// The remote watched by default.
pub fn default_remote() -> (r: String)
    ensures
        r@ == "origin"@,
{
    String::from_str("origin")
}

/// A character that cannot stand in a directory name.
pub open spec fn is_path_unsafe(c: char) -> bool {
    c == '/' || c == '\\' || c == ':' || c == '*' || c == '?' || c == '"' || c == '<' || c
        == '>' || c == '|'
}

/// A branch name made fit for a directory name.
pub open spec fn sanitized(s: Seq<char>) -> Seq<char> {
    s.map_values(|c: char|
        if is_path_unsafe(c) {
            '-'
        } else {
            c
        })
}

/// Replaces each character that cannot stand in a directory name by `-`.
pub fn sanitize_branch_name(branch: &str) -> (r: String)
    ensures
        r@ == sanitized(branch@),
{
    let cs = chars_of(branch);
    let mut r = String::new();
    let mut i: usize = 0;
    while i < cs.len()
        invariant
            i <= cs.len(),
            cs@ == branch@,
            r@ == sanitized(branch@).subrange(0, i as int),
        decreases cs.len() - i,
    {
        let c = cs[i];
        let d = if c == '/' || c == '\\' || c == ':' || c == '*' || c == '?' || c == '"' || c
            == '<' || c == '>' || c == '|' {
            '-'
        } else {
            c
        };
        push_char(&mut r, d);
        assert(sanitized(branch@).subrange(0, i + 1) == sanitized(branch@).subrange(
            0,
            i as int,
        ).push(d));
        i = i + 1;
    }
    assert(sanitized(branch@).subrange(0, cs.len() as int) == sanitized(branch@));
    r
}

/// Keeps the worktree states of every branch but `b`.
pub open spec fn other_branch(b: Seq<char>) -> spec_fn(WorktreeState) -> bool {
    |w: WorktreeState| w.branch@ != b
}

/// `v` without the worktree states of branch `b`, order kept.
fn without_branch(v: Vec<WorktreeState>, b: &str) -> (r: Vec<WorktreeState>)
    ensures
        r@ == v@.filter(other_branch(b@)),
{
    let ghost orig = v@;
    let mut rest = v;
    let mut kept: Vec<WorktreeState> = Vec::new();
    let ghost mut i: int = 0;
    while rest.len() > 0
        invariant
            0 <= i <= orig.len(),
            rest@ == orig.subrange(i, orig.len() as int),
            kept@ == orig.subrange(0, i).filter(other_branch(b@)),
        decreases rest.len(),
    {
        let w = rest.remove(0);
        proof {
            let pre = orig.subrange(0, i + 1);
            assert(pre.drop_last() == orig.subrange(0, i));
            assert(pre.last() == w);
            reveal(Seq::filter);
        }
        if !same_text(w.branch.as_str(), b) {
            kept.push(w);
        }
        proof {
            i = i + 1;
            assert(rest@ == orig.subrange(i, orig.len() as int));
        }
    }
    assert(orig.subrange(0, orig.len() as int) == orig);
    kept
}

/// Keeps the worktree states whose branch has a worktree in `existing`.
pub open spec fn still_present(existing: Seq<InfoView>) -> spec_fn(WorktreeState) -> bool {
    |w: WorktreeState| exists|k: int| 0 <= k < existing.len() && existing[k].branch == Some(w.branch@)
}

/// Whether some worktree of `existing` has branch `b` checked out.
fn has_worktree_of(existing: &Vec<WorktreeInfo>, b: &str) -> (r: bool)
    ensures
        r == exists|k: int|
            0 <= k < info_views(existing@).len() && info_views(existing@)[k].branch == Some(b@),
{
    let ghost ws = info_views(existing@);
    let mut i: usize = 0;
    while i < existing.len()
        invariant
            i <= existing.len(),
            ws == info_views(existing@),
            forall|j: int| 0 <= j < i ==> ws[j].branch != Some(b@),
        decreases existing.len() - i,
    {
        assert(ws[i as int] == existing@[i as int]@);
        let found = match &existing[i].branch {
            Some(x) => same_text(x.as_str(), b),
            None => false,
        };
        if found {
            return true;
        }
        i = i + 1;
    }
    false
}

/// The position of the first worktree state of branch `b`, if any.
fn find_worktree(v: &Vec<WorktreeState>, b: &str) -> (r: Option<usize>)
    ensures
        r is None <==> forall|j: int| 0 <= j < v@.len() ==> v@[j].branch@ != b@,
        r matches Some(k) ==> k < v@.len() && v@[k as int].branch@ == b@ && forall|j: int|
            0 <= j < k ==> v@[j].branch@ != b@,
{
    let mut i: usize = 0;
    while i < v.len()
        invariant
            i <= v.len(),
            forall|j: int| 0 <= j < i ==> v@[j].branch@ != b@,
        decreases v.len() - i,
    {
        if same_text(v[i].branch.as_str(), b) {
            return Some(i);
        }
        i = i + 1;
    }
    None
}

impl Config {
    /// The lists of branch names hold no name twice.
    pub open spec fn wf(&self) -> bool {
        &&& views(self.tracked_branches@).no_duplicates()
        &&& views(self.untracked_branches@).no_duplicates()
    }

    /// Branch `b` is ignored: explicitly untracked, or matched by an ignore pattern.
    pub open spec fn ignores(&self, b: Seq<char>) -> bool {
        views(self.untracked_branches@).contains(b) || exists|i: int|
            0 <= i < self.ignore_patterns@.len() && glob_matches(
                #[trigger] self.ignore_patterns@[i]@,
                b,
            )
    }

    /// Everything but the two branch lists is as in `other`.
    pub open spec fn same_but_lists(&self, other: &Config) -> bool {
        &&& self.version == other.version
        &&& self.poll_interval_secs == other.poll_interval_secs
        &&& self.post_create_command == other.post_create_command
        &&& self.command_working_dir == other.command_working_dir
        &&& self.ignore_patterns == other.ignore_patterns
        &&& self.auto_create_worktrees == other.auto_create_worktrees
        &&& self.worktree_base_dir == other.worktree_base_dir
        &&& self.base_branch == other.base_branch
        &&& self.remote_name == other.remote_name
        &&& self.worktrees == other.worktrees
        &&& self.last_fetch == other.last_fetch
    }

    /// Whether branch `branch` is ignored, by the untracked list or a glob pattern.
    pub fn should_ignore_branch(&self, branch: &str) -> (r: bool)
        ensures
            r == self.ignores(branch@),
    {
        if holds_text(&self.untracked_branches, branch) {
            return true;
        }
        let mut i: usize = 0;
        while i < self.ignore_patterns.len()
            invariant
                i <= self.ignore_patterns@.len(),
                forall|j: int|
                    0 <= j < i ==> !glob_matches(#[trigger] self.ignore_patterns@[j]@, branch@),
            decreases self.ignore_patterns.len() - i,
        {
            if pattern_matches(self.ignore_patterns[i].as_str(), branch) {
                return true;
            }
            i = i + 1;
        }
        false
    }

    /// Whether branch `branch` is explicitly tracked.
    pub fn is_tracked(&self, branch: &str) -> (r: bool)
        ensures
            r == views(self.tracked_branches@).contains(branch@),
    {
        holds_text(&self.tracked_branches, branch)
    }

    /// Marks `branch` as tracked, and no longer untracked.
    pub fn track_branch(&mut self, branch: &str)
        requires
            old(self).wf(),
        ensures
            final(self).wf(),
            final(self).same_but_lists(old(self)),
            views(final(self).tracked_branches@).to_set() == views(
                old(self).tracked_branches@,
            ).to_set().insert(branch@),
            views(final(self).untracked_branches@).to_set() == views(
                old(self).untracked_branches@,
            ).to_set().remove(branch@),
    {
        remove_text(&mut self.untracked_branches, branch);
        insert_text(&mut self.tracked_branches, branch);
    }

    /// Marks `branch` as untracked, and no longer tracked.
    pub fn untrack_branch(&mut self, branch: &str)
        requires
            old(self).wf(),
        ensures
            final(self).wf(),
            final(self).same_but_lists(old(self)),
            views(final(self).tracked_branches@).to_set() == views(
                old(self).tracked_branches@,
            ).to_set().remove(branch@),
            views(final(self).untracked_branches@).to_set() == views(
                old(self).untracked_branches@,
            ).to_set().insert(branch@),
    {
        remove_text(&mut self.tracked_branches, branch);
        insert_text(&mut self.untracked_branches, branch);
    }

    /// Records `worktree`, in place of any earlier record of its branch.
    pub fn add_worktree(&mut self, worktree: WorktreeState)
        ensures
            final(self).worktrees@ == old(self).worktrees@.filter(
                other_branch(worktree.branch@),
            ).push(worktree),
    {
        let mut ws = Vec::new();
        std::mem::swap(&mut ws, &mut self.worktrees);
        let mut kept = without_branch(ws, worktree.branch.as_str());
        kept.push(worktree);
        self.worktrees = kept;
    }

    /// Forgets the worktree of `branch`.
    pub fn remove_worktree(&mut self, branch: &str)
        ensures
            final(self).worktrees@ == old(self).worktrees@.filter(other_branch(branch@)),
    {
        let mut ws = Vec::new();
        std::mem::swap(&mut ws, &mut self.worktrees);
        self.worktrees = without_branch(ws, branch);
    }

    /// Forgets the worktrees whose branch no longer has a worktree in `existing` (the
    /// list git gives); true when one was forgotten.
    pub fn sync_worktrees_with_git(&mut self, existing: &Vec<WorktreeInfo>) -> (r: bool)
        ensures
            final(self).worktrees@ == old(self).worktrees@.filter(
                still_present(info_views(existing@)),
            ),
            r == (final(self).worktrees@.len() != old(self).worktrees@.len()),
    {
        let ghost keep = still_present(info_views(existing@));
        let mut rest = Vec::new();
        std::mem::swap(&mut rest, &mut self.worktrees);
        let ghost orig = rest@;
        let n = rest.len();
        let mut kept: Vec<WorktreeState> = Vec::new();
        let ghost mut i: int = 0;
        proof {
            reveal(Seq::filter);
            assert(orig.subrange(0, 0).filter(keep) =~= Seq::<WorktreeState>::empty());
        }
        while rest.len() > 0
            invariant
                0 <= i <= orig.len(),
                n == orig.len(),
                keep == still_present(info_views(existing@)),
                rest@ == orig.subrange(i, orig.len() as int),
                kept@ == orig.subrange(0, i).filter(keep),
            decreases rest.len(),
        {
            let w = rest.remove(0);
            proof {
                let pre = orig.subrange(0, i + 1);
                assert(pre.drop_last() == orig.subrange(0, i));
                assert(pre.last() == w);
                reveal(Seq::filter);
            }
            if has_worktree_of(existing, w.branch.as_str()) {
                kept.push(w);
            }
            proof {
                i = i + 1;
                assert(rest@ == orig.subrange(i, orig.len() as int));
            }
        }
        assert(orig.subrange(0, orig.len() as int) == orig);
        let changed = kept.len() != n;
        self.worktrees = kept;
        changed
    }

    /// The first record of a worktree of `branch`, if any.
    pub fn get_worktree(&self, branch: &str) -> (r: Option<&WorktreeState>)
        ensures
            r is None <==> forall|j: int|
                0 <= j < self.worktrees@.len() ==> self.worktrees@[j].branch@ != branch@,
            r matches Some(w) ==> exists|k: int|
                0 <= k < self.worktrees@.len() && *w == self.worktrees@[k] && w.branch@ == branch@
                    && forall|j: int| 0 <= j < k ==> self.worktrees@[j].branch@ != branch@,
    {
        match find_worktree(&self.worktrees, branch) {
            Some(k) => Some(&self.worktrees[k]),
            None => None,
        }
    }

    /// Sets the setup-command status of the first worktree of `branch`; false where
    /// there is none.
    pub fn set_hook_status(&mut self, branch: &str, status: HookStatus) -> (r: bool)
        ensures
            r == exists|j: int|
                0 <= j < old(self).worktrees@.len() && old(self).worktrees@[j].branch@ == branch@,
            !r ==> final(self).worktrees@ == old(self).worktrees@,
            r ==> exists|k: int|
                0 <= k < old(self).worktrees@.len() && old(self).worktrees@[k].branch@ == branch@
                    && (forall|j: int| 0 <= j < k ==> old(self).worktrees@[j].branch@ != branch@)
                    && final(self).worktrees@ == old(self).worktrees@.update(
                    k,
                    (WorktreeState { hook_status: status, ..old(self).worktrees@[k] }),
                ),
    {
        match find_worktree(&self.worktrees, branch) {
            Some(k) => {
                let mut w = self.worktrees.remove(k);
                w.hook_status = status;
                self.worktrees.insert(k, w);
                assert(self.worktrees@ =~= old(self).worktrees@.update(k as int, w));
                true
            },
            None => false,
        }
    }

    /// The directory of the worktree of `branch`: the base directory joined onto the
    /// repository root, then the sanitized branch name.
    pub fn get_worktree_path(&self, repo_root: &str, branch: &str) -> (r: String)
        ensures
            r@ == path_joined(
                path_joined(repo_root@, self.worktree_base_dir@),
                sanitized(branch@),
            ),
    {
        let sanitized_branch = sanitize_branch_name(branch);
        let base = join_path(repo_root, self.worktree_base_dir.as_str());
        join_path(base.as_str(), sanitized_branch.as_str())
    }
}

impl Default for Config {
    fn default() -> (r: Config)
        ensures
            r.wf(),
            r.version == 1,
            r.poll_interval_secs == 10,
            r.post_create_command is None,
            r.command_working_dir is None,
            views(r.ignore_patterns@) == seq!["dependabot/*"@, "renovate/*"@],
            r.tracked_branches@.len() == 0,
            r.untracked_branches@.len() == 0,
            !r.auto_create_worktrees,
            r.worktree_base_dir@ == ".."@,
            r.base_branch is None,
            r.remote_name@ == "origin"@,
            r.worktrees@.len() == 0,
            r.last_fetch is None,
    {
        let patterns = vec![String::from_str("dependabot/*"), String::from_str("renovate/*")];
        let r = Config {
            version: default_version(),
            poll_interval_secs: default_poll_interval(),
            post_create_command: None,
            command_working_dir: None,
            ignore_patterns: patterns,
            tracked_branches: Vec::new(),
            untracked_branches: Vec::new(),
            auto_create_worktrees: default_auto_create(),
            worktree_base_dir: default_worktree_base(),
            base_branch: None,
            remote_name: default_remote(),
            worktrees: Vec::new(),
            last_fetch: None,
        };
        assert(views(r.ignore_patterns@) =~= seq!["dependabot/*"@, "renovate/*"@]);
        r
    }
}

} // verus!
