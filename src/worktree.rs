//! Worktrees as `git worktree list --porcelain` reports them, and the rules of
//! making one: the commands run, when to retry, and the lines logged.

use vstd::prelude::*;
use crate::repository::Repository;
use crate::text::{
    contains, decimal, has_infix, int_to_text, is_prefix, lines_of, same_text, split_lines,
    strip_prefix, trimmed, views,
};

verus! {

/// One worktree of the repository.
#[derive(Debug, Clone)]
pub struct WorktreeInfo {
    /// Its directory.
    pub path: String,
    /// The branch checked out, if any.
    pub branch: Option<String>,
    /// The commit checked out.
    pub head: String,
    /// Whether it is the main worktree.
    pub is_main: bool,
    /// Whether it is locked.
    pub is_locked: bool,
    /// Whether it can be pruned (its directory is gone).
    pub is_prunable: bool,
}

/// A worktree over plain values.
pub struct InfoView {
    pub path: Seq<char>,
    pub branch: Option<Seq<char>>,
    pub head: Seq<char>,
    pub is_main: bool,
    pub is_locked: bool,
    pub is_prunable: bool,
}

impl View for WorktreeInfo {
    type V = InfoView;

    open spec fn view(&self) -> InfoView {
        InfoView {
            path: self.path@,
            branch: match self.branch {
                Some(b) => Some(b@),
                None => None,
            },
            head: self.head@,
            is_main: self.is_main,
            is_locked: self.is_locked,
            is_prunable: self.is_prunable,
        }
    }
}

/// The views of a sequence of worktrees.
pub open spec fn info_views(v: Seq<WorktreeInfo>) -> Seq<InfoView> {
    v.map_values(|w: WorktreeInfo| w@)
}

/// Where a listing has got to: the worktrees read, and the one being read.
pub struct ListingView {
    pub done: Seq<InfoView>,
    pub current: Option<InfoView>,
}

/// A worktree at `path` with nothing else known yet.
pub open spec fn fresh_info(path: Seq<char>) -> InfoView {
    InfoView {
        path: path,
        branch: None,
        head: Seq::empty(),
        is_main: false,
        is_locked: false,
        is_prunable: false,
    }
}

/// The worktrees read, with the one being read (if any) closed.
pub open spec fn closed(s: ListingView) -> Seq<InfoView> {
    match s.current {
        Some(c) => s.done.push(c),
        None => s.done,
    }
}

/// The listing after one more line: a blank line closes a worktree, `worktree <path>`
/// opens one, and `HEAD`, `branch` (less `refs/heads/`), `bare`, `locked` and
/// `prunable` lines fill in the one being read; other lines are skipped.
pub open spec fn listing_step(s: ListingView, line: Seq<char>) -> ListingView {
    if line.len() == 0 {
        ListingView { done: closed(s), current: None }
    } else if is_prefix("worktree "@, line) {
        ListingView { done: closed(s), current: Some(fresh_info(line.subrange(9, line.len() as int))) }
    } else {
        match s.current {
            None => s,
            Some(c) => {
                let c2 = if is_prefix("HEAD "@, line) {
                    InfoView { head: line.subrange(5, line.len() as int), ..c }
                } else if is_prefix("branch "@, line) {
                    let b = line.subrange(7, line.len() as int);
                    InfoView {
                        branch: Some(
                            if is_prefix("refs/heads/"@, b) {
                                b.subrange(11, b.len() as int)
                            } else {
                                b
                            },
                        ),
                        ..c
                    }
                } else if line == "bare"@ {
                    InfoView { is_main: true, ..c }
                } else if line == "locked"@ {
                    InfoView { is_locked: true, ..c }
                } else if line == "prunable"@ {
                    InfoView { is_prunable: true, ..c }
                } else {
                    c
                };
                ListingView { done: s.done, current: Some(c2) }
            },
        }
    }
}

/// The listing after all of `lines`.
pub open spec fn listing_after(lines: Seq<Seq<char>>) -> ListingView
    decreases lines.len(),
{
    if lines.len() == 0 {
        ListingView { done: Seq::empty(), current: None }
    } else {
        listing_step(listing_after(lines.drop_last()), lines.last())
    }
}

/// The worktrees of a whole listing; the first is the main one.
pub open spec fn worktrees_of(out: Seq<char>) -> Seq<InfoView> {
    let all = closed(listing_after(lines_of(out)));
    if all.len() == 0 {
        all
    } else {
        all.update(0, InfoView { is_main: true, ..all[0] })
    }
}

/// Reads the worktree lists and makes worktrees of one repository.
pub struct WorktreeManager<'a> {
    pub repo: &'a Repository,
}

/// Closes the worktree being read, if any.
fn close_current(done: &mut Vec<WorktreeInfo>, current: Option<WorktreeInfo>)
    ensures
        info_views(final(done)@) == closed(
            ListingView {
                done: info_views(old(done)@),
                current: match current {
                    Some(c) => Some(c@),
                    None => None,
                },
            },
        ),
{
    match current {
        Some(c) => {
            done.push(c);
            assert(info_views(done@) =~= info_views(old(done)@).push(c@));
        },
        None => {},
    }
}

impl<'a> WorktreeManager<'a> {
    /// A manager of the worktrees of `repo`.
    pub fn new(repo: &'a Repository) -> (r: Self)
        ensures
            r.repo == repo,
    {
        WorktreeManager { repo }
    }

    /// Reads the output of `git worktree list --porcelain`.
    pub fn parse_worktree_list(&self, output: &str) -> (r: Vec<WorktreeInfo>)
        ensures
            info_views(r@) == worktrees_of(output@),
    {
        let lines = split_lines(output);
        let mut done: Vec<WorktreeInfo> = Vec::new();
        let mut current: Option<WorktreeInfo> = None;
        let mut i: usize = 0;
        assert(info_views(done@) =~= Seq::empty());
        while i < lines.len()
            invariant
                i <= lines.len(),
                views(lines@) == lines_of(output@),
                listing_after(views(lines@).subrange(0, i as int)) == (ListingView {
                    done: info_views(done@),
                    current: match current {
                        Some(c) => Some(c@),
                        None => None,
                    },
                }),
            decreases lines.len() - i,
        {
            let line = lines[i].as_str();
            proof {
                let pre = views(lines@).subrange(0, i + 1);
                assert(pre.drop_last() == views(lines@).subrange(0, i as int));
                assert(pre.last() == line@);
            }
            if line.is_empty() {
                let c = current;
                current = None;
                close_current(&mut done, c);
            } else {
                match strip_prefix(line, "worktree ") {
                    Some(path) => {
                        let c = current;
                        close_current(&mut done, c);
                        proof {
                            reveal_strlit("worktree ");
                        }
                        current = Some(
                            WorktreeInfo {
                                path: String::from_str(path),
                                branch: None,
                                head: String::new(),
                                is_main: false,
                                is_locked: false,
                                is_prunable: false,
                            },
                        );
                    },
                    None => {
                        match current {
                            None => {},
                            Some(mut c) => {
                                match strip_prefix(line, "HEAD ") {
                                    Some(head) => {
                                        proof {
                                            reveal_strlit("HEAD ");
                                        }
                                        c.head = String::from_str(head);
                                    },
                                    None => match strip_prefix(line, "branch ") {
                                        Some(b) => {
                                            proof {
                                                reveal_strlit("branch ");
                                                reveal_strlit("refs/heads/");
                                            }
                                            let name = match strip_prefix(b, "refs/heads/") {
                                                Some(n) => n,
                                                None => b,
                                            };
                                            c.branch = Some(String::from_str(name));
                                        },
                                        None => {
                                            if same_text(line, "bare") {
                                                c.is_main = true;
                                            } else if same_text(line, "locked") {
                                                c.is_locked = true;
                                            } else if same_text(line, "prunable") {
                                                c.is_prunable = true;
                                            }
                                        },
                                    },
                                }
                                current = Some(c);
                            },
                        }
                    },
                }
            }
            i = i + 1;
        }
        close_current(&mut done, current);
        assert(views(lines@).subrange(0, lines.len() as int) == views(lines@));
        if done.len() > 0 {
            let mut first = done.remove(0);
            first.is_main = true;
            done.insert(0, first);
            assert(info_views(done@) =~= worktrees_of(output@));
        }
        done
    }
}

/// The next thing to do while making a worktree.
#[derive(Debug)]
pub enum CreateStep {
    /// Run `git` with these arguments in the repository root, then report the result.
    RunGit(Vec<String>),
    /// See whether the worktree directory exists, then report it.
    CheckDirectory,
    /// The worktree was made; these lines say how.
    Finished(Vec<String>),
    /// The worktree could not be made, for this reason.
    Failed(String),
}

/// The arguments of the first attempt: a new local branch tracking the remote one.
pub open spec fn first_args(b: Seq<char>, p: Seq<char>, r: Seq<char>) -> Seq<Seq<char>> {
    seq!["worktree"@, "add"@, "--track"@, "-b"@, b, p, r + "/"@ + b]
}

/// The arguments of the retry: the existing local branch.
pub open spec fn retry_args(b: Seq<char>, p: Seq<char>) -> Seq<Seq<char>> {
    seq!["worktree"@, "add"@, p, b]
}

/// The lines of standard output then standard error that are not blank.
pub open spec fn printed_lines(stdout: Seq<char>, stderr: Seq<char>) -> Seq<Seq<char>> {
    (lines_of(stdout) + lines_of(stderr)).filter_map(
        |l: Seq<char>|
            if trimmed(l).len() > 0 {
                Some(l)
            } else {
                None
            },
    )
}

/// Making the worktree of one branch: what was logged so far, and whether the
/// retry without a new local branch was made.
pub struct WorktreeCreation {
    branch: String,
    path: String,
    remote: String,
    log: Vec<String>,
    retried: bool,
}

/// The view of a step.
pub enum StepView {
    RunGit(Seq<Seq<char>>),
    CheckDirectory,
    Finished(Seq<Seq<char>>),
    Failed(Seq<char>),
}

impl View for CreateStep {
    type V = StepView;

    open spec fn view(&self) -> StepView {
        match self {
            CreateStep::RunGit(a) => StepView::RunGit(views(a@)),
            CreateStep::CheckDirectory => StepView::CheckDirectory,
            CreateStep::Finished(l) => StepView::Finished(views(l@)),
            CreateStep::Failed(m) => StepView::Failed(m@),
        }
    }
}

/// Appends the lines of `v` that are not blank.
fn keep_printed(log: &mut Vec<String>, v: &Vec<String>)
    ensures
        views(final(log)@) == views(old(log)@) + views(v@).filter_map(
            |l: Seq<char>|
                if trimmed(l).len() > 0 {
                    Some(l)
                } else {
                    None
                },
        ),
{
    let ghost f = |l: Seq<char>|
        if trimmed(l).len() > 0 {
            Some(l)
        } else {
            None
        };
    let mut i: usize = 0;
    assert(views(log@) =~= views(old(log)@) + views(v@).subrange(0, 0).filter_map(f));
    while i < v.len()
        invariant
            i <= v.len(),
            f == (|l: Seq<char>|
                if trimmed(l).len() > 0 {
                    Some(l)
                } else {
                    None
                }),
            views(log@) == views(old(log)@) + views(v@).subrange(0, i as int).filter_map(f),
        decreases v.len() - i,
    {
        let ghost pre = views(v@).subrange(0, i + 1);
        let ghost before = views(log@);
        proof {
            assert(pre.drop_last() == views(v@).subrange(0, i as int));
            assert(pre.last() == v@[i as int]@);
        }
        let t = crate::text::trim(v[i].as_str());
        if !t.is_empty() {
            log.push(v[i].clone());
            proof {
                assert(pre.filter_map(f) == pre.drop_last().filter_map(f) + seq![v@[i as int]@]);
                assert(views(log@) =~= before.push(v@[i as int]@));
            }
        }
        i = i + 1;
    }
    assert(views(v@).subrange(0, v.len() as int) == views(v@));
}

impl WorktreeCreation {
    /// The branch, path and remote, and the log so far.
    pub closed spec fn branch_view(&self) -> Seq<char> {
        self.branch@
    }

    pub closed spec fn path_view(&self) -> Seq<char> {
        self.path@
    }

    pub closed spec fn remote_view(&self) -> Seq<char> {
        self.remote@
    }

    pub closed spec fn log_view(&self) -> Seq<Seq<char>> {
        views(self.log@)
    }

    pub closed spec fn retried_view(&self) -> bool {
        self.retried
    }

    /// Starts making the worktree of `branch` at `path`, tracking `remote`. A path
    /// that exists already fails at once, before any command runs.
    pub fn start(branch: &str, path: &str, remote: &str, path_exists: bool) -> (r: (
        WorktreeCreation,
        CreateStep,
    ))
        ensures
            r.0.branch_view() == branch@,
            r.0.path_view() == path@,
            r.0.remote_view() == remote@,
            !r.0.retried_view(),
            path_exists ==> r.0.log_view() == seq!["Creating worktree at: "@ + path@] && r.1@
                == StepView::Failed("Worktree path already exists: "@ + path@),
            !path_exists ==> r.0.log_view() == seq![
                "Creating worktree at: "@ + path@,
                "$ git worktree add --track -b "@ + branch@ + " "@ + path@ + " "@ + remote@ + "/"@
                    + branch@,
            ] && r.1@ == StepView::RunGit(first_args(branch@, path@, remote@)),
    {
        let mut log: Vec<String> = Vec::new();
        log.push(String::from_str("Creating worktree at: ").concat(path));
        let c = WorktreeCreation {
            branch: String::from_str(branch),
            path: String::from_str(path),
            remote: String::from_str(remote),
            log,
            retried: false,
        };
        if path_exists {
            assert(views(c.log@) =~= seq!["Creating worktree at: "@ + path@]);
            let m = String::from_str("Worktree path already exists: ").concat(path);
            return (c, CreateStep::Failed(m));
        }
        let mut c = c;
        let remote_ref = String::from_str(remote).concat("/").concat(branch);
        let line = String::from_str("$ git worktree add --track -b ").concat(branch).concat(
            " ",
        ).concat(path).concat(" ").concat(remote_ref.as_str());
        assert(line@ =~= "$ git worktree add --track -b "@ + branch@ + " "@ + path@ + " "@ + remote@
            + "/"@ + branch@);
        c.log.push(line);
        assert(views(c.log@) =~= seq![
            "Creating worktree at: "@ + path@,
            "$ git worktree add --track -b "@ + branch@ + " "@ + path@ + " "@ + remote@ + "/"@
                + branch@,
        ]);
        let args = vec![
            String::from_str("worktree"),
            String::from_str("add"),
            String::from_str("--track"),
            String::from_str("-b"),
            String::from_str(branch),
            String::from_str(path),
            remote_ref,
        ];
        assert(views(args@) =~= first_args(branch@, path@, remote@));
        (c, CreateStep::RunGit(args))
    }

    /// A `git worktree add` ended, with exit code `code`. Its non-blank lines are
    /// logged. On success the directory is checked next. A first attempt that failed
    /// because the branch exists locally is retried once without making a new
    /// branch; any other failure ends it.
    pub fn on_add_result(
        &mut self,
        success: bool,
        code: i32,
        stdout: &str,
        stderr: &str,
    ) -> (r: CreateStep)
        ensures
            final(self).branch_view() == old(self).branch_view(),
            final(self).path_view() == old(self).path_view(),
            final(self).remote_view() == old(self).remote_view(),
            ({
                let logged = old(self).log_view() + printed_lines(stdout@, stderr@);
                let b = old(self).branch_view();
                let p = old(self).path_view();
                if success {
                    &&& r@ == StepView::CheckDirectory
                    &&& final(self).log_view() == logged
                    &&& final(self).retried_view() == old(self).retried_view()
                } else if !old(self).retried_view() && has_infix(stderr@, "already exists"@) {
                    &&& r@ == StepView::RunGit(retry_args(b, p))
                    &&& final(self).log_view() == logged.push(
                        "Branch exists locally, retrying: git worktree add "@ + p + " "@ + b,
                    )
                    &&& final(self).retried_view()
                } else {
                    &&& r@ == StepView::Failed("git worktree add failed: "@ + stderr@)
                    &&& final(self).log_view() == logged.push(
                        "ERROR: git worktree add failed (exit code: "@ + decimal(code as int)
                            + ")"@,
                    )
                    &&& final(self).retried_view() == old(self).retried_view()
                }
            }),
    {
        let out_lines = split_lines(stdout);
        let err_lines = split_lines(stderr);
        keep_printed(&mut self.log, &out_lines);
        keep_printed(&mut self.log, &err_lines);
        proof {
            let f = |l: Seq<char>|
                if trimmed(l).len() > 0 {
                    Some(l)
                } else {
                    None
                };
            crate::fetch::lemma_filter_map_append(views(out_lines@), views(err_lines@), f);
            assert(views(self.log@) =~= views(old(self).log@) + printed_lines(stdout@, stderr@));
        }
        if success {
            return CreateStep::CheckDirectory;
        }
        if !self.retried && contains(stderr, "already exists") {
            let line = String::from_str("Branch exists locally, retrying: git worktree add ").concat(
                self.path.as_str(),
            ).concat(" ").concat(self.branch.as_str());
            self.log.push(line);
            self.retried = true;
            let args = vec![
                String::from_str("worktree"),
                String::from_str("add"),
                self.path.clone(),
                self.branch.clone(),
            ];
            assert(views(args@) =~= retry_args(self.branch@, self.path@));
            return CreateStep::RunGit(args);
        }
        let digits = int_to_text(code);
        let line = String::from_str("ERROR: git worktree add failed (exit code: ").concat(
            digits.as_str(),
        ).concat(")");
        self.log.push(line);
        CreateStep::Failed(String::from_str("git worktree add failed: ").concat(stderr))
    }

    /// The directory was looked for after a successful command: there, the worktree
    /// is made and the log comes back; missing, it failed.
    pub fn on_dir_check(&mut self, exists: bool) -> (r: CreateStep)
        ensures
            final(self).branch_view() == old(self).branch_view(),
            final(self).path_view() == old(self).path_view(),
            final(self).remote_view() == old(self).remote_view(),
            final(self).retried_view() == old(self).retried_view(),
            exists ==> {
                let l = old(self).log_view().push(
                    "\u{2713} Worktree created successfully at: "@ + old(self).path_view(),
                );
                &&& final(self).log_view() == l
                &&& r@ == StepView::Finished(l)
            },
            !exists ==> {
                &&& final(self).log_view() == old(self).log_view().push(
                    "ERROR: Directory was not created at "@ + old(self).path_view(),
                )
                &&& r@ == StepView::Failed(
                    "Worktree directory was not created: "@ + old(self).path_view(),
                )
            },
    {
        if exists {
            let line = String::from_str("\u{2713} Worktree created successfully at: ").concat(
                self.path.as_str(),
            );
            self.log.push(line);
            let mut all: Vec<String> = Vec::new();
            let mut i: usize = 0;
            while i < self.log.len()
                invariant
                    i <= self.log.len(),
                    all@ == self.log@.subrange(0, i as int),
                decreases self.log.len() - i,
            {
                all.push(self.log[i].clone());
                assert(all@ =~= self.log@.subrange(0, i + 1));
                i = i + 1;
            }
            assert(all@ =~= self.log@);
            CreateStep::Finished(all)
        } else {
            let line = String::from_str("ERROR: Directory was not created at ").concat(
                self.path.as_str(),
            );
            self.log.push(line);
            CreateStep::Failed(
                String::from_str("Worktree directory was not created: ").concat(self.path.as_str()),
            )
        }
    }
}

} // verus!
