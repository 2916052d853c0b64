use git_worktree_agent::repository::{
    missing_remote_message, parse_remote_branches, parse_remotes, pick_default_branch, Repository,
};
use git_worktree_agent::worktree::{CreateStep, WorktreeCreation, WorktreeManager};

#[test]
fn test_parse_worktree_list() {
    let output = r#"worktree /path/to/main
HEAD abc123
branch refs/heads/main

worktree /path/to/feature
HEAD def456
branch refs/heads/feature/my-feature
"#;

    let repo = Repository::at("/path/to/main".to_string());
    let manager = WorktreeManager::new(&repo);
    let worktrees = manager.parse_worktree_list(output);

    assert_eq!(worktrees.len(), 2);
    assert_eq!(worktrees[0].branch.as_deref(), Some("main"));
    assert_eq!(worktrees[1].branch.as_deref(), Some("feature/my-feature"));
}

#[test]
fn worktree_list_flags_and_paths() {
    let output = "worktree /a\nHEAD 111\nbare\n\nworktree /b\nHEAD 222\ndetached\nlocked\nprunable\n";
    let repo = Repository::at("/a".to_string());
    let ws = WorktreeManager::new(&repo).parse_worktree_list(output);
    assert_eq!(ws.len(), 2);
    assert_eq!(ws[0].path, "/a");
    assert_eq!(ws[0].head, "111");
    assert!(ws[0].is_main);
    assert_eq!(ws[1].path, "/b");
    assert_eq!(ws[1].branch, None);
    assert!(!ws[1].is_main && ws[1].is_locked && ws[1].is_prunable);
    assert!(WorktreeManager::new(&repo).parse_worktree_list("").is_empty());
    assert_eq!(repo.root(), "/a");
}

#[test]
fn remote_branch_listing_skips_head() {
    let out = "origin/HEAD abc\norigin/main 1234567\norigin/feature/x   89abcde\nbad\n";
    let bs = parse_remote_branches(out, "origin");
    assert_eq!(bs.len(), 2);
    assert_eq!(bs[0].name, "main");
    assert_eq!(bs[0].full_ref, "origin/main");
    assert_eq!(bs[0].commit, "1234567");
    assert_eq!(bs[1].name, "feature/x");
    assert_eq!(bs[1].remote, "origin");
    assert!(!bs[1].is_local);
}

#[test]
fn remotes_are_trimmed_lines() {
    assert_eq!(parse_remotes("origin\n  upstream \n\n"), vec!["origin", "upstream"]);
}

#[test]
fn default_branch_from_head_then_listing_then_current() {
    assert_eq!(
        pick_default_branch("origin", Some("refs/remotes/origin/trunk\n"), Some("  origin/main\n"), None),
        Some("trunk".to_string())
    );
    assert_eq!(
        pick_default_branch("origin", None, Some("  origin/dev\n* origin/master\n"), Some("x")),
        Some("master".to_string())
    );
    assert_eq!(
        pick_default_branch("origin", Some("garbage"), Some("  origin/other\n"), Some(" topic \n")),
        Some("topic".to_string())
    );
    assert_eq!(pick_default_branch("origin", None, None, Some("  \n")), None);
}

#[test]
fn missing_remote_message_names_the_remote() {
    let m = missing_remote_message("up");
    assert!(m.starts_with("Remote 'up' not found."));
    assert!(m.contains("git remote add up <url>"));
}

fn args(step: &CreateStep) -> Vec<String> {
    match step {
        CreateStep::RunGit(a) => a.clone(),
        other => panic!("expected RunGit, got {:?}", other),
    }
}

#[test]
fn creation_retries_once_when_the_branch_exists() {
    let (mut c, step) = WorktreeCreation::start("feat", "/w/feat", "origin", false);
    assert_eq!(
        args(&step),
        vec!["worktree", "add", "--track", "-b", "feat", "/w/feat", "origin/feat"]
    );
    let step = c.on_add_result(false, 128, "", "fatal: a branch named 'feat' already exists\n");
    assert_eq!(args(&step), vec!["worktree", "add", "/w/feat", "feat"]);
    let step = c.on_add_result(true, 0, "Preparing worktree\n", "");
    assert!(matches!(step, CreateStep::CheckDirectory));
    match c.on_dir_check(true) {
        CreateStep::Finished(log) => {
            assert_eq!(log[0], "Creating worktree at: /w/feat");
            assert_eq!(log[1], "$ git worktree add --track -b feat /w/feat origin/feat");
            assert_eq!(log[2], "fatal: a branch named 'feat' already exists");
            assert_eq!(log[3], "Branch exists locally, retrying: git worktree add /w/feat feat");
            assert_eq!(log[4], "Preparing worktree");
            assert_eq!(log[5], "\u{2713} Worktree created successfully at: /w/feat");
            assert_eq!(log.len(), 6);
        }
        other => panic!("expected Finished, got {:?}", other),
    }
}

#[test]
fn creation_fails_fast_and_does_not_retry_twice() {
    let (_, step) = WorktreeCreation::start("b", "/w/b", "origin", true);
    assert!(matches!(step, CreateStep::Failed(m) if m == "Worktree path already exists: /w/b"));

    let (mut c, _) = WorktreeCreation::start("b", "/w/b", "origin", false);
    let step = c.on_add_result(false, 255, "", "already exists\n");
    assert!(matches!(step, CreateStep::RunGit(_)));
    let step = c.on_add_result(false, 255, "", "already exists\n");
    assert!(matches!(step, CreateStep::Failed(m) if m == "git worktree add failed: already exists\n"));

    let (mut c, _) = WorktreeCreation::start("b", "/w/b", "origin", false);
    let step = c.on_add_result(false, 1, "", "fatal: invalid reference\n");
    assert!(matches!(step, CreateStep::Failed(_)));

    let (mut c, _) = WorktreeCreation::start("b", "/w/b", "origin", false);
    c.on_add_result(true, 0, "", "");
    let step = c.on_dir_check(false);
    assert!(matches!(step, CreateStep::Failed(m) if m == "Worktree directory was not created: /w/b"));
}
