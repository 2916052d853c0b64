use git_worktree_agent::config::{sanitize_branch_name, Config, HookStatus, WorktreeState};
use git_worktree_agent::worktree::WorktreeInfo;

#[test]
fn test_sanitize_branch_name() {
    assert_eq!(sanitize_branch_name("feature/my-branch"), "feature-my-branch");
    assert_eq!(sanitize_branch_name("fix:bug"), "fix-bug");
}

#[test]
fn test_should_ignore_branch() {
    let mut config = Config::default();
    config.ignore_patterns.push("feature/*".to_string());
    config.untracked_branches.push("main".to_string());

    assert!(config.should_ignore_branch("feature/test"));
    assert!(config.should_ignore_branch("main"));
    assert!(!config.should_ignore_branch("develop"));
}

#[test]
fn sanitize_replaces_every_unsafe_character() {
    assert_eq!(sanitize_branch_name("a\\b*c?d\"e<f>g|h"), "a-b-c-d-e-f-g-h");
    assert_eq!(sanitize_branch_name(""), "");
}

#[test]
fn default_config_ignores_bot_branches() {
    let config = Config::default();
    assert_eq!(config.version, 1);
    assert_eq!(config.poll_interval_secs, 10);
    assert_eq!(config.remote_name, "origin");
    assert_eq!(config.worktree_base_dir, "..");
    assert!(config.should_ignore_branch("dependabot/npm/lodash"));
    assert!(config.should_ignore_branch("renovate/serde"));
    assert!(!config.should_ignore_branch("feature/x"));
}

#[test]
fn track_and_untrack_move_a_branch_between_lists() {
    let mut config = Config::default();
    config.untrack_branch("x");
    assert!(config.should_ignore_branch("x"));
    assert!(!config.is_tracked("x"));
    config.track_branch("x");
    assert!(config.is_tracked("x"));
    assert!(!config.should_ignore_branch("x"));
    config.track_branch("x");
    assert_eq!(config.tracked_branches.len(), 1);
    assert!(config.untracked_branches.is_empty());
}

fn state(branch: &str, path: &str) -> WorktreeState {
    WorktreeState {
        branch: branch.to_string(),
        path: path.to_string(),
        created_at: 0,
        hook_status: HookStatus::NotRun,
        is_active: true,
    }
}

#[test]
fn add_worktree_replaces_the_record_of_its_branch() {
    let mut config = Config::default();
    config.add_worktree(state("a", "/1"));
    config.add_worktree(state("b", "/2"));
    config.add_worktree(state("a", "/3"));
    assert_eq!(config.worktrees.len(), 2);
    assert_eq!(config.worktrees[0].branch, "b");
    assert_eq!(config.get_worktree("a").unwrap().path, "/3");
    assert!(config.set_hook_status("a", HookStatus::Success));
    assert_eq!(config.get_worktree("a").unwrap().hook_status, HookStatus::Success);
    assert!(!config.set_hook_status("c", HookStatus::Success));
    config.remove_worktree("a");
    assert!(config.get_worktree("a").is_none());
    assert_eq!(config.worktrees.len(), 1);
}

#[test]
fn worktree_path_joins_base_and_sanitized_name() {
    let config = Config::default();
    let p = config.get_worktree_path("/repo", "feature/x");
    assert_eq!(p, "/repo/../feature-x");
}

#[test]
fn sync_forgets_worktrees_git_no_longer_lists() {
    let mut config = Config::default();
    config.add_worktree(state("a", "/1"));
    config.add_worktree(state("b", "/2"));
    let listed = vec![WorktreeInfo {
        path: "/2".to_string(),
        branch: Some("b".to_string()),
        head: String::new(),
        is_main: false,
        is_locked: false,
        is_prunable: false,
    }];
    assert!(config.sync_worktrees_with_git(&listed));
    assert_eq!(config.worktrees.len(), 1);
    assert_eq!(config.worktrees[0].branch, "b");
    assert!(!config.sync_worktrees_with_git(&listed));
}
