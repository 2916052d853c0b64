use git_worktree_agent::branch_list::{branch_items, BranchItem, BranchListState, BranchStatus};
use git_worktree_agent::config::{Config, HookStatus};
use git_worktree_agent::logs::LogsState;
use git_worktree_agent::protocol::WatcherEvent;
use git_worktree_agent::state::{CreateWorktreeState, CreateWorktreeStep, SettingsField, SettingsState, SetupState, SetupStep};
use git_worktree_agent::status::{format_last_fetch, hook_status_for, truncate_str, AppStatus};
use git_worktree_agent::worktree::WorktreeInfo;

fn names(v: &[&str]) -> Vec<String> {
    v.iter().map(|s| s.to_string()).collect()
}

#[test]
fn create_dialog_filters_case_insensitively() {
    let mut s = CreateWorktreeState::new(names(&["main", "Feature/A", "fix"]), Some("fix"));
    assert_eq!(s.selected_base_index, 2);
    assert_eq!(s.highlighted_base_branch(), Some("fix"));
    s.base_branch_filter = "FEAT".to_string();
    s.on_filter_changed();
    assert_eq!(s.selected_base_index, 0);
    let f: Vec<String> = s.filtered_branches().into_iter().cloned().collect();
    assert_eq!(f, vec!["Feature/A"]);
    assert!(s.next_step());
    assert_eq!(s.step, CreateWorktreeStep::EnterBranchName);
    assert_eq!(s.selected_base.as_deref(), Some("Feature/A"));
    assert!(!s.next_step());
    s.prev_step();
    assert_eq!(s.step, CreateWorktreeStep::SelectBaseBranch);
    s.base_branch_filter = "zzz".to_string();
    assert_eq!(s.highlighted_base_branch(), None);
    assert!(!s.next_step());
    let d = CreateWorktreeState::new(names(&["a"]), Some("nope"));
    assert_eq!(d.selected_base_index, 0);
}

#[test]
fn settings_fields_round_trip_by_index() {
    let all = SettingsField::all();
    assert_eq!(all.len(), 6);
    for (i, f) in all.iter().enumerate() {
        assert_eq!(f.index(), i);
        assert_eq!(SettingsField::from_index(i), *f);
    }
    assert_eq!(SettingsField::from_index(9), SettingsField::Remote);
    let s = SettingsState::new();
    assert!(!s.editing);
    let w = SetupState::new();
    assert_eq!(w.step, SetupStep::Remote);
    assert_eq!(w.poll_interval, 10);
}

#[test]
fn last_fetch_is_told_in_the_largest_unit() {
    assert_eq!(format_last_fetch(None, 100), "never");
    assert_eq!(format_last_fetch(Some(100), 159), "59s ago");
    assert_eq!(format_last_fetch(Some(0), 125), "2m ago");
    assert_eq!(format_last_fetch(Some(0), 7300), "2h ago");
}

#[test]
fn truncation_cuts_three_short_of_the_limit() {
    assert_eq!(truncate_str("short", 10), "short");
    assert_eq!(truncate_str("abcdefghij", 8), "abcde");
    assert_eq!(truncate_str("ab", 1), "");
    assert_eq!(truncate_str("a\u{e9}bcdef", 5), "a");
}

#[test]
fn status_follows_events() {
    let mut s = AppStatus::default();
    s.apply(&WatcherEvent::FetchStarted);
    assert!(s.is_fetching);
    s.apply(&WatcherEvent::FetchFailed("down".to_string()));
    assert!(!s.is_fetching);
    assert_eq!(s.last_error.as_deref(), Some("down"));
    s.apply(&WatcherEvent::WorktreeCreateFailed("b".to_string(), "boom".to_string()));
    assert_eq!(s.last_error.as_deref(), Some("b: boom"));
    s.apply(&WatcherEvent::HookStarted("b".to_string()));
    assert_eq!(s.running_hooks, 1);
    s.apply(&WatcherEvent::HookCompleted("b".to_string(), 0));
    s.apply(&WatcherEvent::HookCompleted("b".to_string(), 0));
    assert_eq!(s.running_hooks, 0);
    s.apply(&WatcherEvent::FetchCompleted(None));
    assert_eq!(s.last_error, None);
    assert_eq!(hook_status_for(0), HookStatus::Success);
    assert_eq!(hook_status_for(3), HookStatus::Failed("Exit code: 3".to_string()));
}

fn wt(branch: &str, prunable: bool) -> WorktreeInfo {
    WorktreeInfo {
        path: format!("/w/{}", branch),
        branch: Some(branch.to_string()),
        head: String::new(),
        is_main: false,
        is_locked: false,
        is_prunable: prunable,
    }
}

#[test]
fn branch_items_put_worktrees_first_then_names() {
    let mut config = Config::default();
    config.untracked_branches.push("old".to_string());
    config.base_branch = Some("main".to_string());
    let items = branch_items(
        &names(&["zeta", "main", "old", "beta", "gone"]),
        &vec![wt("zeta", false), wt("gone", true)],
        &config,
    );
    let got: Vec<(String, BranchStatus, bool)> =
        items.iter().map(|i| (i.name.clone(), i.status, i.is_default)).collect();
    assert_eq!(
        got,
        vec![
            ("gone".to_string(), BranchStatus::LocalPrunable, false),
            ("zeta".to_string(), BranchStatus::LocalActive, false),
            ("beta".to_string(), BranchStatus::Remote, false),
            ("main".to_string(), BranchStatus::Remote, true),
            ("old".to_string(), BranchStatus::Untracked, false),
        ]
    );
}

fn item(n: &str) -> BranchItem {
    BranchItem { name: n.to_string(), status: BranchStatus::Remote, is_default: false }
}

#[test]
fn list_selection_wraps_and_survives_updates() {
    let mut l = BranchListState::new();
    l.select_next();
    assert_eq!(l.selected, None);
    l.update_items(vec![item("a"), item("b"), item("c")]);
    assert_eq!(l.selected, Some(0));
    l.select_previous();
    assert_eq!(l.selected, Some(2));
    l.select_next();
    assert_eq!(l.selected, Some(0));
    l.select_by_name("b");
    assert_eq!(l.selected_branch().as_deref(), Some("b"));
    l.update_items(vec![item("x"), item("b")]);
    assert_eq!(l.selected, Some(1));
    l.update_items(vec![item("y")]);
    assert_eq!(l.selected, Some(1));
    assert!(l.selected().is_none());
}

#[test]
fn logs_scroll_within_bounds() {
    let mut s = LogsState { scroll: 0, max_scroll: 2 };
    s.scroll_up();
    assert_eq!(s.scroll, 0);
    s.scroll_down();
    s.scroll_down();
    s.scroll_down();
    assert_eq!(s.scroll, 2);
    s.scroll = 0;
    s.scroll_to_bottom();
    assert_eq!(s.scroll, 2);
}
