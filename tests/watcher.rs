use git_worktree_agent::config::Config;
use git_worktree_agent::executor::CommandOutput;
use git_worktree_agent::fetch::{classify_fetch, FetchOutput};
use git_worktree_agent::protocol::{Action, WatcherEvent};
use git_worktree_agent::repository::RemoteBranch;
use git_worktree_agent::watcher::Watcher;

fn remote(name: &str) -> RemoteBranch {
    RemoteBranch {
        full_ref: format!("origin/{}", name),
        name: name.to_string(),
        remote: "origin".to_string(),
        commit: "abc1234".to_string(),
        is_local: false,
    }
}

fn creating(a: &Action) -> Option<String> {
    match a {
        Action::CreateWorktree(b) => Some(b.clone()),
        _ => None,
    }
}

fn names(events: &[WatcherEvent]) -> Vec<String> {
    events
        .iter()
        .map(|e| match e {
            WatcherEvent::FetchStarted => "FetchStarted".to_string(),
            WatcherEvent::FetchCompleted(_) => "FetchCompleted".to_string(),
            WatcherEvent::FetchFailed(_) => "FetchFailed".to_string(),
            WatcherEvent::NewBranchesFound(v) => format!("NewBranchesFound({})", v.join(",")),
            WatcherEvent::WorktreeCreating(b) => format!("WorktreeCreating({})", b),
            WatcherEvent::WorktreeCreated(b, p) => format!("WorktreeCreated({},{})", b, p),
            WatcherEvent::WorktreeCreateFailed(b, m) => format!("WorktreeCreateFailed({},{})", b, m),
            WatcherEvent::HookStarted(b) => format!("HookStarted({})", b),
            WatcherEvent::HookOutput(b, o) => match o {
                CommandOutput::Stdout(l) => format!("HookOutput({},out:{})", b, l),
                CommandOutput::Stderr(l) => format!("HookOutput({},err:{})", b, l),
                _ => format!("HookOutput({},?)", b),
            },
            WatcherEvent::HookCompleted(b, c) => format!("HookCompleted({},{})", b, c),
        })
        .collect()
}

#[test]
fn one_branch_provisioned_at_a_time() {
    let mut w = Watcher::new();
    assert_eq!(creating(&w.queue_branch("a")), Some("a".to_string()));
    assert_eq!(creating(&w.queue_branch("b")), None);
    assert_eq!(creating(&w.queue_branch("c")), None);
    assert!(w.is_current("a"));
    assert!(!w.is_current("b"));
    assert!(w.is_pending("b") && w.is_pending("c"));
    assert_eq!(w.pending_count(), 3);
    // Enqueueing a branch already held changes nothing.
    assert_eq!(creating(&w.queue_branch("a")), None);
    assert_eq!(creating(&w.queue_branch("b")), None);
    assert_eq!(w.pending_count(), 3);
    assert_eq!(names(&w.take_events()), vec!["WorktreeCreating(a)"]);
}

#[test]
fn fifo_order_of_provisioning() {
    let config = Config::default();
    let mut w = Watcher::new();
    let mut started = Vec::new();
    for b in ["A", "B", "C"] {
        if let Some(s) = creating(&w.queue_branch(b)) {
            started.push(s);
        }
    }
    for _ in 0..3 {
        let current = started.last().unwrap().clone();
        let a = w.on_worktree_created(&config, &current, "/p", &Vec::new());
        if let Some(s) = creating(&a) {
            started.push(s);
        }
    }
    assert_eq!(started, vec!["A", "B", "C"]);
    assert!(!w.is_processing());
}

#[test]
fn no_stall_on_failure() {
    let mut w = Watcher::new();
    w.queue_branch("A");
    w.queue_branch("B");
    let a = w.on_worktree_failed("A", "boom");
    assert_eq!(creating(&a), Some("B".to_string()));
    assert!(w.is_current("B"));
    assert_eq!(
        names(&w.take_events()),
        vec!["WorktreeCreating(A)", "WorktreeCreateFailed(A,boom)", "WorktreeCreating(B)"]
    );
}

#[test]
fn fetch_is_not_started_twice() {
    let mut w = Watcher::new();
    assert!(w.start_fetch());
    assert!(w.is_fetching());
    assert!(!w.start_fetch());
    assert_eq!(names(&w.take_events()), vec!["FetchStarted"]);
    w.on_fetch_failed();
    assert!(!w.is_fetching());
    assert!(w.start_fetch());
}

fn fetch(success: bool, stdout: &str, stderr: &str) -> WatcherEvent {
    classify_fetch(&FetchOutput {
        success,
        stdout: stdout.to_string(),
        stderr: stderr.to_string(),
    })
}

#[test]
fn benign_fetch_noise_is_success() {
    match fetch(false, "", "warning: redirecting to https://...\n") {
        WatcherEvent::FetchCompleted(Some(m)) => {
            assert_eq!(m, "warning: redirecting to https://...")
        }
        _ => panic!("expected FetchCompleted"),
    }
}

#[test]
fn real_fetch_error_is_failure() {
    match fetch(false, "", "fatal: unable to access ...\n") {
        WatcherEvent::FetchFailed(m) => assert_eq!(m, "fatal: unable to access ...\n"),
        _ => panic!("expected FetchFailed"),
    }
}

#[test]
fn fetch_messages_are_trimmed_and_joined() {
    match fetch(true, "  out line \n\n", " hint: x\nFrom github.com:a/b\n") {
        WatcherEvent::FetchCompleted(Some(m)) => {
            assert_eq!(m, "hint: x\nFrom github.com:a/b\nout line")
        }
        _ => panic!("expected FetchCompleted"),
    }
    match fetch(true, "", "") {
        WatcherEvent::FetchCompleted(None) => {}
        _ => panic!("expected FetchCompleted(None)"),
    }
    match fetch(false, "", "WARNING: x\nPost-Quantum notice\n") {
        WatcherEvent::FetchCompleted(Some(_)) => {}
        _ => panic!("expected FetchCompleted"),
    }
}

#[test]
fn registry_reconciliation() {
    let config = Config::default();
    let mut w = Watcher::new();
    w.init(&vec![remote("main"), remote("feature-a")], &Vec::new());
    let found = w.reconcile(&vec![remote("main"), remote("feature-b")], &Vec::new(), &config);
    assert_eq!(found, vec!["feature-b"]);
    assert!(w.get_branch_by_name("feature-a").is_none());
    assert!(w.get_branch_by_name("feature-b").is_some());
    assert_eq!(w.get_known_branches().len(), 2);
}

#[test]
fn reconciliation_skips_ignored_and_prefers_remote() {
    let config = Config::default();
    let mut w = Watcher::new();
    let mut local = RemoteBranch::local("x");
    local.commit = "local".to_string();
    let found = w.reconcile(
        &vec![remote("x"), remote("dependabot/a"), remote("x")],
        &vec![local, RemoteBranch::local("y")],
        &config,
    );
    assert_eq!(found, vec!["x"]);
    assert_eq!(w.get_known_branches().len(), 3);
    assert!(!w.get_branch_by_name("x").unwrap().is_local);
    assert!(w.get_branch_by_name("y").unwrap().is_local);
}

#[test]
fn round_trip_without_setup_command() {
    let config = Config::default();
    let mut w = Watcher::new();
    let a = w.queue_branch("X");
    assert_eq!(creating(&a), Some("X".to_string()));
    let b = w.on_worktree_created(&config, "X", "/w/X", &vec!["ok".to_string()]);
    assert!(matches!(b, Action::Idle));
    assert_eq!(
        names(&w.take_events()),
        vec!["WorktreeCreating(X)", "WorktreeCreated(X,/w/X)"]
    );
    assert!(!w.is_processing());
    assert_eq!(w.pending_count(), 0);
    assert_eq!(w.command_logs.len(), 1);
    assert_eq!(w.command_logs[0].command, "git worktree add (X)");
    assert_eq!(w.command_logs[0].output.len(), 2);
    assert!(w.command_logs[0].succeeded());
}

#[test]
fn hook_streaming() {
    let mut config = Config::default();
    config.post_create_command = Some("setup".to_string());
    let mut w = Watcher::new();
    w.queue_branch("br");
    let a = w.on_worktree_created(&config, "br", "/w/br", &Vec::new());
    match a {
        Action::RunHook { branch, command, path } => {
            assert_eq!((branch.as_str(), command.as_str(), path.as_str()), ("br", "setup", "/w/br"))
        }
        _ => panic!("expected RunHook"),
    }
    assert!(w.has_running_hook("br"));
    assert!(w.is_current("br"));
    w.take_events();
    w.on_hook_output("br", CommandOutput::Stdout("a".to_string()));
    w.on_hook_output("br", CommandOutput::Stdout("b".to_string()));
    w.on_hook_output("br", CommandOutput::Exit(0));
    assert_eq!(
        names(&w.take_events()),
        vec!["HookOutput(br,out:a)", "HookOutput(br,out:b)", "HookCompleted(br,0)"]
    );
    assert!(!w.has_running_hook("br"));
    assert!(!w.is_processing());
    let log = w.command_logs.last().unwrap();
    assert_eq!(log.command, "setup");
    assert_eq!(log.output.len(), 3);
    assert_eq!(log.summary(), "\u{2713} setup");
}

#[test]
fn hook_start_failure_completes_with_minus_one() {
    let mut config = Config::default();
    config.post_create_command = Some("bad".to_string());
    let mut w = Watcher::new();
    w.queue_branch("a");
    w.queue_branch("b");
    w.on_worktree_created(&config, "a", "/w/a", &Vec::new());
    w.take_events();
    let next = w.on_hook_output("a", CommandOutput::Error("no shell".to_string()));
    assert_eq!(creating(&next), Some("b".to_string()));
    assert_eq!(
        names(&w.take_events()),
        vec!["HookCompleted(a,-1)", "WorktreeCreating(b)"]
    );
    let log = w.command_logs.last().unwrap();
    assert_eq!(log.summary(), "\u{2717} bad (exit code: -1)");
}

#[test]
fn fetch_completion_enqueues_new_branches_when_auto_create_is_on() {
    let mut config = Config::default();
    config.auto_create_worktrees = true;
    let mut w = Watcher::new();
    w.init(&vec![remote("main")], &Vec::new());
    assert!(w.start_fetch());
    w.take_events();
    let a = w.on_fetch_complete(
        &mut config,
        1234,
        Some(vec![remote("main"), remote("n1"), remote("n2"), remote("done")]),
        Vec::new(),
        &vec!["done".to_string()],
    );
    assert_eq!(creating(&a), Some("n1".to_string()));
    assert!(!w.is_fetching());
    assert_eq!(config.last_fetch, Some(1234));
    assert_eq!(
        names(&w.take_events()),
        vec!["NewBranchesFound(n1,n2,done)", "WorktreeCreating(n1)"]
    );
    assert!(w.is_pending("n2"));
    assert!(!w.is_pending("done"));
}

#[test]
fn failed_branch_scan_keeps_the_registry() {
    let mut config = Config::default();
    let mut w = Watcher::new();
    w.init(&vec![remote("main")], &Vec::new());
    let a = w.on_fetch_complete(&mut config, 5, None, Vec::new(), &Vec::new());
    assert!(matches!(a, Action::Idle));
    assert!(w.get_branch_by_name("main").is_some());
    assert_eq!(config.last_fetch, Some(5));
}

#[test]
fn fetch_logs_hold_each_line() {
    let mut w = Watcher::new();
    w.add_fetch_log("origin", "one\ntwo");
    w.add_fetch_success_log("origin");
    w.add_command_log("b", "note");
    w.add_worktree_log("b", &vec!["fine".to_string(), "ERROR: bad".to_string()]);
    assert_eq!(w.command_logs.len(), 4);
    assert_eq!(w.command_logs[0].branch, "fetch:origin");
    assert_eq!(w.command_logs[0].command, "git fetch --prune origin");
    assert_eq!(w.command_logs[0].output.len(), 3);
    assert!(w.command_logs[0].is_system_log);
    assert!(matches!(&w.command_logs[1].output[0], CommandOutput::Stdout(s) if s == "Fetch successful"));
    assert!(w.command_logs[2].is_running);
    assert_eq!(w.command_logs[2].summary(), "Running: note");
    assert!(matches!(&w.command_logs[3].output[1], CommandOutput::Stderr(s) if s == "ERROR: bad"));
    w.add_local_branch("loc");
    assert!(w.get_branch_by_name("loc").unwrap().is_local);
}
