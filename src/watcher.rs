//! The watcher: the registry of known branches, the fetch flag, the provisioning
//! queue, the setup commands that run, and the events sent about all of them.
//! The driver performs the outside work that each call hands back as an `Action`.

use vstd::prelude::*;
use crate::config::Config;
use crate::executor::{CommandLog, CommandOutput, LogView, OutputView, log_views};
use crate::protocol::{
    Action, ActionView, EventView, QueueView, WatcherEvent, event_views, lemma_advance_wf,
    lemma_append_wf,
    lemma_enqueue_wf, lemma_finish_wf, opt_view,
};
use crate::registry::{
    discovered, find_branch, ignored_by, merge_into, merged, missing_from, reconcile_scan,
};
use crate::repository::{BranchView, RemoteBranch, branch_views, names_of};
use crate::text::{
    holds_text, insert_text, is_prefix, lines_of, remove_text, same_text, split_lines, starts_with,
    views,
};

verus! {

/// The output lines of a worktree creation: a line that starts with `ERROR:`
/// counts as standard error, any other as standard output.
pub open spec fn stamped(msgs: Seq<Seq<char>>) -> Seq<OutputView> {
    msgs.map_values(|m: Seq<char>|
        if is_prefix("ERROR:"@, m) {
            OutputView::Stderr(m)
        } else {
            OutputView::Stdout(m)
        })
}

/// The finished log of a worktree creation for `branch` that printed `msgs`.
pub open spec fn worktree_log(branch: Seq<char>, msgs: Seq<Seq<char>>) -> LogView {
    LogView {
        branch: branch,
        command: "git worktree add ("@ + branch + ")"@,
        output: stamped(msgs).push(OutputView::Exit(0)),
        is_running: false,
        exit_code: Some(0),
        is_system_log: false,
    }
}

/// A fresh, running log of `command` for `branch`.
pub open spec fn started_log(branch: Seq<char>, command: Seq<char>) -> LogView {
    LogView {
        branch: branch,
        command: command,
        output: Seq::empty(),
        is_running: true,
        exit_code: None,
        is_system_log: false,
    }
}

/// The finished system log of a fetch from `remote` that printed `out`.
pub open spec fn fetch_log(remote: Seq<char>, out: Seq<OutputView>) -> LogView {
    LogView {
        branch: "fetch:"@ + remote,
        command: "git fetch --prune "@ + remote,
        output: out.push(OutputView::Exit(0)),
        is_running: false,
        exit_code: Some(0),
        is_system_log: true,
    }
}

/// Each line of a text as standard output.
pub open spec fn as_stdout(lines: Seq<Seq<char>>) -> Seq<OutputView> {
    lines.map_values(|m: Seq<char>| OutputView::Stdout(m))
}

/// The position of the newest log of `b`, or `-1`.
pub open spec fn last_log_of(logs: Seq<LogView>, b: Seq<char>) -> int
    decreases logs.len(),
{
    if logs.len() == 0 {
        -1
    } else if logs.last().branch == b {
        logs.len() - 1
    } else {
        last_log_of(logs.drop_last(), b)
    }
}

/// The logs after message `o` of branch `b` went to the newest log of `b`, if any.
pub open spec fn logs_with_output(logs: Seq<LogView>, b: Seq<char>, o: OutputView) -> Seq<
    LogView,
> {
    let k = last_log_of(logs, b);
    if k >= 0 {
        logs.update(k, logs[k].with_output(o))
    } else {
        logs
    }
}

proof fn lemma_last_log_bounds(logs: Seq<LogView>, b: Seq<char>)
    ensures
        -1 <= last_log_of(logs, b) < logs.len(),
        last_log_of(logs, b) >= 0 ==> logs[last_log_of(logs, b)].branch == b,
    decreases logs.len(),
{
    if logs.len() > 0 && logs.last().branch != b {
        lemma_last_log_bounds(logs.drop_last(), b);
    }
}

/// The watcher's state, owned by the driver and changed only through its methods.
pub struct Watcher {
    /// Branches known to exist, remote or local; no name twice.
    known_branches: Vec<RemoteBranch>,
    /// Branches whose setup command runs; no name twice.
    running_hooks: Vec<String>,
    /// Logs of the commands run, oldest first.
    pub command_logs: Vec<CommandLog>,
    /// Whether a fetch is in progress.
    fetch_in_progress: bool,
    /// Branches waiting for a worktree, first in first out.
    pending_branches: Vec<String>,
    /// The branch being provisioned, if any.
    current_processing: Option<String>,
    /// Events not yet taken by the driver, oldest first.
    events: Vec<WatcherEvent>,
}

impl Watcher {
    /// The provisioning queue, with every event sent and not yet taken.
    pub closed spec fn queue(&self) -> QueueView {
        QueueView {
            pending: views(self.pending_branches@),
            current: opt_view(self.current_processing),
            events: event_views(self.events@),
        }
    }

    /// The known branches.
    pub closed spec fn registry(&self) -> Seq<BranchView> {
        branch_views(self.known_branches@)
    }

    /// The branches whose setup command runs.
    pub closed spec fn hooks(&self) -> Seq<Seq<char>> {
        views(self.running_hooks@)
    }

    /// Whether a fetch is in progress.
    pub closed spec fn fetching(&self) -> bool {
        self.fetch_in_progress
    }

    /// The logs of the commands run.
    pub closed spec fn logs(&self) -> Seq<LogView> {
        log_views(self.command_logs@)
    }

    /// The queue is well formed and no list holds a name twice.
    pub closed spec fn wf(&self) -> bool {
        &&& self.queue().wf()
        &&& names_of(self.registry()).no_duplicates()
        &&& self.hooks().no_duplicates()
    }

    /// Registry, hooks, logs and fetch flag are as in `old`.
    pub open spec fn same_but_queue(&self, old: &Watcher) -> bool {
        &&& self.registry() == old.registry()
        &&& self.hooks() == old.hooks()
        &&& self.logs() == old.logs()
        &&& self.fetching() == old.fetching()
    }

    /// A watcher that knows no branch and has nothing to do.
    pub fn new() -> (r: Watcher)
        ensures
            r.wf(),
            r.queue() == QueueView::empty(),
            r.registry().len() == 0,
            r.hooks().len() == 0,
            r.logs().len() == 0,
            !r.fetching(),
    {
        let r = Watcher {
            known_branches: Vec::new(),
            running_hooks: Vec::new(),
            command_logs: Vec::new(),
            fetch_in_progress: false,
            pending_branches: Vec::new(),
            current_processing: None,
            events: Vec::new(),
        };
        assert(views(r.pending_branches@) =~= Seq::empty());
        assert(event_views(r.events@) =~= Seq::empty());
        assert(r.queue() == QueueView::empty());
        r
    }

    /// Sends event `e`.
    fn emit(&mut self, e: WatcherEvent)
        ensures
            final(self).queue() == old(self).queue().send(e@),
            final(self).known_branches == old(self).known_branches,
            final(self).running_hooks == old(self).running_hooks,
            final(self).command_logs == old(self).command_logs,
            final(self).fetch_in_progress == old(self).fetch_in_progress,
    {
        self.events.push(e);
        assert(event_views(self.events@) =~= event_views(old(self).events@).push(e@));
    }

    /// Starts the head of the queue when nothing is in progress.
    fn advance(&mut self) -> (r: Action)
        requires
            old(self).wf(),
        ensures
            final(self).wf(),
            (final(self).queue(), r@) == old(self).queue().advance(),
            final(self).same_but_queue(old(self)),
    {
        proof {
            lemma_advance_wf(self.queue());
        }
        if self.current_processing.is_none() && self.pending_branches.len() > 0 {
            let b = self.pending_branches.remove(0);
            assert(views(self.pending_branches@) =~= views(old(self).pending_branches@).drop_first());
            self.current_processing = Some(b.clone());
            self.emit(WatcherEvent::WorktreeCreating(b.clone()));
            Action::CreateWorktree(b)
        } else {
            Action::Idle
        }
    }

    /// Ends the provisioning of `branch` if it is current, then advances.
    fn finish(&mut self, branch: &str) -> (r: Action)
        requires
            old(self).wf(),
        ensures
            final(self).wf(),
            (final(self).queue(), r@) == old(self).queue().finish(branch@),
            final(self).same_but_queue(old(self)),
    {
        proof {
            lemma_finish_wf(self.queue(), branch@);
        }
        if self.is_current(branch) {
            self.current_processing = None;
            proof {
                lemma_advance_wf(self.queue());
            }
        }
        self.advance()
    }

    /// Whether a branch is being provisioned or waits.
    pub fn is_processing(&self) -> (r: bool)
        ensures
            r == (self.queue().current is Some || self.queue().pending.len() > 0),
    {
        self.current_processing.is_some() || self.pending_branches.len() > 0
    }

    /// The number of branches waiting or being provisioned (at most `usize::MAX`).
    pub fn pending_count(&self) -> (r: usize)
        ensures
            r == vstd::math::min(
                self.queue().pending.len() + if self.queue().current is Some {
                    1int
                } else {
                    0int
                },
                usize::MAX as int,
            ),
    {
        let n = self.pending_branches.len();
        if self.current_processing.is_some() {
            n.saturating_add(1)
        } else {
            n
        }
    }

    /// Whether `branch` waits in the queue.
    pub fn is_pending(&self, branch: &str) -> (r: bool)
        ensures
            r == self.queue().pending.contains(branch@),
    {
        holds_text(&self.pending_branches, branch)
    }

    /// Whether `branch` is being provisioned.
    pub fn is_current(&self, branch: &str) -> (r: bool)
        ensures
            r == (self.queue().current == Some(branch@)),
    {
        match &self.current_processing {
            Some(c) => same_text(c.as_str(), branch),
            None => false,
        }
    }

    /// Whether the setup command of `branch` runs.
    pub fn has_running_hook(&self, branch: &str) -> (r: bool)
        ensures
            r == self.hooks().contains(branch@),
    {
        holds_text(&self.running_hooks, branch)
    }

    /// Asks for a worktree for `branch`: ignored if it waits or is being provisioned,
    /// else appended to the queue, which starts it at once when nothing is in progress.
    pub fn queue_branch(&mut self, branch: &str) -> (r: Action)
        requires
            old(self).wf(),
        ensures
            final(self).wf(),
            (final(self).queue(), r@) == old(self).queue().enqueue(branch@),
            final(self).same_but_queue(old(self)),
    {
        proof {
            lemma_enqueue_wf(self.queue(), branch@);
        }
        if self.is_pending(branch) || self.is_current(branch) {
            return Action::Idle;
        }
        self.pending_branches.push(String::from_str(branch));
        assert(views(self.pending_branches@) =~= views(old(self).pending_branches@).push(branch@));
        proof {
            let q = old(self).queue();
            let q1 = QueueView { pending: q.pending.push(branch@), ..q };
            assert(self.queue() == q1);
            lemma_append_wf(q, branch@);
        }
        self.advance()
    }

    /// Appends log `log`.
    fn push_log(&mut self, log: CommandLog)
        requires
            old(self).wf(),
        ensures
            final(self).wf(),
            final(self).logs() == old(self).logs().push(log@),
            final(self).queue() == old(self).queue(),
            final(self).registry() == old(self).registry(),
            final(self).hooks() == old(self).hooks(),
            final(self).fetching() == old(self).fetching(),
    {
        self.command_logs.push(log);
        assert(log_views(self.command_logs@) =~= log_views(old(self).command_logs@).push(log@));
    }

    /// Records the log of a successful worktree creation for `branch` that printed
    /// `messages`.
    pub fn add_worktree_log(&mut self, branch: &str, messages: &Vec<String>)
        requires
            old(self).wf(),
        ensures
            final(self).wf(),
            final(self).logs() == old(self).logs().push(worktree_log(branch@, views(messages@))),
            final(self).queue() == old(self).queue(),
            final(self).registry() == old(self).registry(),
            final(self).hooks() == old(self).hooks(),
            final(self).fetching() == old(self).fetching(),
    {
        let command = String::from_str("git worktree add (").concat(branch).concat(")");
        let mut log = CommandLog::new(String::from_str(branch), command);
        assert(stamped(views(messages@).subrange(0, 0)) =~= Seq::empty());
        let mut i: usize = 0;
        while i < messages.len()
            invariant
                i <= messages.len(),
                log@ == (LogView {
                    output: stamped(views(messages@).subrange(0, i as int)),
                    ..started_log(branch@, "git worktree add ("@ + branch@ + ")"@)
                }),
            decreases messages.len() - i,
        {
            let line = messages[i].as_str();
            let out = if starts_with(line, "ERROR:") {
                CommandOutput::Stderr(String::from_str(line))
            } else {
                CommandOutput::Stdout(String::from_str(line))
            };
            log.add_output(out);
            assert(stamped(views(messages@).subrange(0, i + 1)) =~= stamped(
                views(messages@).subrange(0, i as int),
            ).push(out@));
            i = i + 1;
        }
        log.add_output(CommandOutput::Exit(0));
        assert(views(messages@).subrange(0, messages.len() as int) == views(messages@));
        assert(log@ == worktree_log(branch@, views(messages@)));
        self.push_log(log);
    }

    /// Records a log of `message` for `branch`, with no output yet.
    pub fn add_command_log(&mut self, branch: &str, message: &str)
        requires
            old(self).wf(),
        ensures
            final(self).wf(),
            final(self).logs() == old(self).logs().push(started_log(branch@, message@)),
            final(self).queue() == old(self).queue(),
            final(self).registry() == old(self).registry(),
            final(self).hooks() == old(self).hooks(),
            final(self).fetching() == old(self).fetching(),
    {
        let log = CommandLog::new(String::from_str(branch), String::from_str(message));
        self.push_log(log);
    }

    /// Records the output of a fetch from `remote_name`, one line each.
    pub fn add_fetch_log(&mut self, remote_name: &str, output: &str)
        requires
            old(self).wf(),
        ensures
            final(self).wf(),
            final(self).logs() == old(self).logs().push(
                fetch_log(remote_name@, as_stdout(lines_of(output@))),
            ),
            final(self).queue() == old(self).queue(),
            final(self).registry() == old(self).registry(),
            final(self).hooks() == old(self).hooks(),
            final(self).fetching() == old(self).fetching(),
    {
        let name = String::from_str("fetch:").concat(remote_name);
        let command = String::from_str("git fetch --prune ").concat(remote_name);
        let mut log = CommandLog::new_system(name, command);
        let lines = split_lines(output);
        assert(as_stdout(views(lines@).subrange(0, 0)) =~= Seq::empty());
        let mut i: usize = 0;
        while i < lines.len()
            invariant
                i <= lines.len(),
                views(lines@) == lines_of(output@),
                log@ == (LogView {
                    branch: "fetch:"@ + remote_name@,
                    command: "git fetch --prune "@ + remote_name@,
                    output: as_stdout(views(lines@).subrange(0, i as int)),
                    is_running: true,
                    exit_code: None,
                    is_system_log: true,
                }),
            decreases lines.len() - i,
        {
            let out = CommandOutput::Stdout(lines[i].clone());
            log.add_output(out);
            assert(as_stdout(views(lines@).subrange(0, i + 1)) =~= as_stdout(
                views(lines@).subrange(0, i as int),
            ).push(out@));
            i = i + 1;
        }
        log.add_output(CommandOutput::Exit(0));
        assert(views(lines@).subrange(0, lines.len() as int) == views(lines@));
        self.push_log(log);
    }

    /// Records a successful fetch from `remote_name` that printed nothing.
    pub fn add_fetch_success_log(&mut self, remote_name: &str)
        requires
            old(self).wf(),
        ensures
            final(self).wf(),
            final(self).logs() == old(self).logs().push(
                fetch_log(remote_name@, seq![OutputView::Stdout("Fetch successful"@)]),
            ),
            final(self).queue() == old(self).queue(),
            final(self).registry() == old(self).registry(),
            final(self).hooks() == old(self).hooks(),
            final(self).fetching() == old(self).fetching(),
    {
        let name = String::from_str("fetch:").concat(remote_name);
        let command = String::from_str("git fetch --prune ").concat(remote_name);
        let mut log = CommandLog::new_system(name, command);
        log.add_output(CommandOutput::Stdout(String::from_str("Fetch successful")));
        log.add_output(CommandOutput::Exit(0));
        assert(log@.output =~= seq![OutputView::Stdout("Fetch successful"@)].push(
            OutputView::Exit(0),
        ));
        self.push_log(log);
    }

    /// Sends `HookStarted`, opens the log of the command and marks its hook running.
    fn run_hook(&mut self, branch: &str, command: &str, path: &str) -> (r: Action)
        requires
            old(self).wf(),
        ensures
            final(self).wf(),
            r@ == ActionView::RunHook(branch@, command@, path@),
            final(self).queue() == old(self).queue().send(EventView::HookStarted(branch@)),
            final(self).logs() == old(self).logs().push(started_log(branch@, command@)),
            final(self).hooks().to_set() == old(self).hooks().to_set().insert(branch@),
            final(self).registry() == old(self).registry(),
            final(self).fetching() == old(self).fetching(),
    {
        self.emit(WatcherEvent::HookStarted(String::from_str(branch)));
        let log = CommandLog::new(String::from_str(branch), String::from_str(command));
        self.push_log(log);
        insert_text(&mut self.running_hooks, branch);
        Action::RunHook {
            branch: String::from_str(branch),
            command: String::from_str(command),
            path: String::from_str(path),
        }
    }

    /// Starts the setup command of a worktree made outside the queue; the queue is
    /// left as it is.
    pub fn start_hook(&mut self, branch: String, command: String, worktree_path: String) -> (r:
        Action)
        requires
            old(self).wf(),
        ensures
            final(self).wf(),
            r@ == ActionView::RunHook(branch@, command@, worktree_path@),
            final(self).queue() == old(self).queue().send(EventView::HookStarted(branch@)),
            final(self).logs() == old(self).logs().push(started_log(branch@, command@)),
            final(self).hooks().to_set() == old(self).hooks().to_set().insert(branch@),
            final(self).registry() == old(self).registry(),
            final(self).fetching() == old(self).fetching(),
    {
        self.run_hook(branch.as_str(), command.as_str(), worktree_path.as_str())
    }

    /// The worktree of `branch` was made at `path`, printing `log_messages`: log it,
    /// send `WorktreeCreated`, then start the setup command if one is configured, or
    /// else end the branch and start the next.
    pub fn on_worktree_created(
        &mut self,
        config: &Config,
        branch: &str,
        path: &str,
        log_messages: &Vec<String>,
    ) -> (r: Action)
        requires
            old(self).wf(),
        ensures
            final(self).wf(),
            (final(self).queue(), r@) == old(self).queue().created(
                branch@,
                path@,
                opt_view(config.post_create_command),
            ),
            final(self).logs() == match config.post_create_command {
                Some(cmd) => old(self).logs().push(worktree_log(branch@, views(log_messages@))).push(
                    started_log(branch@, cmd@),
                ),
                None => old(self).logs().push(worktree_log(branch@, views(log_messages@))),
            },
            final(self).hooks().to_set() == match config.post_create_command {
                Some(cmd) => old(self).hooks().to_set().insert(branch@),
                None => old(self).hooks().to_set(),
            },
            final(self).registry() == old(self).registry(),
            final(self).fetching() == old(self).fetching(),
    {
        self.add_worktree_log(branch, log_messages);
        self.emit(WatcherEvent::WorktreeCreated(String::from_str(branch), String::from_str(path)));
        match &config.post_create_command {
            Some(cmd) => self.run_hook(branch, cmd.as_str(), path),
            None => self.finish(branch),
        }
    }

    /// The worktree of `branch` could not be made: send `WorktreeCreateFailed`, end
    /// the branch and start the next, so that one failure never stalls the queue.
    pub fn on_worktree_failed(&mut self, branch: &str, message: &str) -> (r: Action)
        requires
            old(self).wf(),
        ensures
            final(self).wf(),
            (final(self).queue(), r@) == old(self).queue().create_failed(branch@, message@),
            final(self).same_but_queue(old(self)),
    {
        self.emit(
            WatcherEvent::WorktreeCreateFailed(String::from_str(branch), String::from_str(message)),
        );
        self.finish(branch)
    }

    /// The position of the newest log of `branch`, if any.
    fn find_last_log(&self, branch: &str) -> (r: Option<usize>)
        ensures
            match r {
                Some(k) => k as int == last_log_of(self.logs(), branch@),
                None => last_log_of(self.logs(), branch@) == -1,
            },
    {
        let mut i: usize = self.command_logs.len();
        assert(self.logs().subrange(0, i as int) == self.logs());
        while i > 0
            invariant
                i <= self.command_logs.len(),
                last_log_of(self.logs(), branch@) == last_log_of(
                    self.logs().subrange(0, i as int),
                    branch@,
                ),
            decreases i,
        {
            let ghost pre = self.logs().subrange(0, i as int);
            assert(pre.last() == self.command_logs@[i - 1]@);
            assert(pre.drop_last() == self.logs().subrange(0, i - 1));
            if same_text(self.command_logs[i - 1].branch.as_str(), branch) {
                return Some(i - 1);
            }
            i = i - 1;
        }
        None
    }

    /// Message `output` arrived from the setup command of `branch`: it goes to the
    /// newest log of `branch` and is sent as `HookOutput`; a terminal message is sent
    /// as `HookCompleted` (a start failure with code `-1`), ends the hook and the
    /// branch, and starts the next.
    pub fn on_hook_output(&mut self, branch: &str, output: CommandOutput) -> (r: Action)
        requires
            old(self).wf(),
        ensures
            final(self).wf(),
            (final(self).queue(), r@) == old(self).queue().hook_output(branch@, output@),
            final(self).logs() == logs_with_output(old(self).logs(), branch@, output@),
            final(self).hooks().to_set() == if output@.is_terminal() {
                old(self).hooks().to_set().remove(branch@)
            } else {
                old(self).hooks().to_set()
            },
            final(self).registry() == old(self).registry(),
            final(self).fetching() == old(self).fetching(),
    {
        proof {
            lemma_last_log_bounds(self.logs(), branch@);
        }
        match self.find_last_log(branch) {
            Some(k) => {
                let mut log = self.command_logs.remove(k);
                log.add_output(output.copy());
                self.command_logs.insert(k, log);
                assert(self.logs() =~= old(self).logs().update(
                    k as int,
                    old(self).logs()[k as int].with_output(output@),
                ));
            },
            None => {},
        }
        if output.is_terminal() {
            let code = output.code();
            self.emit(WatcherEvent::HookCompleted(String::from_str(branch), code));
            remove_text(&mut self.running_hooks, branch);
            self.finish(branch)
        } else {
            self.emit(WatcherEvent::HookOutput(String::from_str(branch), output));
            Action::Idle
        }
    }

    /// The setup command of `branch` went away without a terminal message: end the
    /// hook and the branch, and start the next.
    pub fn on_hook_disconnected(&mut self, branch: &str) -> (r: Action)
        requires
            old(self).wf(),
        ensures
            final(self).wf(),
            (final(self).queue(), r@) == old(self).queue().finish(branch@),
            final(self).hooks().to_set() == old(self).hooks().to_set().remove(branch@),
            final(self).logs() == old(self).logs(),
            final(self).registry() == old(self).registry(),
            final(self).fetching() == old(self).fetching(),
    {
        remove_text(&mut self.running_hooks, branch);
        self.finish(branch)
    }

    /// Hands over the events sent since the last call, oldest first.
    pub fn take_events(&mut self) -> (r: Vec<WatcherEvent>)
        requires
            old(self).wf(),
        ensures
            final(self).wf(),
            event_views(r@) == old(self).queue().events,
            final(self).queue() == (QueueView { events: Seq::empty(), ..old(self).queue() }),
            final(self).same_but_queue(old(self)),
    {
        let mut r = Vec::new();
        std::mem::swap(&mut r, &mut self.events);
        assert(event_views(self.events@) =~= Seq::empty());
        r
    }

    /// Takes in the branches of a first scan: the remote ones, then each local one
    /// whose name is not known yet.
    pub fn init(&mut self, remote: &Vec<RemoteBranch>, local: &Vec<RemoteBranch>)
        requires
            old(self).wf(),
        ensures
            final(self).wf(),
            final(self).registry() == merged(
                merged(old(self).registry(), branch_views(remote@)),
                branch_views(local@),
            ),
            final(self).queue() == old(self).queue(),
            final(self).hooks() == old(self).hooks(),
            final(self).logs() == old(self).logs(),
            final(self).fetching() == old(self).fetching(),
    {
        merge_into(&mut self.known_branches, remote);
        merge_into(&mut self.known_branches, local);
    }

    /// Whether a fetch is in progress.
    pub fn is_fetching(&self) -> (r: bool)
        ensures
            r == self.fetching(),
    {
        self.fetch_in_progress
    }

    /// Asks for a fetch. While one is in progress nothing happens and false comes
    /// back; else the flag is set, `FetchStarted` is sent, and true tells the driver
    /// to run the fetch in the background.
    pub fn start_fetch(&mut self) -> (r: bool)
        requires
            old(self).wf(),
        ensures
            final(self).wf(),
            r == !old(self).fetching(),
            final(self).fetching(),
            final(self).queue() == if r {
                old(self).queue().send(EventView::FetchStarted)
            } else {
                old(self).queue()
            },
            final(self).registry() == old(self).registry(),
            final(self).hooks() == old(self).hooks(),
            final(self).logs() == old(self).logs(),
    {
        if self.fetch_in_progress {
            return false;
        }
        self.fetch_in_progress = true;
        self.emit(WatcherEvent::FetchStarted);
        true
    }

    /// The driver saw the fetch fail: the flag is cleared.
    pub fn on_fetch_failed(&mut self)
        requires
            old(self).wf(),
        ensures
            final(self).wf(),
            !final(self).fetching(),
            final(self).queue() == old(self).queue(),
            final(self).registry() == old(self).registry(),
            final(self).hooks() == old(self).hooks(),
            final(self).logs() == old(self).logs(),
    {
        self.fetch_in_progress = false;
    }

    /// Replaces the registry by a fresh scan (remote records win over local ones of
    /// the same name) and returns the names of `remote` it did not know, each once,
    /// in scan order, but those that `config` ignores.
    pub fn reconcile(
        &mut self,
        remote: &Vec<RemoteBranch>,
        local: &Vec<RemoteBranch>,
        config: &Config,
    ) -> (r: Vec<String>)
        requires
            old(self).wf(),
        ensures
            final(self).wf(),
            views(r@) == discovered(
                names_of(branch_views(remote@)),
                names_of(old(self).registry()),
                ignored_by(*config),
            ),
            final(self).registry() == merged(
                merged(Seq::empty(), branch_views(remote@)),
                branch_views(local@),
            ),
            final(self).queue() == old(self).queue(),
            final(self).hooks() == old(self).hooks(),
            final(self).logs() == old(self).logs(),
            final(self).fetching() == old(self).fetching(),
    {
        let (reg, found) = reconcile_scan(&self.known_branches, remote, local, config);
        self.known_branches = reg;
        found
    }

    /// Enqueues each of `names` in order.
    fn enqueue_each(&mut self, names: &Vec<String>) -> (r: Action)
        requires
            old(self).wf(),
        ensures
            final(self).wf(),
            (final(self).queue(), r@) == old(self).queue().enqueue_all(views(names@)),
            final(self).same_but_queue(old(self)),
    {
        let mut r = Action::Idle;
        let mut i: usize = 0;
        assert(views(names@).subrange(0, 0) =~= Seq::<Seq<char>>::empty());
        while i < names.len()
            invariant
                i <= names.len(),
                self.wf(),
                (self.queue(), r@) == old(self).queue().enqueue_all(
                    views(names@).subrange(0, i as int),
                ),
                self.same_but_queue(old(self)),
            decreases names.len() - i,
        {
            let ghost pre = views(names@).subrange(0, i + 1);
            proof {
                assert(pre.drop_last() == views(names@).subrange(0, i as int));
                assert(pre.last() == names@[i as int]@);
            }
            let a = self.queue_branch(names[i].as_str());
            match a {
                Action::Idle => {},
                _ => {
                    r = a;
                },
            }
            i = i + 1;
        }
        assert(views(names@).subrange(0, names.len() as int) == views(names@));
        r
    }

    /// The names of `names` that `present` lacks, in order.
    fn without_worktree(names: &Vec<String>, present: &Vec<String>) -> (r: Vec<String>)
        ensures
            views(r@) == missing_from(views(names@), views(present@)),
    {
        let mut r: Vec<String> = Vec::new();
        let mut i: usize = 0;
        assert(views(r@) =~= missing_from(views(names@).subrange(0, 0), views(present@)));
        while i < names.len()
            invariant
                i <= names.len(),
                views(r@) == missing_from(views(names@).subrange(0, i as int), views(present@)),
            decreases names.len() - i,
        {
            let ghost pre = views(names@).subrange(0, i + 1);
            proof {
                assert(pre.drop_last() == views(names@).subrange(0, i as int));
                assert(pre.last() == names@[i as int]@);
            }
            if !holds_text(present, names[i].as_str()) {
                r.push(names[i].clone());
                assert(views(r@) =~= missing_from(pre, views(present@)));
            }
            i = i + 1;
        }
        assert(views(names@).subrange(0, names.len() as int) == views(names@));
        r
    }

    /// The driver saw the fetch succeed. The flag is cleared and the fetch time set.
    /// Without a remote scan (it failed) nothing else changes. With one, the
    /// registry is reconciled; new branches are reported, and with automatic
    /// creation on, those without a worktree (`worktree_branches`) are enqueued.
    pub fn on_fetch_complete(
        &mut self,
        config: &mut Config,
        now: i64,
        remote: Option<Vec<RemoteBranch>>,
        local: Vec<RemoteBranch>,
        worktree_branches: &Vec<String>,
    ) -> (r: Action)
        requires
            old(self).wf(),
        ensures
            final(self).wf(),
            !final(self).fetching(),
            *final(config) == (Config { last_fetch: Some(now), ..*old(config) }),
            final(self).hooks() == old(self).hooks(),
            final(self).logs() == old(self).logs(),
            remote is None ==> {
                &&& final(self).registry() == old(self).registry()
                &&& final(self).queue() == old(self).queue()
                &&& r@ == ActionView::Idle
            },
            remote matches Some(rb) ==> {
                let found = discovered(
                    names_of(branch_views(rb@)),
                    names_of(old(self).registry()),
                    ignored_by(*old(config)),
                );
                &&& final(self).registry() == merged(
                    merged(Seq::empty(), branch_views(rb@)),
                    branch_views(local@),
                )
                &&& (final(self).queue(), r@) == old(self).queue().after_scan(
                    found,
                    old(config).auto_create_worktrees,
                    views(worktree_branches@),
                )
            },
    {
        self.fetch_in_progress = false;
        let rb = match remote {
            Some(rb) => rb,
            None => {
                config.last_fetch = Some(now);
                return Action::Idle;
            },
        };
        let found = self.reconcile(&rb, &local, config);
        config.last_fetch = Some(now);
        if found.len() == 0 {
            return Action::Idle;
        }
        self.emit(WatcherEvent::NewBranchesFound(found.clone()));
        if !config.auto_create_worktrees {
            return Action::Idle;
        }
        let wanted = Watcher::without_worktree(&found, worktree_branches);
        self.enqueue_each(&wanted)
    }

    /// The known branches, one record per name.
    pub fn get_known_branches(&self) -> (r: Vec<&RemoteBranch>)
        ensures
            r@.len() == self.registry().len(),
            forall|i: int| 0 <= i < r@.len() ==> r@[i]@ == self.registry()[i],
    {
        let mut r: Vec<&RemoteBranch> = Vec::new();
        let mut i: usize = 0;
        while i < self.known_branches.len()
            invariant
                i <= self.known_branches.len(),
                r@.len() == i,
                forall|j: int| 0 <= j < i ==> r@[j]@ == self.registry()[j],
            decreases self.known_branches.len() - i,
        {
            r.push(&self.known_branches[i]);
            i = i + 1;
        }
        r
    }

    /// The record of branch `name`, if it is known.
    pub fn get_branch_by_name(&self, name: &str) -> (r: Option<&RemoteBranch>)
        ensures
            r is None <==> !names_of(self.registry()).contains(name@),
            r matches Some(b) ==> b@.name == name@ && self.registry().contains(b@),
    {
        match find_branch(&self.known_branches, name) {
            Some(k) => {
                assert(self.registry()[k as int] == self.known_branches@[k as int]@);
                Some(&self.known_branches[k])
            },
            None => None,
        }
    }

    /// Records a new local branch `name`, unless a branch of that name is known.
    pub fn add_local_branch(&mut self, name: &str)
        requires
            old(self).wf(),
        ensures
            final(self).wf(),
            final(self).registry() == merged(
                old(self).registry(),
                seq![RemoteBranch::local_view(name@)],
            ),
            final(self).queue() == old(self).queue(),
            final(self).hooks() == old(self).hooks(),
            final(self).logs() == old(self).logs(),
            final(self).fetching() == old(self).fetching(),
    {
        let one = vec![RemoteBranch::local(name)];
        assert(branch_views(one@) =~= seq![RemoteBranch::local_view(name@)]);
        merge_into(&mut self.known_branches, &one);
    }

    /// Starts the head of the queue when nothing is in progress.
    pub fn try_process_next(&mut self) -> (r: Action)
        requires
            old(self).wf(),
        ensures
            final(self).wf(),
            (final(self).queue(), r@) == old(self).queue().advance(),
            final(self).same_but_queue(old(self)),
    {
        self.advance()
    }
}

impl Default for Watcher {
    fn default() -> (r: Watcher)
        ensures
            r.wf(),
            r.queue() == QueueView::empty(),
            r.registry().len() == 0,
            r.hooks().len() == 0,
            r.logs().len() == 0,
            !r.fetching(),
    {
        Watcher::new()
    }
}

} // verus!
