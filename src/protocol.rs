//! The events the watcher reports, the work it asks of its driver, and the
//! provisioning queue as a state machine over plain values.

use vstd::prelude::*;
use crate::executor::{CommandOutput, OutputView};
use crate::registry::missing_from;
use crate::text::views;

verus! {

/// One thing that happened in the watcher, in the order it happened.
#[derive(Debug, Clone)]
pub enum WatcherEvent {
    /// A fetch began.
    FetchStarted,
    /// A fetch succeeded, with what it printed, if anything.
    FetchCompleted(Option<String>),
    /// A fetch failed, with its error text.
    FetchFailed(String),
    /// Branches that appeared on the remote and are not ignored.
    NewBranchesFound(Vec<String>),
    /// Worktree creation began for a branch.
    WorktreeCreating(String),
    /// A branch's worktree was made at a path.
    WorktreeCreated(String, String),
    /// A branch's worktree could not be made, with a message.
    WorktreeCreateFailed(String, String),
    /// A branch's setup command began.
    HookStarted(String),
    /// A branch's setup command printed something.
    HookOutput(String, CommandOutput),
    /// A branch's setup command ended with an exit code (`-1`: it did not start).
    HookCompleted(String, i32),
}

/// What a `WatcherEvent` says, over plain values.
pub enum EventView {
    FetchStarted,
    FetchCompleted(Option<Seq<char>>),
    FetchFailed(Seq<char>),
    NewBranchesFound(Seq<Seq<char>>),
    WorktreeCreating(Seq<char>),
    WorktreeCreated(Seq<char>, Seq<char>),
    WorktreeCreateFailed(Seq<char>, Seq<char>),
    HookStarted(Seq<char>),
    HookOutput(Seq<char>, OutputView),
    HookCompleted(Seq<char>, i32),
}

/// The view of an optional text.
pub open spec fn opt_view(o: Option<String>) -> Option<Seq<char>> {
    match o {
        Some(s) => Some(s@),
        None => None,
    }
}

impl View for WatcherEvent {
    type V = EventView;

    open spec fn view(&self) -> EventView {
        match self {
            WatcherEvent::FetchStarted => EventView::FetchStarted,
            WatcherEvent::FetchCompleted(o) => EventView::FetchCompleted(opt_view(*o)),
            WatcherEvent::FetchFailed(m) => EventView::FetchFailed(m@),
            WatcherEvent::NewBranchesFound(v) => EventView::NewBranchesFound(views(v@)),
            WatcherEvent::WorktreeCreating(b) => EventView::WorktreeCreating(b@),
            WatcherEvent::WorktreeCreated(b, p) => EventView::WorktreeCreated(b@, p@),
            WatcherEvent::WorktreeCreateFailed(b, m) => EventView::WorktreeCreateFailed(b@, m@),
            WatcherEvent::HookStarted(b) => EventView::HookStarted(b@),
            WatcherEvent::HookOutput(b, o) => EventView::HookOutput(b@, o@),
            WatcherEvent::HookCompleted(b, c) => EventView::HookCompleted(b@, *c),
        }
    }
}

/// The views of a sequence of events.
pub open spec fn event_views(v: Seq<WatcherEvent>) -> Seq<EventView> {
    v.map_values(|e: WatcherEvent| e@)
}

/// Outside work the driver must start now.
#[derive(Debug, Clone)]
pub enum Action {
    /// Nothing to start.
    Idle,
    /// Make the worktree of this branch, then report how it went.
    CreateWorktree(String),
    /// Run the setup command `command` for `branch` in the directory `path`.
    RunHook { branch: String, command: String, path: String },
}

/// What an `Action` asks, over plain values.
pub enum ActionView {
    Idle,
    CreateWorktree(Seq<char>),
    RunHook(Seq<char>, Seq<char>, Seq<char>),
}

impl View for Action {
    type V = ActionView;

    open spec fn view(&self) -> ActionView {
        match self {
            Action::Idle => ActionView::Idle,
            Action::CreateWorktree(b) => ActionView::CreateWorktree(b@),
            Action::RunHook { branch, command, path } => ActionView::RunHook(
                branch@,
                command@,
                path@,
            ),
        }
    }
}

/// The provisioning queue and the events it has sent.
pub struct QueueView {
    /// Branches waiting, first in first out.
    pub pending: Seq<Seq<char>>,
    /// The branch whose worktree is being made or whose setup command runs.
    pub current: Option<Seq<char>>,
    /// Events sent so far, oldest first.
    pub events: Seq<EventView>,
}

impl QueueView {
    /// The empty queue with no events.
    pub open spec fn empty() -> QueueView {
        QueueView { pending: Seq::empty(), current: None, events: Seq::empty() }
    }

    /// No branch waits twice, and the current branch does not wait.
    pub open spec fn wf(self) -> bool {
        &&& self.pending.no_duplicates()
        &&& self.current matches Some(c) ==> !self.pending.contains(c)
    }

    /// Branch `b` is waiting or being provisioned.
    pub open spec fn holds(self, b: Seq<char>) -> bool {
        self.pending.contains(b) || self.current == Some(b)
    }

    /// The same queue with event `e` sent.
    pub open spec fn send(self, e: EventView) -> QueueView {
        QueueView { events: self.events.push(e), ..self }
    }

    /// Starts the branch at the head of the queue when nothing is in progress.
    pub open spec fn advance(self) -> (QueueView, ActionView) {
        if self.current is None && self.pending.len() > 0 {
            let b = self.pending[0];
            (
                QueueView {
                    pending: self.pending.drop_first(),
                    current: Some(b),
                    events: self.events.push(EventView::WorktreeCreating(b)),
                },
                ActionView::CreateWorktree(b),
            )
        } else {
            (self, ActionView::Idle)
        }
    }

    /// Appends `b` unless it is held already, then advances.
    pub open spec fn enqueue(self, b: Seq<char>) -> (QueueView, ActionView) {
        if self.holds(b) {
            (self, ActionView::Idle)
        } else {
            QueueView { pending: self.pending.push(b), ..self }.advance()
        }
    }

    /// Enqueues each of `bs` in order; the action is the one that some step asked for.
    pub open spec fn enqueue_all(self, bs: Seq<Seq<char>>) -> (QueueView, ActionView)
        decreases bs.len(),
    {
        if bs.len() == 0 {
            (self, ActionView::Idle)
        } else {
            let (q1, a1) = self.enqueue_all(bs.drop_last());
            let (q2, a2) = q1.enqueue(bs.last());
            (q2, if a2 is Idle { a1 } else { a2 })
        }
    }

    /// Ends the provisioning of `b` (if it is current) and advances.
    pub open spec fn finish(self, b: Seq<char>) -> (QueueView, ActionView) {
        if self.current == Some(b) {
            QueueView { current: None, ..self }.advance()
        } else {
            self.advance()
        }
    }

    /// The worktree of `b` was made at `path`; with a setup command it runs next,
    /// else `b` is done.
    pub open spec fn created(self, b: Seq<char>, path: Seq<char>, hook: Option<Seq<char>>) -> (
        QueueView,
        ActionView,
    ) {
        let q = self.send(EventView::WorktreeCreated(b, path));
        match hook {
            Some(cmd) => (q.send(EventView::HookStarted(b)), ActionView::RunHook(b, cmd, path)),
            None => q.finish(b),
        }
    }

    /// The worktree of `b` could not be made: report it and go on with the next.
    pub open spec fn create_failed(self, b: Seq<char>, msg: Seq<char>) -> (
        QueueView,
        ActionView,
    ) {
        self.send(EventView::WorktreeCreateFailed(b, msg)).finish(b)
    }

    /// The setup command of `b` sent message `o`.
    pub open spec fn hook_output(self, b: Seq<char>, o: OutputView) -> (QueueView, ActionView) {
        if o.is_terminal() {
            self.send(EventView::HookCompleted(b, o.code())).finish(b)
        } else {
            (self.send(EventView::HookOutput(b, o)), ActionView::Idle)
        }
    }

    /// Sends each of `os` from the setup command of `b` in order.
    pub open spec fn hook_outputs(self, b: Seq<char>, os: Seq<OutputView>) -> (
        QueueView,
        ActionView,
    )
        decreases os.len(),
    {
        if os.len() == 0 {
            (self, ActionView::Idle)
        } else {
            let (q1, a1) = self.hook_outputs(b, os.drop_last());
            let (q2, a2) = q1.hook_output(b, os.last());
            (q2, if a2 is Idle { a1 } else { a2 })
        }
    }

    /// After a fetch found the branches `found`: report them, and with automatic
    /// creation on, enqueue those that have no worktree (`with_worktree`) yet.
    pub open spec fn after_scan(
        self,
        found: Seq<Seq<char>>,
        auto_create: bool,
        with_worktree: Seq<Seq<char>>,
    ) -> (QueueView, ActionView) {
        if found.len() == 0 {
            (self, ActionView::Idle)
        } else {
            let q = self.send(EventView::NewBranchesFound(found));
            if auto_create {
                q.enqueue_all(missing_from(found, with_worktree))
            } else {
                (q, ActionView::Idle)
            }
        }
    }

    /// Completes the current branch (if any) `k` times over.
    pub open spec fn complete_times(self, k: nat) -> QueueView
        decreases k,
    {
        if k == 0 {
            self
        } else {
            match self.current {
                Some(c) => self.finish(c).0.complete_times((k - 1) as nat),
                None => self.complete_times((k - 1) as nat),
            }
        }
    }
}

/// Advancing keeps the queue well formed.
pub proof fn lemma_advance_wf(q: QueueView)
    requires
        q.wf(),
    ensures
        q.advance().0.wf(),
{
    if q.current is None && q.pending.len() > 0 {
        let b = q.pending[0];
        let p = q.pending.drop_first();
        assert forall|i: int, j: int| 0 <= i < p.len() && 0 <= j < p.len() && i != j implies p[i]
            != p[j] by {
            assert(p[i] == q.pending[i + 1]);
            assert(p[j] == q.pending[j + 1]);
        }
        if p.contains(b) {
            let k = choose|k: int| 0 <= k < p.len() && p[k] == b;
            assert(q.pending[k + 1] == q.pending[0]);
        }
    }
}

/// Appending a branch that the queue does not hold keeps it well formed.
pub proof fn lemma_append_wf(q: QueueView, b: Seq<char>)
    requires
        q.wf(),
        !q.holds(b),
    ensures
        (QueueView { pending: q.pending.push(b), ..q }).wf(),
{
    let q1 = QueueView { pending: q.pending.push(b), ..q };
        assert forall|i: int, j: int|
            0 <= i < q1.pending.len() && 0 <= j < q1.pending.len() && i != j implies q1.pending[i]
            != q1.pending[j] by {
            if i < q.pending.len() && j < q.pending.len() {
                assert(q1.pending[i] == q.pending[i]);
                assert(q1.pending[j] == q.pending[j]);
            } else if i < q.pending.len() {
                assert(q1.pending[i] == q.pending[i]);
                assert(q.pending.contains(q.pending[i]));
            } else if j < q.pending.len() {
                assert(q1.pending[j] == q.pending[j]);
                assert(q.pending.contains(q.pending[j]));
            }
        }
        if let Some(c) = q1.current {
            if q1.pending.contains(c) {
                let k = choose|k: int| 0 <= k < q1.pending.len() && q1.pending[k] == c;
                if k < q.pending.len() {
                    assert(q.pending[k] == c);
                }
            }
        }
}

/// Enqueueing keeps the queue well formed.
pub proof fn lemma_enqueue_wf(q: QueueView, b: Seq<char>)
    requires
        q.wf(),
    ensures
        q.enqueue(b).0.wf(),
{
    if !q.holds(b) {
        lemma_append_wf(q, b);
        lemma_advance_wf(QueueView { pending: q.pending.push(b), ..q });
    }
}

/// Finishing a branch keeps the queue well formed.
pub proof fn lemma_finish_wf(q: QueueView, b: Seq<char>)
    requires
        q.wf(),
    ensures
        q.finish(b).0.wf(),
{
    if q.current == Some(b) {
        lemma_advance_wf(QueueView { current: None, ..q });
    } else {
        lemma_advance_wf(q);
    }
}

} // verus!
