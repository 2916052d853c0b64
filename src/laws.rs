//! Laws of the provisioning queue and the registry, proved over the models that
//! the watcher's methods are specified by.

use vstd::prelude::*;
use crate::executor::OutputView;
use crate::protocol::{ActionView, EventView, QueueView, lemma_enqueue_wf};
use crate::registry::{discovered, lemma_merged_names, merged};
use crate::repository::{BranchView, names_of};

verus! {

/// At most one branch is provisioned at a time: enqueueing any sequence of branches
/// keeps the queue well formed (one current branch, never also waiting), and while
/// a branch is being provisioned no other creation starts and no event is sent.
pub proof fn lemma_one_provisioning_at_a_time(q: QueueView, bs: Seq<Seq<char>>)
    requires
        q.wf(),
    ensures
        q.enqueue_all(bs).0.wf(),
        q.current is Some ==> {
            &&& q.enqueue_all(bs).0.current == q.current
            &&& q.enqueue_all(bs).0.events == q.events
            &&& q.enqueue_all(bs).1 == ActionView::Idle
        },
    decreases bs.len(),
{
    if bs.len() > 0 {
        lemma_one_provisioning_at_a_time(q, bs.drop_last());
        lemma_enqueue_wf(q.enqueue_all(bs.drop_last()).0, bs.last());
    }
}

/// Enqueueing distinct branches into the empty queue starts the first and keeps
/// the others waiting in order.
proof fn lemma_fifo_enqueue(bs: Seq<Seq<char>>)
    requires
        bs.no_duplicates(),
        bs.len() > 0,
    ensures
        ({
            let (q, a) = QueueView::empty().enqueue_all(bs);
            &&& q.current == Some(bs[0])
            &&& q.pending == bs.drop_first()
            &&& q.events == seq![EventView::WorktreeCreating(bs[0])]
            &&& a == ActionView::CreateWorktree(bs[0])
        }),
    decreases bs.len(),
{
    let e = QueueView::empty();
    if bs.len() == 1 {
        assert(e.enqueue_all(bs.drop_last()) == (e, ActionView::Idle));
        assert(!e.holds(bs[0]));
        assert(e.pending.push(bs[0]).drop_first() =~= bs.drop_first());
        assert(e.events.push(EventView::WorktreeCreating(bs[0])) =~= seq![
            EventView::WorktreeCreating(bs[0]),
        ]);
    } else {
        let init = bs.drop_last();
        assert forall|i: int, j: int|
            0 <= i < init.len() && 0 <= j < init.len() && i != j implies init[i] != init[j] by {
            assert(init[i] == bs[i] && init[j] == bs[j]);
        }
        lemma_fifo_enqueue(init);
        let q1 = e.enqueue_all(init).0;
        let b = bs.last();
        assert(init[0] == bs[0]);
        if q1.pending.contains(b) {
            let k = choose|k: int| 0 <= k < q1.pending.len() && q1.pending[k] == b;
            assert(bs[k + 1] == b);
        }
        assert(bs[0] != bs[bs.len() - 1]);
        assert(q1.pending.push(b) =~= bs.drop_first());
    }
}

/// Completing the current branch `k` times over makes the `k`-th of the current
/// branch and the waiting ones current.
proof fn lemma_completions(q: QueueView, k: nat)
    requires
        q.current is Some,
        k <= q.pending.len(),
    ensures
        q.complete_times(k).current == Some((seq![q.current->0] + q.pending)[k as int]),
        q.complete_times(k).pending == q.pending.subrange(k as int, q.pending.len() as int),
    decreases k,
{
    let full = seq![q.current->0] + q.pending;
    if k == 0 {
        assert(q.pending.subrange(0, q.pending.len() as int) == q.pending);
    } else {
        let c = q.current->0;
        let q1 = q.finish(c).0;
        assert(q1.current == Some(q.pending[0]));
        assert(q1.pending == q.pending.drop_first());
        lemma_completions(q1, (k - 1) as nat);
        assert((seq![q1.current->0] + q1.pending) =~= q.pending);
        assert(q1.pending.subrange(k - 1, q1.pending.len() as int) =~= q.pending.subrange(
            k as int,
            q.pending.len() as int,
        ));
    }
}

/// First in, first out: after enqueueing distinct branches `bs` into the empty
/// queue, the first is provisioned at once, and each time the current branch is
/// done the next in enqueue order is provisioned.
pub proof fn lemma_fifo(bs: Seq<Seq<char>>)
    requires
        bs.no_duplicates(),
        bs.len() > 0,
    ensures
        QueueView::empty().enqueue_all(bs).1 == ActionView::CreateWorktree(bs[0]),
        forall|k: nat|
            k < bs.len() ==> #[trigger] QueueView::empty().enqueue_all(bs).0.complete_times(
                k,
            ).current == Some(bs[k as int]),
{
    lemma_fifo_enqueue(bs);
    let q = QueueView::empty().enqueue_all(bs).0;
    assert(seq![bs[0]] + bs.drop_first() =~= bs);
    assert forall|k: nat| k < bs.len() implies #[trigger] q.complete_times(k).current == Some(
        bs[k as int],
    ) by {
        lemma_completions(q, k);
    }
}

/// A failed creation never stalls the queue: when the worktree of the current
/// branch cannot be made, the failure is reported and the next waiting branch
/// starts at once.
pub proof fn lemma_no_stall_on_failure(q: QueueView, b: Seq<char>, msg: Seq<char>)
    requires
        q.wf(),
        q.current == Some(b),
        q.pending.len() > 0,
    ensures
        ({
            let (q2, a) = q.create_failed(b, msg);
            &&& q2.current == Some(q.pending[0])
            &&& q2.pending == q.pending.drop_first()
            &&& a == ActionView::CreateWorktree(q.pending[0])
            &&& q2.events == q.events.push(EventView::WorktreeCreateFailed(b, msg)).push(
                EventView::WorktreeCreating(q.pending[0]),
            )
        }),
{
}

/// Round trip: with nothing in progress and no setup command, enqueueing `x` and
/// then reporting its worktree made at `path` sends `WorktreeCreating(x)` then
/// `WorktreeCreated(x, path)`, no `HookStarted`, and leaves the queue empty.
pub proof fn lemma_round_trip(q: QueueView, x: Seq<char>, path: Seq<char>)
    requires
        q.current is None,
        q.pending.len() == 0,
    ensures
        ({
            let (q1, a1) = q.enqueue(x);
            let (q2, a2) = q1.created(x, path, None);
            &&& a1 == ActionView::CreateWorktree(x)
            &&& a2 == ActionView::Idle
            &&& q2.events == q.events + seq![
                EventView::WorktreeCreating(x),
                EventView::WorktreeCreated(x, path),
            ]
            &&& q2.current is None
            &&& q2.pending.len() == 0
        }),
{
    let q1 = q.enqueue(x).0;
    assert(q.pending.push(x).drop_first() =~= Seq::<Seq<char>>::empty());
    let q2 = q1.created(x, path, None).0;
    assert(q2.events =~= q.events + seq![
        EventView::WorktreeCreating(x),
        EventView::WorktreeCreated(x, path),
    ]);
}

/// Non-terminal output of a branch's setup command is reported line by line in
/// order, and changes nothing else.
proof fn lemma_stream_lines(q: QueueView, b: Seq<char>, lines: Seq<OutputView>)
    requires
        forall|i: int| 0 <= i < lines.len() ==> !(#[trigger] lines[i]).is_terminal(),
    ensures
        q.hook_outputs(b, lines) == (
            QueueView {
                events: q.events + lines.map_values(|o: OutputView| EventView::HookOutput(b, o)),
                ..q
            },
            ActionView::Idle,
        ),
    decreases lines.len(),
{
    if lines.len() == 0 {
        assert(q.events + lines.map_values(|o: OutputView| EventView::HookOutput(b, o)) =~= q.events);
    } else {
        lemma_stream_lines(q, b, lines.drop_last());
        assert(!lines.last().is_terminal());
        assert(q.events + lines.map_values(|o: OutputView| EventView::HookOutput(b, o)) =~= (q.events
            + lines.drop_last().map_values(|o: OutputView| EventView::HookOutput(b, o))).push(
            EventView::HookOutput(b, lines.last()),
        ));
    }
}

/// Hook streaming: lines printed by the setup command of the current branch `b`,
/// then its exit with `code`, are reported as one `HookOutput` per line in order,
/// then `HookCompleted(b, code)`; with nothing waiting the queue is then empty.
pub proof fn lemma_hook_streaming(q: QueueView, b: Seq<char>, lines: Seq<OutputView>, code: i32)
    requires
        q.current == Some(b),
        q.pending.len() == 0,
        forall|i: int| 0 <= i < lines.len() ==> !(#[trigger] lines[i]).is_terminal(),
    ensures
        ({
            let (q2, a) = q.hook_outputs(b, lines.push(OutputView::Exit(code)));
            &&& q2.events == q.events + lines.map_values(
                |o: OutputView| EventView::HookOutput(b, o),
            ) + seq![EventView::HookCompleted(b, code)]
            &&& q2.current is None
            &&& a == ActionView::Idle
        }),
{
    let all = lines.push(OutputView::Exit(code));
    assert(all.drop_last() == lines);
    lemma_stream_lines(q, b, lines);
    let q2 = q.hook_outputs(b, all).0;
    assert(q2.events =~= q.events + lines.map_values(|o: OutputView| EventView::HookOutput(b, o))
        + seq![EventView::HookCompleted(b, code)]);
}

/// Registry reconciliation: after a scan of `remote` and `local` branches the
/// registry holds exactly the scanned names, and a name is reported new exactly
/// when the scan of the remote has it, the earlier registry (`known`) lacks it,
/// and it is not ignored.
pub proof fn lemma_reconciliation(
    known: Seq<Seq<char>>,
    remote: Seq<BranchView>,
    local: Seq<BranchView>,
    ignored: spec_fn(Seq<char>) -> bool,
    n: Seq<char>,
)
    ensures
        names_of(merged(merged(Seq::empty(), remote), local)).contains(n) <==> (names_of(
            remote,
        ).contains(n) || names_of(local).contains(n)),
        discovered(names_of(remote), known, ignored).contains(n) <==> (names_of(remote).contains(n)
            && !known.contains(n) && !ignored(n)),
{
    lemma_merged_names(Seq::empty(), remote, n);
    lemma_merged_names(merged(Seq::empty(), remote), local, n);
    assert(names_of(Seq::<BranchView>::empty()) =~= Seq::<Seq<char>>::empty());
    lemma_discovered_members(names_of(remote), known, ignored, n);
}

proof fn lemma_discovered_members(
    scan: Seq<Seq<char>>,
    known: Seq<Seq<char>>,
    ignored: spec_fn(Seq<char>) -> bool,
    n: Seq<char>,
)
    ensures
        discovered(scan, known, ignored).contains(n) <==> (scan.contains(n) && !known.contains(n)
            && !ignored(n)),
    decreases scan.len(),
{
    if scan.len() > 0 {
        let init = scan.drop_last();
        let x = scan.last();
        let prev = discovered(init, known, ignored);
        lemma_discovered_members(init, known, ignored, n);
        assert(init.push(x) == scan);
        if scan.contains(n) && !init.contains(n) {
            let k = choose|k: int| 0 <= k < scan.len() && scan[k] == n;
            if k < init.len() {
                assert(init[k] == n);
            }
        }
        if init.contains(n) {
            let k = choose|k: int| 0 <= k < init.len() && init[k] == n;
            assert(scan[k] == n);
        }
        if x == n {
            assert(scan[scan.len() - 1] == n);
        }
        if !known.contains(x) && !init.contains(x) && !ignored(x) {
            let d = prev.push(x);
            if d.contains(n) && n != x {
                let k = choose|k: int| 0 <= k < d.len() && d[k] == n;
                assert(prev[k] == n);
            }
            if prev.contains(n) {
                let k = choose|k: int| 0 <= k < prev.len() && prev[k] == n;
                assert(d[k] == n);
            }
            if n == x {
                assert(d[prev.len() as int] == n);
            }
        }
    }
}

} // verus!
