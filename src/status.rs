//! The status bar: what the driver shows of the watcher, updated event by event.

use vstd::prelude::*;
use crate::config::HookStatus;
use vstd::string::StringSliceAdditionalSpecFns;
use crate::protocol::{EventView, WatcherEvent, opt_view};
use crate::text::{decimal, int_to_text, wide_to_text};
use vstd::utf8::is_char_boundary;

verus! {

/// What the status bar shows.
#[derive(Debug, Clone, Default)]
pub struct AppStatus {
    /// Whether a fetch is in progress.
    pub is_fetching: bool,
    /// Time of the last successful fetch, in seconds since the Unix epoch.
    pub last_fetch: Option<i64>,
    /// Number of known branches.
    pub remote_branch_count: usize,
    /// Number of worktrees.
    pub worktree_count: usize,
    /// Number of setup commands that run.
    pub running_hooks: usize,
    /// The newest failure message, until an event supersedes it.
    pub last_error: Option<String>,
    /// Whether new branches get a worktree without being asked.
    pub auto_create_enabled: bool,
    /// Seconds between two fetches.
    pub poll_interval: u64,
    /// The remote watched.
    pub remote_name: String,
}

/// How long ago a fetch at `last` was, seen at `now` (both in seconds): seconds
/// under a minute, minutes under an hour, else hours; `never` without a fetch.
pub open spec fn last_fetch_text(last: Option<i64>, now: i64) -> Seq<char> {
    match last {
        None => "never"@,
        Some(t) => {
            let s = now - t;
            if s < 60 {
                decimal(s) + "s ago"@
            } else if s / 60 < 60 {
                decimal(s / 60) + "m ago"@
            } else {
                decimal(s / 3600) + "h ago"@
            }
        },
    }
}

/// Says how long ago the last fetch was.
pub fn format_last_fetch(last: Option<i64>, now: i64) -> (r: String)
    ensures
        r@ == last_fetch_text(last, now),
{
    match last {
        None => String::from_str("never"),
        Some(t) => {
            let s: i128 = now as i128 - t as i128;
            if s < 60 {
                wide_to_text(s).concat("s ago")
            } else if s / 60 < 60 {
                wide_to_text(s / 60).concat("m ago")
            } else {
                wide_to_text(s / 3600).concat("h ago")
            }
        },
    }
}

/// The setup-command status that an exit code stands for.
pub open spec fn hook_status_text(code: i32) -> Option<Seq<char>> {
    if code == 0 {
        None
    } else {
        Some("Exit code: "@ + decimal(code as int))
    }
}

/// `Success` for exit code zero, else `Failed` with the code.
pub fn hook_status_for(exit_code: i32) -> (r: HookStatus)
    ensures
        exit_code == 0 ==> r is Success,
        exit_code != 0 ==> (r matches HookStatus::Failed(m) && m@ == "Exit code: "@ + decimal(
            exit_code as int,
        )),
{
    if exit_code == 0 {
        HookStatus::Success
    } else {
        HookStatus::Failed(String::from_str("Exit code: ").concat(int_to_text(exit_code).as_str()))
    }
}

impl AppStatus {
    /// Takes in one event: fetch start and end set the fetch flag, a failure (fetch or
    /// worktree) becomes the error shown, a successful fetch clears it, and hooks are
    /// counted as they start and end. Other events leave it as it was.
    pub fn apply(&mut self, event: &WatcherEvent)
        ensures
            final(self).last_fetch == old(self).last_fetch,
            final(self).remote_branch_count == old(self).remote_branch_count,
            final(self).worktree_count == old(self).worktree_count,
            final(self).auto_create_enabled == old(self).auto_create_enabled,
            final(self).poll_interval == old(self).poll_interval,
            final(self).remote_name == old(self).remote_name,
            final(self).is_fetching == match event@ {
                EventView::FetchStarted => true,
                EventView::FetchCompleted(_) | EventView::FetchFailed(_) => false,
                _ => old(self).is_fetching,
            },
            opt_view(final(self).last_error) == match event@ {
                EventView::FetchCompleted(_) => None,
                EventView::FetchFailed(m) => Some(m),
                EventView::WorktreeCreateFailed(b, m) => Some(b + ": "@ + m),
                _ => opt_view(old(self).last_error),
            },
            final(self).running_hooks as int == match event@ {
                EventView::HookStarted(_) => vstd::math::min(
                    old(self).running_hooks + 1,
                    usize::MAX as int,
                ),
                EventView::HookCompleted(_, _) => vstd::math::max(
                    old(self).running_hooks - 1,
                    0,
                ),
                _ => old(self).running_hooks as int,
            },
    {
        match event {
            WatcherEvent::FetchStarted => {
                self.is_fetching = true;
            },
            WatcherEvent::FetchCompleted(_) => {
                self.is_fetching = false;
                self.last_error = None;
            },
            WatcherEvent::FetchFailed(m) => {
                self.is_fetching = false;
                self.last_error = Some(m.clone());
            },
            WatcherEvent::WorktreeCreateFailed(b, m) => {
                self.last_error = Some(b.clone().concat(": ").concat(m.as_str()));
            },
            WatcherEvent::HookStarted(_) => {
                self.running_hooks = self.running_hooks.saturating_add(1);
            },
            WatcherEvent::HookCompleted(_, _) => {
                self.running_hooks = self.running_hooks.saturating_sub(1);
            },
            _ => {},
        }
    }
}

/// `j` is the last character boundary of `bytes` at or before `limit` (or zero).
pub open spec fn is_cut(bytes: Seq<u8>, limit: int, j: int) -> bool {
    &&& 0 <= j <= limit
    &&& (j == 0 || is_char_boundary(bytes, j))
    &&& forall|i: int| j < i <= limit ==> !is_char_boundary(bytes, i)
}

/// `s` cut to at most `max_len` bytes when longer: the cut is made three bytes
/// short of the limit, moved back to a character boundary.
pub fn truncate_str(s: &str, max_len: usize) -> (r: &str)
    requires
        s.spec_bytes().len() <= usize::MAX,
    ensures
        s.spec_bytes().len() <= max_len ==> r@ == s@,
        s.spec_bytes().len() > max_len ==> exists|j: int|
            #[trigger] is_cut(s.spec_bytes(), vstd::math::max(max_len - 3, 0), j)
                && r.spec_bytes() == s.spec_bytes().subrange(0, j),
{
    if s.len() <= max_len {
        return s;
    }
    let k = max_len.saturating_sub(3);
    let mut j = k;
    while j > 0 && !s.is_char_boundary(j)
        invariant
            j <= k,
            k as int == vstd::math::max(max_len - 3, 0),
            k < s.spec_bytes().len(),
            forall|i: int| j < i <= k ==> !is_char_boundary(s.spec_bytes(), i),
        decreases j,
    {
        j = j - 1;
    }
    if j == 0 {
        let e = "";
        proof {
            reveal_strlit("");
        }
        assert(e@ =~= Seq::<char>::empty());
        assert(e.spec_bytes() =~= s.spec_bytes().subrange(0, 0));
        assert(is_cut(s.spec_bytes(), k as int, 0));
        return e;
    }
    let (head, _) = s.split_at(j);
    assert(is_cut(s.spec_bytes(), k as int, j as int));
    head
}

} // verus!
