//! What a finished fetch means: success, success with only benign noise on
//! standard error, or a real failure.

use vstd::prelude::*;
use crate::protocol::{EventView, WatcherEvent};
use crate::text::{
    contains, has_infix, is_prefix, join_lines, joined, lines_of, lowered, split_lines,
    starts_with, to_lower, trim, trimmed, views,
};

verus! {

/// What the fetch process returned.
pub struct FetchOutput {
    /// Whether it exited with success.
    pub success: bool,
    /// Its standard output.
    pub stdout: String,
    /// Its standard error.
    pub stderr: String,
}

/// The trimmed lines that are not blank, in order.
pub open spec fn nonblank_trimmed(lines: Seq<Seq<char>>) -> Seq<Seq<char>> {
    lines.filter_map(
        |l: Seq<char>|
            if trimmed(l).len() > 0 {
                Some(trimmed(l))
            } else {
                None
            },
    )
}

/// The messages of a fetch: the non-blank lines of standard error, then of standard
/// output, each trimmed.
pub open spec fn fetch_messages(stdout: Seq<char>, stderr: Seq<char>) -> Seq<Seq<char>> {
    nonblank_trimmed(lines_of(stderr) + lines_of(stdout))
}

/// The messages joined by newlines, or nothing when there is none.
pub open spec fn message_of(msgs: Seq<Seq<char>>) -> Option<Seq<char>> {
    if msgs.len() == 0 {
        None
    } else {
        Some(joined(msgs))
    }
}

/// A line of standard error that does not mean failure: blank once trimmed, or, in
/// lower case, a warning, a hint, a `from ` line, or a post-quantum notice.
pub open spec fn is_benign(line: Seq<char>) -> bool {
    let l = lowered(trimmed(line));
    l.len() == 0 || is_prefix("warning"@, l) || has_infix(l, "post-quantum"@) || is_prefix(
        "hint:"@,
        l,
    ) || is_prefix("from "@, l)
}

/// Standard error holds a line that is not benign.
pub open spec fn has_real_error(stderr: Seq<char>) -> bool {
    exists|i: int| 0 <= i < lines_of(stderr).len() && !is_benign(#[trigger] lines_of(stderr)[i])
}

/// The event a finished fetch is reported by.
pub open spec fn fetch_verdict(success: bool, stdout: Seq<char>, stderr: Seq<char>) -> EventView {
    if !success && has_real_error(stderr) {
        EventView::FetchFailed(stderr)
    } else {
        EventView::FetchCompleted(message_of(fetch_messages(stdout, stderr)))
    }
}

/// Whether one line of standard error is benign.
fn line_is_benign(line: &str) -> (r: bool)
    ensures
        r == is_benign(line@),
{
    let l = to_lower(trim(line));
    let l = l.as_str();
    l.is_empty() || starts_with(l, "warning") || contains(l, "post-quantum") || starts_with(
        l,
        "hint:",
    ) || starts_with(l, "from ")
}

/// Appends to `msgs` the trimmed non-blank lines of `lines`.
pub(crate) fn collect_messages(msgs: &mut Vec<String>, lines: &Vec<String>)
    ensures
        views(final(msgs)@) == views(old(msgs)@) + nonblank_trimmed(views(lines@)),
{
    let ghost f = |l: Seq<char>|
        if trimmed(l).len() > 0 {
            Some(trimmed(l))
        } else {
            None
        };
    let mut i: usize = 0;
    assert(views(lines@).subrange(0, 0).filter_map(f) =~= Seq::empty());
    assert(views(msgs@) =~= views(old(msgs)@) + Seq::empty());
    while i < lines.len()
        invariant
            i <= lines.len(),
            f == (|l: Seq<char>|
                if trimmed(l).len() > 0 {
                    Some(trimmed(l))
                } else {
                    None
                }),
            views(msgs@) == views(old(msgs)@) + views(lines@).subrange(0, i as int).filter_map(f),
        decreases lines.len() - i,
    {
        let t = trim(lines[i].as_str());
        let ghost pre = views(lines@).subrange(0, i + 1);
        let ghost before = views(msgs@);
        proof {
            assert(pre.drop_last() == views(lines@).subrange(0, i as int));
            assert(pre.last() == lines@[i as int]@);
            assert(f(pre.last()) == if t@.len() > 0 {
                Some(t@)
            } else {
                None
            });
        }
        if !t.is_empty() {
            msgs.push(String::from_str(t));
            proof {
                assert(pre.filter_map(f) == pre.drop_last().filter_map(f) + seq![t@]);
                assert(views(msgs@) =~= before.push(t@));
                assert(views(msgs@) =~= views(old(msgs)@) + pre.filter_map(f));
            }
        }
        i = i + 1;
    }
    assert(views(lines@).subrange(0, lines.len() as int) == views(lines@));
}

/// Standard error holds a line that is not benign.
fn real_error_in(stderr: &str) -> (r: bool)
    ensures
        r == has_real_error(stderr@),
{
    let lines = split_lines(stderr);
    let mut i: usize = 0;
    while i < lines.len()
        invariant
            i <= lines.len(),
            views(lines@) == lines_of(stderr@),
            forall|j: int| 0 <= j < i ==> is_benign(#[trigger] lines_of(stderr@)[j]),
        decreases lines.len() - i,
    {
        assert(views(lines@)[i as int] == lines@[i as int]@);
        if !line_is_benign(lines[i].as_str()) {
            return true;
        }
        i = i + 1;
    }
    false
}

/// The event that reports a finished fetch. On success, or on failure whose
/// standard error is only benign noise, `FetchCompleted` with the trimmed non-blank
/// lines of standard error then standard output (none when there is none); on any
/// other failure, `FetchFailed` with standard error.
pub fn classify_fetch(output: &FetchOutput) -> (r: WatcherEvent)
    ensures
        r@ == fetch_verdict(output.success, output.stdout@, output.stderr@),
{
    if !output.success && real_error_in(output.stderr.as_str()) {
        return WatcherEvent::FetchFailed(output.stderr.clone());
    }
    let mut msgs: Vec<String> = Vec::new();
    let err_lines = split_lines(output.stderr.as_str());
    let out_lines = split_lines(output.stdout.as_str());
    collect_messages(&mut msgs, &err_lines);
    collect_messages(&mut msgs, &out_lines);
    proof {
        let f = |l: Seq<char>|
            if trimmed(l).len() > 0 {
                Some(trimmed(l))
            } else {
                None
            };
        lemma_filter_map_append(views(err_lines@), views(out_lines@), f);
        assert(views(msgs@) =~= fetch_messages(output.stdout@, output.stderr@));
    }
    if msgs.len() == 0 {
        WatcherEvent::FetchCompleted(None)
    } else {
        WatcherEvent::FetchCompleted(Some(join_lines(&msgs)))
    }
}

/// The event that reports a fetch that could not be run.
pub fn fetch_spawn_failed(message: String) -> (r: WatcherEvent)
    ensures
        r@ == EventView::FetchFailed(message@),
{
    WatcherEvent::FetchFailed(message)
}

pub proof fn lemma_filter_map_append<A, B>(a: Seq<A>, b: Seq<A>, f: spec_fn(A) -> Option<B>)
    ensures
        (a + b).filter_map(f) == a.filter_map(f) + b.filter_map(f),
    decreases b.len(),
{
    if b.len() == 0 {
        assert(a + b == a);
        assert(a.filter_map(f) + b.filter_map(f) =~= a.filter_map(f));
    } else {
        lemma_filter_map_append(a, b.drop_last(), f);
        assert((a + b).drop_last() == a + b.drop_last());
        assert((a + b).last() == b.last());
        match f(b.last()) {
            Some(x) => {
                assert((a + b).filter_map(f) =~= a.filter_map(f) + b.filter_map(f));
            },
            None => {},
        }
    }
}

} // verus!
