//! Beginning or resuming a shift.

use crate::clock::current_instant;
use crate::format::{FileFormat, TimeBlock, TrackingState};
use vstd::prelude::*;

verus! {

/// What a request to start led to.
#[derive(Clone, Copy, Debug, PartialEq, Eq, Structural)]
pub enum StartOutcome {
    /// A new block was opened at the instant `at`.
    Started { at: i64 },
    /// Time was being tracked already; nothing changed.
    AlreadyTracking,
}

/// `post` is `pre` with a new block opened at `now`.
pub open spec fn started(pre: FileFormat, post: FileFormat, now: i64) -> bool {
    &&& post.state == TrackingState::Tracking
    &&& post.times@.len() == pre.times@.len() + 1
    &&& post.times@.drop_last() == pre.times@
    &&& post.times@.last().start == now
    &&& post.times@.last().end == now
    &&& post.times@.last().finished_tasks@.len() == 0
    &&& post.version == pre.version
    &&& post.tasks == pre.tasks
    &&& post.past == pre.past
}

/// What a request to start at the instant `now` makes of `pre`, and what it
/// reports.
pub open spec fn is_start(pre: FileFormat, post: FileFormat, now: i64, outcome: StartOutcome)
    -> bool {
    if pre.state == TrackingState::Tracking {
        outcome == StartOutcome::AlreadyTracking && post.same_as(pre)
    } else {
        outcome == (StartOutcome::Started { at: now }) && started(pre, post, now)
    }
}

/// Starts or resumes tracking at the instant `now`. While time is being tracked
/// already the request changes nothing.
pub fn start_at(data: &mut FileFormat, now: i64) -> (outcome: StartOutcome)
    ensures
        is_start(*old(data), *final(data), now, outcome),
        old(data).wf() ==> final(data).wf(),
{
    if data.state == TrackingState::Tracking {
        return StartOutcome::AlreadyTracking;
    }
    data.times.push(TimeBlock { start: now, end: now, finished_tasks: Vec::new() });
    data.state = TrackingState::Tracking;
    assert(data.times@.drop_last() == old(data).times@);
    StartOutcome::Started { at: now }
}

/// Starts or resumes tracking at the instant that the clock shows: what
/// `start_at` does at some instant, which is the one that is reported.
pub fn start(data: &mut FileFormat) -> (outcome: StartOutcome)
    ensures
        exists|now: i64| is_start(*old(data), *final(data), now, outcome),
        old(data).wf() ==> final(data).wf(),
{
    let now = current_instant();
    start_at(data, now)
}

} // verus!
