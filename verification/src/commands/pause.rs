//! Interrupting a shift.

use crate::clock::current_instant;
use crate::format::{update_last_block, with_last_end, FileFormat, TrackingState};
use vstd::prelude::*;

verus! {

/// What a request to pause led to.
#[derive(Clone, Copy, Debug, PartialEq, Eq, Structural)]
pub enum PauseOutcome {
    /// The running block was closed.
    Paused,
    /// No shift is in progress; nothing changed.
    NotTracking,
}

/// `post` is `pre` with its last block closed at `now` and the shift interrupted.
pub open spec fn paused(pre: FileFormat, post: FileFormat, now: i64) -> bool {
    &&& post.state == TrackingState::Paused
    &&& post.times@ == with_last_end(pre.times@, now)
    &&& post.version == pre.version
    &&& post.tasks == pre.tasks
    &&& post.past == pre.past
}

/// What a request to pause at the instant `now` makes of `pre`, and what it
/// reports.
pub open spec fn is_pause(pre: FileFormat, post: FileFormat, now: i64, outcome: PauseOutcome)
    -> bool {
    if pre.state == TrackingState::Stopped {
        outcome == PauseOutcome::NotTracking && post.same_as(pre)
    } else {
        outcome == PauseOutcome::Paused && paused(pre, post, now)
    }
}

/// Interrupts the shift at the instant `now`. Without a shift in progress the
/// request changes nothing.
pub fn pause_at(data: &mut FileFormat, now: i64) -> (outcome: PauseOutcome)
    ensures
        is_pause(*old(data), *final(data), now, outcome),
        old(data).wf() ==> final(data).wf(),
{
    if data.state == TrackingState::Stopped {
        return PauseOutcome::NotTracking;
    }
    update_last_block(&mut data.times, now);
    data.state = TrackingState::Paused;
    PauseOutcome::Paused
}

/// Interrupts the shift at the instant that the clock shows: what `pause_at`
/// does at some instant.
pub fn pause(data: &mut FileFormat) -> (outcome: PauseOutcome)
    ensures
        exists|now: i64| is_pause(*old(data), *final(data), now, outcome),
        old(data).wf() ==> final(data).wf(),
{
    let now = current_instant();
    pause_at(data, now)
}

} // verus!
