//! Finishing a shift.

use crate::clock::current_instant;
use crate::format::{
    measure_shift, measured_blocks, shift_in_range, shift_seconds, FileFormat, PastTimeBlock,
    TimeBlock, TrackingState,
};
use vstd::prelude::*;

verus! {

/// What a request to stop led to.
#[derive(Clone, Copy, Debug, PartialEq, Eq, Structural)]
pub enum StopOutcome {
    /// The shift was finished and recorded with this length in seconds.
    Finished { seconds: i64 },
    /// No shift is in progress; nothing changed.
    NotTracking,
    /// The length of the shift has no place in `i64`; nothing changed.
    OutOfRange,
}

/// The blocks from which a shift that is stopped at `now` is measured: a paused
/// shift ended at its pause, a running one ends at `now`.
pub open spec fn blocks_at_stop(pre: FileFormat, now: i64) -> Seq<TimeBlock> {
    measured_blocks(pre.times@, pre.state != TrackingState::Paused, now)
}

/// `post` is `pre` with the shift in progress finished at `now`: one summary more,
/// no time blocks, nothing else touched.
pub open spec fn stopped(pre: FileFormat, post: FileFormat, comment: Seq<char>, now: i64) -> bool {
    &&& post.state == TrackingState::Stopped
    &&& post.times@.len() == 0
    &&& post.past@.len() == pre.past@.len() + 1
    &&& post.past@.drop_last() == pre.past@
    &&& post.past@.last().date == pre.times@[0].start
    &&& post.past@.last().seconds == shift_seconds(blocks_at_stop(pre, now))
    &&& post.past@.last().comment@ == comment
    &&& post.past@.last().finished_tasks@.len() == 0
    &&& post.version == pre.version
    &&& post.tasks == pre.tasks
}

/// What a request to stop at the instant `now` makes of `pre`, and what it
/// reports. Without a shift in progress, and with a length that has no place in
/// `i64`, the record stays as it is; else the shift is finished and recorded with
/// its length.
pub open spec fn is_stop(
    pre: FileFormat,
    post: FileFormat,
    comment: Seq<char>,
    now: i64,
    outcome: StopOutcome,
) -> bool {
    if pre.state == TrackingState::Stopped {
        outcome == StopOutcome::NotTracking && post.same_as(pre)
    } else if !shift_in_range(blocks_at_stop(pre, now)) {
        outcome == StopOutcome::OutOfRange && post.same_as(pre)
    } else {
        outcome == (StopOutcome::Finished {
            seconds: shift_seconds(blocks_at_stop(pre, now)) as i64,
        }) && stopped(pre, post, comment, now)
    }
}

/// Finishes the shift at the instant `now` and appends its summary. Without a shift
/// in progress, or with a length that has no place in `i64`, the request changes
/// nothing. A shift in progress must have a time block to begin with.
pub fn stop_at(data: &mut FileFormat, comment: String, now: i64) -> (outcome: StopOutcome)
    requires
        old(data).state != TrackingState::Stopped ==> old(data).times@.len() > 0,
    ensures
        is_stop(*old(data), *final(data), comment@, now, outcome),
        old(data).wf() ==> final(data).wf(),
{
    if data.state == TrackingState::Stopped {
        return StopOutcome::NotTracking;
    }
    let advance = data.state != TrackingState::Paused;
    match measure_shift(&mut data.times, advance, now) {
        None => StopOutcome::OutOfRange,
        Some(seconds) => {
            let date = data.times[0].start;
            data.past.push(PastTimeBlock { date, seconds, comment, finished_tasks: Vec::new() });
            data.times = Vec::new();
            data.state = TrackingState::Stopped;
            assert(data.past@.drop_last() == old(data).past@);
            StopOutcome::Finished { seconds }
        },
    }
}

/// Finishes the shift at the instant that the clock shows: what `stop_at` does
/// at some instant. The clock has no say where no shift is in progress, and none
/// on a paused shift, which is measured as it stands: it is recorded with the
/// sum of its blocks whenever that sum has a place in `i64`.
pub fn stop(data: &mut FileFormat, comment: String) -> (outcome: StopOutcome)
    requires
        old(data).state != TrackingState::Stopped ==> old(data).times@.len() > 0,
    ensures
        exists|now: i64| is_stop(*old(data), *final(data), comment@, now, outcome),
        old(data).state != TrackingState::Tracking ==> is_stop(
            *old(data),
            *final(data),
            comment@,
            0,
            outcome,
        ),
        old(data).wf() ==> final(data).wf(),
{
    let now = current_instant();
    stop_at(data, comment, now)
}

} // verus!
