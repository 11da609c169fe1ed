//! Looking at the shift in progress.

use crate::clock::current_instant;
use crate::format::{
    measure_shift, measured_blocks, shift_in_range, shift_seconds, FileFormat, TimeBlock,
    TrackingState,
};
use vstd::prelude::*;

verus! {

/// What the timer of the shift in progress shows.
#[derive(Clone, Copy, Debug, PartialEq, Eq, Structural)]
pub enum Timer {
    /// No shift is in progress.
    Idle,
    /// The shift has lasted this many seconds so far.
    Running { seconds: i64 },
    /// The length of the shift has no place in `i64`.
    OutOfRange,
}

/// The state and the timer, as `status` reports them.
#[derive(Clone, Copy, Debug, PartialEq, Eq, Structural)]
pub struct Status {
    pub state: TrackingState,
    pub timer: Timer,
}

/// The blocks from which the timer is read at `now`: a running shift is measured
/// up to `now`, a paused one up to its pause.
pub open spec fn blocks_at_status(pre: FileFormat, now: i64) -> Seq<TimeBlock> {
    measured_blocks(pre.times@, pre.state == TrackingState::Tracking, now)
}

/// What `status` reports of `pre` at the instant `now`.
pub open spec fn status_of(pre: FileFormat, now: i64) -> Status {
    Status {
        state: pre.state,
        timer: if pre.state == TrackingState::Stopped {
            Timer::Idle
        } else if shift_in_range(blocks_at_status(pre, now)) {
            Timer::Running { seconds: shift_seconds(blocks_at_status(pre, now)) as i64 }
        } else {
            Timer::OutOfRange
        },
    }
}

/// The time blocks that `status` leaves behind: those that the timer was read
/// from, or the old ones where there was no timer to read.
pub open spec fn times_after_status(pre: FileFormat, now: i64) -> Seq<TimeBlock> {
    if status_of(pre, now).timer is Running {
        blocks_at_status(pre, now)
    } else {
        pre.times@
    }
}

/// What `status` at the instant `now` makes of `pre`, and what it reports:
/// nothing changes but the end of the block that is running.
pub open spec fn is_status(pre: FileFormat, post: FileFormat, now: i64, status: Status) -> bool {
    &&& status == status_of(pre, now)
    &&& post.times@ == times_after_status(pre, now)
    &&& post.state == pre.state
    &&& post.version == pre.version
    &&& post.tasks == pre.tasks
    &&& post.past == pre.past
}

/// Reports the state and the timer at the instant `now`. While time is tracked the
/// running block is brought up to `now`; nothing else changes.
pub fn status_at(data: &mut FileFormat, now: i64) -> (status: Status)
    ensures
        is_status(*old(data), *final(data), now, status),
        old(data).wf() ==> final(data).wf(),
{
    if data.state == TrackingState::Stopped {
        return Status { state: data.state, timer: Timer::Idle };
    }
    let advance = data.state == TrackingState::Tracking;
    let timer = match measure_shift(&mut data.times, advance, now) {
        Some(seconds) => Timer::Running { seconds },
        None => Timer::OutOfRange,
    };
    Status { state: data.state, timer }
}

/// Reports the state and the timer at the instant that the clock shows: what
/// `status_at` does at some instant. The clock has no say unless time is being
/// tracked.
pub fn status(data: &mut FileFormat) -> (status: Status)
    ensures
        exists|now: i64| is_status(*old(data), *final(data), now, status),
        old(data).state != TrackingState::Tracking ==> is_status(
            *old(data),
            *final(data),
            0,
            status,
        ),
        old(data).wf() ==> final(data).wf(),
{
    let now = current_instant();
    status_at(data, now)
}

} // verus!
