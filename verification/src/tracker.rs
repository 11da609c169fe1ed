//! The shift state machine as a whole: which moves it makes, and what a run of
//! starts, pauses and a stop adds up to.

use crate::commands::pause::{is_pause, paused, PauseOutcome};
use crate::commands::start::{is_start, started, StartOutcome};
use crate::commands::stop::{blocks_at_stop, is_stop, stopped, StopOutcome};
use crate::format::{shift_seconds, with_last_end, FileFormat, TimeBlock, TrackingState};
use vstd::prelude::*;

verus! {

/// One of the three requests that move the state machine.
#[derive(Clone, Copy, Debug, PartialEq, Eq, Structural)]
pub enum Command {
    Start,
    Pause,
    Stop,
}

/// A request is refused, and changes nothing, where it makes no sense: to start
/// while tracking, to pause or stop while stopped.
pub open spec fn is_refused(state: TrackingState, command: Command) -> bool {
    match command {
        Command::Start => state == TrackingState::Tracking,
        Command::Pause => state == TrackingState::Stopped,
        Command::Stop => state == TrackingState::Stopped,
    }
}

/// The state in which a request leaves the machine.
pub open spec fn next_state(state: TrackingState, command: Command) -> TrackingState {
    if is_refused(state, command) {
        state
    } else {
        match command {
            Command::Start => TrackingState::Tracking,
            Command::Pause => TrackingState::Paused,
            Command::Stop => TrackingState::Stopped,
        }
    }
}

/// The moves of the machine: from stopped to tracking; between tracking and
/// paused; from either of these to stopped; and a pause that is repeated.
pub open spec fn is_move(from: TrackingState, to: TrackingState) -> bool {
    match (from, to) {
        (TrackingState::Stopped, TrackingState::Tracking) => true,
        (TrackingState::Tracking, TrackingState::Paused) => true,
        (TrackingState::Paused, TrackingState::Tracking) => true,
        (TrackingState::Paused, TrackingState::Paused) => true,
        (TrackingState::Tracking, TrackingState::Stopped) => true,
        (TrackingState::Paused, TrackingState::Stopped) => true,
        _ => false,
    }
}

/// True if `post` is what `command`, given at the instant `now`, makes of `pre`,
/// as `start_at`, `pause_at` and `stop_at` promise it. A stop whose shift has a
/// length without a place in `i64` changes nothing.
pub open spec fn is_step(
    pre: FileFormat,
    post: FileFormat,
    command: Command,
    comment: Seq<char>,
    now: i64,
) -> bool {
    match command {
        Command::Start => exists|outcome: StartOutcome| is_start(pre, post, now, outcome),
        Command::Pause => exists|outcome: PauseOutcome| is_pause(pre, post, now, outcome),
        Command::Stop => exists|outcome: StopOutcome| is_stop(pre, post, comment, now, outcome),
    }
}

/// Every request either leaves the state as it is or makes one of the moves of
/// the machine, and keeps the record well formed. A refused request leaves the
/// state and the finished shifts untouched. Only a stop that goes through adds
/// to the finished shifts, and it adds exactly one.
pub proof fn lemma_step_is_legal(
    pre: FileFormat,
    post: FileFormat,
    command: Command,
    comment: Seq<char>,
    now: i64,
)
    requires
        pre.wf(),
        is_step(pre, post, command, comment, now),
    ensures
        post.wf(),
        post.state == pre.state || is_move(pre.state, post.state),
        post.state == pre.state || post.state == next_state(pre.state, command),
        is_refused(pre.state, command) ==> post.state == pre.state && post.past@ == pre.past@,
        post.past@ == pre.past@ || (command == Command::Stop && !is_refused(pre.state, command)
            && post.past@.len() == pre.past@.len() + 1 && post.past@.drop_last() == pre.past@),
{
}

/// True if each record in `records` but the first is what the request with the
/// same number makes of the record before it.
pub open spec fn is_run(
    records: Seq<FileFormat>,
    commands: Seq<Command>,
    comments: Seq<Seq<char>>,
    instants: Seq<i64>,
) -> bool {
    &&& records.len() == commands.len() + 1
    &&& comments.len() == commands.len()
    &&& instants.len() == commands.len()
    &&& forall|i: int|
        0 <= i < commands.len() ==> #[trigger] is_step(
            records[i],
            records[i + 1],
            commands[i],
            comments[i],
            instants[i],
        )
}

/// Whatever requests are made in whatever order, a record that began well formed
/// stays so: time blocks exist exactly while a shift is in progress, and each
/// request moves the state as the machine allows.
pub proof fn lemma_run_stays_legal(
    records: Seq<FileFormat>,
    commands: Seq<Command>,
    comments: Seq<Seq<char>>,
    instants: Seq<i64>,
    k: int,
)
    requires
        records[0].wf(),
        is_run(records, commands, comments, instants),
        0 <= k <= commands.len(),
    ensures
        records[k].wf(),
        k > 0 ==> records[k].state == records[k - 1].state || is_move(
            records[k - 1].state,
            records[k].state,
        ),
    decreases k,
{
    if k > 0 {
        lemma_run_stays_legal(records, commands, comments, instants, k - 1);
        assert(is_step(
            records[k - 1],
            records[k - 1 + 1],
            commands[k - 1],
            comments[k - 1],
            instants[k - 1],
        ));
        lemma_step_is_legal(
            records[k - 1],
            records[k],
            commands[k - 1],
            comments[k - 1],
            instants[k - 1],
        );
    }
}

/// The sum of the lengths of stretches of work, each given by its first and its
/// last instant.
pub open spec fn intervals_total(intervals: Seq<(i64, i64)>) -> int
    decreases intervals.len(),
{
    if intervals.len() == 0 {
        0
    } else {
        intervals_total(intervals.drop_last()) + (intervals.last().1 - intervals.last().0)
    }
}

/// True if the blocks are the given stretches of work, one block each.
pub open spec fn holds_intervals(times: Seq<TimeBlock>, intervals: Seq<(i64, i64)>) -> bool {
    &&& times.len() == intervals.len()
    &&& forall|i: int|
        0 <= i < times.len() ==> (#[trigger] times[i]).start == intervals[i].0 && times[i].end
            == intervals[i].1
}

/// Blocks that are the given stretches of work add up to the sum of their
/// lengths.
pub proof fn lemma_blocks_add_up(times: Seq<TimeBlock>, intervals: Seq<(i64, i64)>)
    requires
        holds_intervals(times, intervals),
    ensures
        shift_seconds(times) == intervals_total(intervals),
    decreases times.len(),
{
    if times.len() > 0 {
        lemma_blocks_add_up(times.drop_last(), intervals.drop_last());
    }
}

/// True if `records` are the stages of one shift that is worked in the stretches
/// `intervals`: starting from a stopped record, a start is requested at the
/// beginning of the first stretch, a pause at the end of each stretch but the last
/// and a start again at the beginning of the next, and a stop, which reports
/// `outcome`, at the end of the last.
pub open spec fn is_shift(
    records: Seq<FileFormat>,
    intervals: Seq<(i64, i64)>,
    comment: Seq<char>,
    outcome: StopOutcome,
) -> bool {
    let n = intervals.len() as int;
    &&& n >= 1
    &&& records.len() == 2 * n + 1
    &&& records[0].state == TrackingState::Stopped
    &&& records[0].wf()
    &&& forall|k: int|
        0 <= k < n ==> #[trigger] is_step(
            records[2 * k],
            records[2 * k + 1],
            Command::Start,
            comment,
            intervals[k].0,
        )
    &&& forall|k: int|
        0 <= k < n - 1 ==> #[trigger] is_step(
            records[2 * k + 1],
            records[2 * k + 2],
            Command::Pause,
            comment,
            intervals[k].1,
        )
    &&& is_stop(records[2 * n - 1], records[2 * n], comment, intervals[n - 1].1, outcome)
}

/// While a shift is worked as `is_shift` says, the record after the `k`-th start
/// holds the stretches before it as its blocks, and the one that has just begun.
proof fn lemma_shift_blocks(
    records: Seq<FileFormat>,
    intervals: Seq<(i64, i64)>,
    comment: Seq<char>,
    outcome: StopOutcome,
    k: int,
)
    requires
        is_shift(records, intervals, comment, outcome),
        0 <= k < intervals.len(),
    ensures
        records[2 * k + 1].times@.len() == k + 1,
        holds_intervals(records[2 * k + 1].times@.drop_last(), intervals.take(k)),
        records[2 * k + 1].times@.last().start == intervals[k].0,
        records[2 * k + 1].state == TrackingState::Tracking,
        records[2 * k + 1].past@ == records[0].past@,
        records[2 * k + 1].version == records[0].version,
        records[2 * k + 1].tasks == records[0].tasks,
        records[2 * k + 1].times@[0].start == intervals[0].0,
    decreases k,
{
    assert(is_step(records[2 * k], records[2 * k + 1], Command::Start, comment, intervals[k].0));
    if k > 0 {
        lemma_shift_blocks(records, intervals, comment, outcome, k - 1);
        assert(is_step(
            records[2 * (k - 1) + 1],
            records[2 * (k - 1) + 2],
            Command::Pause,
            comment,
            intervals[k - 1].1,
        ));
        let before = records[2 * k - 1].times@;
        let closed = records[2 * k].times@;
        assert forall|i: int| 0 <= i < closed.len() implies (#[trigger] closed[i]).start
            == intervals.take(k)[i].0 && closed[i].end == intervals.take(k)[i].1 by {
            if i < k - 1 {
                assert(closed[i] == before.drop_last()[i]);
            }
        }
        assert(records[2 * k + 1].times@[0] == closed[0]);
    }
}

/// A shift that is worked in several stretches is recorded with the sum of their
/// lengths, however many pauses lie between them, and under the instant at which
/// its first stretch began: wherever that sum has a place in `i64` the stop goes
/// through, reports the sum, and adds this one summary and nothing else. Where
/// the sum has no place in `i64` the stop changes nothing.
pub proof fn lemma_duration_is_conserved(
    records: Seq<FileFormat>,
    intervals: Seq<(i64, i64)>,
    comment: Seq<char>,
    outcome: StopOutcome,
)
    requires
        is_shift(records, intervals, comment, outcome),
    ensures
        i64::MIN <= intervals_total(intervals) <= i64::MAX ==> {
            &&& outcome == (StopOutcome::Finished { seconds: intervals_total(intervals) as i64 })
            &&& records.last().state == TrackingState::Stopped
            &&& records.last().times@.len() == 0
            &&& records.last().past@.len() == records[0].past@.len() + 1
            &&& records.last().past@.drop_last() == records[0].past@
            &&& records.last().past@.last().seconds == intervals_total(intervals)
            &&& records.last().past@.last().date == intervals[0].0
            &&& records.last().past@.last().comment@ == comment
            &&& records.last().version == records[0].version
            &&& records.last().tasks == records[0].tasks
        },
        !(i64::MIN <= intervals_total(intervals) <= i64::MAX) ==> outcome
            == StopOutcome::OutOfRange && records.last().same_as(records[records.len() - 2]),
{
    let n = intervals.len() as int;
    lemma_shift_blocks(records, intervals, comment, outcome, n - 1);
    let running = records[2 * n - 1];
    let blocks = blocks_at_stop(running, intervals[n - 1].1);
    assert(holds_intervals(blocks, intervals)) by {
        assert forall|i: int| 0 <= i < blocks.len() implies (#[trigger] blocks[i]).start
            == intervals[i].0 && blocks[i].end == intervals[i].1 by {
            if i < n - 1 {
                assert(blocks[i] == running.times@.drop_last()[i]);
            }
        }
    }
    lemma_blocks_add_up(blocks, intervals);
}

/// The length of a running shift at `now`: the blocks before the last as they
/// stand, and the last from its beginning up to `now`.
pub proof fn lemma_running_length(times: Seq<TimeBlock>, now: i64)
    requires
        times.len() > 0,
    ensures
        shift_seconds(with_last_end(times, now)) == shift_seconds(times.drop_last()) + (now
            - times.last().start),
{
    assert(with_last_end(times, now).drop_last() == times.drop_last());
}

} // verus!
