//! The record of shifts and the arithmetic on its time blocks.

use vstd::prelude::*;

verus! {

/// Whether a shift is running, interrupted, or not in progress.
#[derive(Clone, Copy, Debug, PartialEq, Eq, Structural)]
pub enum TrackingState {
    Tracking,
    Stopped,
    Paused,
}

impl TrackingState {
    /// The lower-case word under which the state is shown to the user.
    pub open spec fn spec_name(self) -> Seq<char> {
        match self {
            TrackingState::Tracking => "tracking"@,
            TrackingState::Stopped => "stopped"@,
            TrackingState::Paused => "paused"@,
        }
    }

    /// The stable number that stands for the state wherever it is stored as one.
    pub open spec fn spec_code(self) -> u8 {
        match self {
            TrackingState::Tracking => 1,
            TrackingState::Stopped => 2,
            TrackingState::Paused => 3,
        }
    }

    pub fn name(&self) -> (text: &'static str)
        ensures
            text@ == self.spec_name(),
    {
        match self {
            TrackingState::Tracking => "tracking",
            TrackingState::Stopped => "stopped",
            TrackingState::Paused => "paused",
        }
    }

    pub fn code(&self) -> (code: u8)
        ensures
            code == self.spec_code(),
    {
        match self {
            TrackingState::Tracking => 1,
            TrackingState::Stopped => 2,
            TrackingState::Paused => 3,
        }
    }

    /// The state that a stored number stands for, if it stands for one.
    pub fn from_code(code: u8) -> (state: Option<TrackingState>)
        ensures
            match state {
                Some(s) => s.spec_code() == code,
                None => code < 1 || code > 3,
            },
    {
        if code == 1 {
            Some(TrackingState::Tracking)
        } else if code == 2 {
            Some(TrackingState::Stopped)
        } else if code == 3 {
            Some(TrackingState::Paused)
        } else {
            None
        }
    }
}

/// One uninterrupted stretch of work inside the shift in progress. Both ends are
/// instants in whole seconds since 1970-01-01 00:00:00 UTC.
#[derive(Debug)]
pub struct TimeBlock {
    pub start: i64,
    pub end: i64,
    pub finished_tasks: Vec<String>,
}

/// The summary of one finished shift: the instant at which it began, its length
/// in seconds, and the user's remark.
#[derive(Debug)]
pub struct PastTimeBlock {
    pub date: i64,
    pub seconds: i64,
    pub comment: String,
    pub finished_tasks: Vec<String>,
}

/// Everything that is kept between two runs.
#[derive(Debug)]
pub struct FileFormat {
    pub version: String,
    pub state: TrackingState,
    pub tasks: Vec<String>,
    pub times: Vec<TimeBlock>,
    pub past: Vec<PastTimeBlock>,
}

/// The version written into a record that is created from nothing.
pub const CURRENT_VERSION: &'static str = "0.1.0";

impl TimeBlock {
    /// The length of the block in seconds; negative if the clock went backwards.
    pub open spec fn seconds(self) -> int {
        self.end - self.start
    }
}

/// The sum of the lengths of all blocks.
pub open spec fn shift_seconds(times: Seq<TimeBlock>) -> int
    decreases times.len(),
{
    if times.len() == 0 {
        0
    } else {
        shift_seconds(times.drop_last()) + times.last().seconds()
    }
}

/// True if the length of the shift has a place in `i64`.
pub open spec fn shift_in_range(times: Seq<TimeBlock>) -> bool {
    i64::MIN <= shift_seconds(times) <= i64::MAX
}

/// The sum of the instants at which the blocks begin.
pub open spec fn starts_total(times: Seq<TimeBlock>) -> int
    decreases times.len(),
{
    if times.len() == 0 {
        0
    } else {
        starts_total(times.drop_last()) + times.last().start
    }
}

/// The sum of the instants at which the blocks end.
pub open spec fn ends_total(times: Seq<TimeBlock>) -> int
    decreases times.len(),
{
    if times.len() == 0 {
        0
    } else {
        ends_total(times.drop_last()) + times.last().end
    }
}

/// The blocks as they are once the last one has been made to end at `now`.
pub open spec fn with_last_end(times: Seq<TimeBlock>, now: i64) -> Seq<TimeBlock> {
    if times.len() == 0 {
        times
    } else {
        times.update(
            times.len() - 1,
            TimeBlock {
                start: times.last().start,
                end: now,
                finished_tasks: times.last().finished_tasks,
            },
        )
    }
}

impl FileFormat {
    /// A shift is in progress exactly when there are time blocks.
    pub open spec fn wf(self) -> bool {
        self.state == TrackingState::Stopped <==> self.times@.len() == 0
    }

    /// True if `self` holds what `other` holds: the same strings, the same time
    /// blocks and the same summaries, each in the same order.
    pub open spec fn same_as(self, other: FileFormat) -> bool {
        &&& self.version == other.version
        &&& self.state == other.state
        &&& self.tasks == other.tasks
        &&& self.times@ == other.times@
        &&& self.past@ == other.past@
    }

    /// True of the record that stands for "no history yet".
    pub open spec fn is_empty_default(self) -> bool {
        &&& self.version@ == CURRENT_VERSION@
        &&& self.state == TrackingState::Stopped
        &&& self.tasks@.len() == 0
        &&& self.times@.len() == 0
        &&& self.past@.len() == 0
    }

    /// The record with which a user without history begins.
    pub fn new() -> (record: FileFormat)
        ensures
            record.is_empty_default(),
            record.wf(),
    {
        FileFormat {
            version: CURRENT_VERSION.to_owned(),
            state: TrackingState::Stopped,
            tasks: Vec::new(),
            times: Vec::new(),
            past: Vec::new(),
        }
    }

    pub fn is_well_formed(&self) -> (ok: bool)
        ensures
            ok == self.wf(),
    {
        (self.state == TrackingState::Stopped) == (self.times.len() == 0)
    }
}

/// The record that a file stands for: what was decoded from its bytes or, where
/// they could not be decoded (an empty file, a damaged one), the record with which
/// a user without history begins.
pub fn read_file(decoded: Option<FileFormat>) -> (record: FileFormat)
    ensures
        match decoded {
            Some(found) => record == found,
            None => record.is_empty_default() && record.wf(),
        },
{
    match decoded {
        Some(found) => found,
        None => FileFormat::new(),
    }
}

/// Makes the most recent block end at `now`; without blocks nothing changes.
pub fn update_last_block(times: &mut Vec<TimeBlock>, now: i64)
    ensures
        final(times)@ == with_last_end(old(times)@, now),
{
    let n = times.len();
    if n > 0 {
        times[n - 1].end = now;
    }
}

/// The length of the shift that the blocks make up, or `None` where it has no
/// place in `i64`. Lengths that cancel on the way do no harm: only the whole sum
/// counts.
pub fn calculate_shift_length(times: &Vec<TimeBlock>) -> (total: Option<i64>)
    ensures
        total == if shift_in_range(times@) {
            Some(shift_seconds(times@) as i64)
        } else {
            None
        },
{
    let mut ends: i128 = 0;
    let mut starts: i128 = 0;
    let mut i: usize = 0;
    while i < times.len()
        invariant
            i <= times.len(),
            ends == ends_total(times@.take(i as int)),
            starts == starts_total(times@.take(i as int)),
            ends - starts == shift_seconds(times@.take(i as int)),
            -(i * 0x8000_0000_0000_0000) <= ends <= i * 0x8000_0000_0000_0000,
            -(i * 0x8000_0000_0000_0000) <= starts <= i * 0x8000_0000_0000_0000,
        decreases times.len() - i,
    {
        assert(times@.take(i + 1).drop_last() == times@.take(i as int));
        ends = ends + times[i].end as i128;
        starts = starts + times[i].start as i128;
        i = i + 1;
    }
    assert(times@.take(i as int) == times@);
    match ends.checked_sub(starts) {
        Some(total) => {
            if total < i64::MIN as i128 || total > i64::MAX as i128 {
                None
            } else {
                Some(total as i64)
            }
        },
        None => None,
    }
}

/// The blocks from which a shift is measured at `now`: while time is tracked the
/// last block runs up to `now`; a paused shift is measured as it stands.
pub open spec fn measured_blocks(times: Seq<TimeBlock>, advance: bool, now: i64) -> Seq<
    TimeBlock,
> {
    if advance {
        with_last_end(times, now)
    } else {
        times
    }
}

/// Measures the shift at `now`. Where `advance` is set the last block is first made
/// to end at `now`. Where the length has no place in `i64` the blocks are left as
/// they were.
pub fn measure_shift(times: &mut Vec<TimeBlock>, advance: bool, now: i64) -> (total: Option<i64>)
    ensures
        total == if shift_in_range(measured_blocks(old(times)@, advance, now)) {
            Some(shift_seconds(measured_blocks(old(times)@, advance, now)) as i64)
        } else {
            None
        },
        final(times)@ == if total is Some {
            measured_blocks(old(times)@, advance, now)
        } else {
            old(times)@
        },
{
    let n = times.len();
    if !advance || n == 0 {
        return calculate_shift_length(times);
    }
    let before = times[n - 1].end;
    times[n - 1].end = now;
    let total = calculate_shift_length(times);
    if total.is_none() {
        times[n - 1].end = before;
    }
    total
}

} // verus!
