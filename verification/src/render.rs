//! What is shown to the user, as lines of tinted text.

use crate::calendar::{DAY_MAX, DAY_MIN};
use crate::clock::{day_heading, day_heading_text, short_date_text, utc_day_number};
use crate::commands::display::{DayReport, WeekReport};
use crate::commands::edit::{EditEvent, WeekEntry};
use crate::commands::pause::PauseOutcome;
use crate::commands::start::StartOutcome;
use crate::commands::status::{Status, Timer};
use crate::commands::stop::StopOutcome;
use crate::text::{decimal_digits, push_digits};
use crate::utils::format_date_time;
use crate::format::PastTimeBlock;
use crate::utils::{clock_parts, format_date, push_two_digits, split_duration, two_digit_text};
use vstd::prelude::*;
use vstd::string::*;

verus! {

/// The colour in which a piece of text is shown.
#[derive(Clone, Copy, Debug, PartialEq, Eq, Structural)]
pub enum Tint {
    Plain,
    Red,
    Green,
    Blue,
    Cyan,
    Magenta,
}

/// A piece of text in one colour.
#[derive(Debug)]
pub struct Span {
    pub tint: Tint,
    pub text: String,
}

/// A piece of text in one colour, as a value to reason about.
pub type SpanModel = (Tint, Seq<char>);

/// What a line shows: its pieces, each with its colour and its characters.
pub open spec fn line_model(line: Seq<Span>) -> Seq<SpanModel> {
    Seq::new(line.len(), |i: int| (line[i].tint, line[i].text@))
}

/// What a page shows, line by line.
pub open spec fn page_model(page: Seq<Vec<Span>>) -> Seq<Seq<SpanModel>> {
    Seq::new(page.len(), |i: int| line_model(page[i]@))
}

/// The characters of a line, without their colours.
pub open spec fn plain_text(line: Seq<SpanModel>) -> Seq<char>
    decreases line.len(),
{
    if line.len() == 0 {
        Seq::empty()
    } else {
        plain_text(line.drop_last()) + line.last().1
    }
}

/// A duration as `HH:MM:SS` with green hours, cyan minutes and magenta seconds;
/// the colons have the colour `colon`.
pub open spec fn time_model(seconds: int, colon: Tint) -> Seq<SpanModel> {
    let (h, m, s) = clock_parts(seconds);
    seq![
        (Tint::Green, two_digit_text(h)),
        (colon, seq![':']),
        (Tint::Cyan, two_digit_text(m)),
        (colon, seq![':']),
        (Tint::Magenta, two_digit_text(s)),
    ]
}

/// Appends a piece of text to a line.
pub fn push_span(line: &mut Vec<Span>, tint: Tint, text: &str)
    ensures
        line_model(final(line)@) == line_model(old(line)@).push((tint, text@)),
{
    line.push(Span { tint, text: text.to_owned() });
}

/// Appends a number in at least two digits to a line.
fn push_two_digit_span(line: &mut Vec<Span>, tint: Tint, n: i64)
    ensures
        line_model(final(line)@) == line_model(old(line)@).push((tint, two_digit_text(n as int))),
{
    let mut text = String::new();
    push_two_digits(&mut text, n);
    line.push(Span { tint, text });
}

/// Appends a duration to a line.
pub fn push_time(line: &mut Vec<Span>, seconds: i64, colon: Tint)
    ensures
        line_model(final(line)@) == line_model(old(line)@) + time_model(seconds as int, colon),
{
    let (h, m, s) = split_duration(seconds);
    proof {
        reveal_strlit(":");
        assert(":"@ =~= seq![':']);
    }
    push_two_digit_span(line, Tint::Green, h);
    push_span(line, colon, ":");
    push_two_digit_span(line, Tint::Cyan, m);
    push_span(line, colon, ":");
    push_two_digit_span(line, Tint::Magenta, s);
}

/// Appends a piece of text that is at hand as a `String` to a line.
pub fn push_owned(line: &mut Vec<Span>, tint: Tint, text: String)
    ensures
        line_model(final(line)@) == line_model(old(line)@).push((tint, text@)),
{
    line.push(Span { tint, text });
}

/// Appends a line to a page.
pub fn push_line(page: &mut Vec<Vec<Span>>, line: Vec<Span>)
    ensures
        page_model(final(page)@) == page_model(old(page)@).push(line_model(line@)),
{
    page.push(line);
}

/// Appends an empty line to a page.
pub fn push_blank(page: &mut Vec<Vec<Span>>)
    ensures
        page_model(final(page)@) == page_model(old(page)@).push(Seq::empty()),
{
    let line: Vec<Span> = Vec::new();
    assert(line_model(line@) =~= Seq::empty());
    push_line(page, line);
}

/// The line of one shift: its length, a colon and the remark.
pub open spec fn shift_line(block: PastTimeBlock) -> Seq<SpanModel> {
    seq![(Tint::Plain, "  "@)] + time_model(block.seconds as int, Tint::Blue) + seq![
        (Tint::Plain, ": "@),
        (Tint::Plain, block.comment@),
    ]
}

/// The lines of the first `count` shifts.
pub open spec fn shift_lines(shifts: Seq<&PastTimeBlock>, count: nat) -> Seq<Seq<SpanModel>>
    decreases count,
{
    if count == 0 {
        Seq::empty()
    } else {
        shift_lines(shifts, (count - 1) as nat).push(shift_line(*shifts[count - 1]))
    }
}

/// The line that says that a day has no shifts.
pub open spec fn no_shifts_line() -> Seq<SpanModel> {
    seq![(Tint::Plain, "  "@), (Tint::Red, "No shifts"@)]
}

/// The line with the total of a day.
pub open spec fn total_line(total: int) -> Seq<SpanModel> {
    seq![(Tint::Plain, "  (total="@)] + time_model(total, Tint::Blue) + seq![(Tint::Plain, ")"@)]
}

/// What is shown of one day: the weekday and the date; the shifts, or the remark
/// that there are none; the total, and an empty line.
pub open spec fn day_page(report: DayReport) -> Seq<Seq<SpanModel>> {
    seq![seq![(Tint::Plain, day_heading_text(report.date.days as int)), (Tint::Plain, ":"@)]] + (
    if report.shifts@.len() == 0 {
        seq![no_shifts_line()]
    } else {
        shift_lines(report.shifts@, report.shifts@.len())
    }) + seq![total_line(report.total->0 as int), Seq::empty()]
}

/// What is shown of the first `count` days.
pub open spec fn days_page(days: Seq<DayReport>, count: nat) -> Seq<Seq<SpanModel>>
    decreases count,
{
    if count == 0 {
        Seq::empty()
    } else {
        days_page(days, (count - 1) as nat) + day_page(days[count - 1])
    }
}

/// What is shown of a week: the date on which it begins, an empty line, and its
/// days.
pub open spec fn week_page(report: WeekReport) -> Seq<Seq<SpanModel>> {
    seq![
        seq![
            (Tint::Plain, "Week starting: "@),
            (Tint::Blue, short_date_text(report.week_start.days as int)),
        ],
        Seq::empty(),
    ] + days_page(report.days@, report.days@.len())
}

/// True if the total of each of the first `count` days is known.
pub open spec fn totals_known(days: Seq<DayReport>, count: int) -> bool {
    forall|i: int| 0 <= i < count ==> (#[trigger] days[i]).total is Some
}

pub open spec fn dates_valid(days: Seq<DayReport>) -> bool {
    forall|i: int| 0 <= i < days.len() ==> (#[trigger] days[i]).date.wf()
}

/// Appends what is shown of one day to a page.
pub fn push_day(page: &mut Vec<Vec<Span>>, report: &DayReport, total: i64)
    requires
        report.date.wf(),
        report.total == Some(total),
    ensures
        page_model(final(page)@) == page_model(old(page)@) + day_page(*report),
{
    let mut heading: Vec<Span> = Vec::new();
    match day_heading(report.date) {
        Some(text) => {
            push_owned(&mut heading, Tint::Plain, text);
        },
        None => {},
    }
    push_span(&mut heading, Tint::Plain, ":");
    assert(line_model(heading@) =~= seq![
        (Tint::Plain, day_heading_text(report.date.days as int)),
        (Tint::Plain, ":"@),
    ]);
    let ghost heading_line = line_model(heading@);
    push_line(page, heading);
    let ghost with_heading = page_model(page@);
    let ghost body = if report.shifts@.len() == 0 {
        seq![no_shifts_line()]
    } else {
        shift_lines(report.shifts@, report.shifts@.len())
    };
    if report.shifts.len() == 0 {
        let mut line: Vec<Span> = Vec::new();
        push_span(&mut line, Tint::Plain, "  ");
        push_span(&mut line, Tint::Red, "No shifts");
        assert(line_model(line@) =~= no_shifts_line());
        push_line(page, line);
    } else {
        let mut k: usize = 0;
        while k < report.shifts.len()
            invariant
                k <= report.shifts@.len(),
                page_model(page@) == with_heading + shift_lines(report.shifts@, k as nat),
            decreases report.shifts.len() - k,
        {
            let block = report.shifts[k];
            let mut line: Vec<Span> = Vec::new();
            push_span(&mut line, Tint::Plain, "  ");
            push_time(&mut line, block.seconds, Tint::Blue);
            push_span(&mut line, Tint::Plain, ": ");
            push_span(&mut line, Tint::Plain, block.comment.as_str());
            assert(line_model(line@) =~= shift_line(*block));
            push_line(page, line);
            k = k + 1;
        }
    }
    let mut line: Vec<Span> = Vec::new();
    push_span(&mut line, Tint::Plain, "  (total=");
    push_time(&mut line, total, Tint::Blue);
    push_span(&mut line, Tint::Plain, ")");
    assert(line_model(line@) =~= total_line(total as int));
    push_line(page, line);
    push_blank(page);
    assert(day_page(*report) =~= seq![heading_line] + body + seq![
        total_line(total as int),
        Seq::empty(),
    ]);
    assert(page_model(page@) =~= page_model(old(page)@) + (seq![heading_line] + body + seq![
        total_line(total as int),
        Seq::empty(),
    ]));
}

/// What is shown of a week, or `None` where the total of one of its days has no
/// place in `i64`.
pub fn render_week(report: &WeekReport) -> (page: Option<Vec<Vec<Span>>>)
    requires
        report.week_start.wf(),
        dates_valid(report.days@),
    ensures
        match page {
            Some(lines) => totals_known(report.days@, report.days@.len() as int) && page_model(
                lines@,
            ) == week_page(*report),
            None => !totals_known(report.days@, report.days@.len() as int),
        },
{
    let mut page: Vec<Vec<Span>> = Vec::new();
    let mut first: Vec<Span> = Vec::new();
    push_span(&mut first, Tint::Plain, "Week starting: ");
    push_owned(&mut first, Tint::Blue, format_date(report.week_start));
    assert(line_model(first@) =~= seq![
        (Tint::Plain, "Week starting: "@),
        (Tint::Blue, short_date_text(report.week_start.days as int)),
    ]);
    push_line(&mut page, first);
    push_blank(&mut page);
    let ghost top = page_model(page@);
    assert(top =~= seq![
        seq![
            (Tint::Plain, "Week starting: "@),
            (Tint::Blue, short_date_text(report.week_start.days as int)),
        ],
        Seq::empty(),
    ]);
    let mut i: usize = 0;
    while i < report.days.len()
        invariant
            i <= report.days@.len(),
            dates_valid(report.days@),
            totals_known(report.days@, i as int),
            page_model(page@) == top + days_page(report.days@, i as nat),
        decreases report.days.len() - i,
    {
        match report.days[i].total {
            Some(total) => {
                push_day(&mut page, &report.days[i], total);
            },
            None => {
                return None;
            },
        }
        i = i + 1;
    }
    Some(page)
}

/// One line for the user, and whether it is a warning.
#[derive(Debug)]
pub struct Message {
    pub warning: bool,
    pub line: Vec<Span>,
}

/// True if the calendar can place the instant: it falls, in UTC, on a day that
/// the calendar can name.
pub open spec fn instant_in_reach(instant: i64) -> bool {
    DAY_MIN <= utc_day_number(instant as int) <= DAY_MAX
}

/// True if `line` says when the timer was started: the words in plain, the date
/// and time in blue.
pub open spec fn is_started_line(line: Seq<SpanModel>) -> bool {
    &&& line.len() == 2
    &&& line[0] == (Tint::Plain, "Started timer at "@)
    &&& line[1].0 == Tint::Blue
}

/// What the user is told after a request to start: when the timer started, or
/// the warning that it was running already. `None` where the calendar cannot
/// place the instant.
pub fn render_start(outcome: StartOutcome) -> (message: Option<Message>)
    ensures
        outcome == StartOutcome::AlreadyTracking ==> (message matches Some(m) && m.warning
            && line_model(m.line@) == seq![(Tint::Red, "Already tracking time"@)]),
        outcome matches StartOutcome::Started { at } ==> {
            &&& message is Some <==> instant_in_reach(at)
            &&& message matches Some(m) ==> !m.warning && is_started_line(line_model(m.line@))
        },
{
    let mut line: Vec<Span> = Vec::new();
    match outcome {
        StartOutcome::AlreadyTracking => {
            push_span(&mut line, Tint::Red, "Already tracking time");
            Some(Message { warning: true, line })
        },
        StartOutcome::Started { at } => match format_date_time(at) {
            Some(when) => {
                push_span(&mut line, Tint::Plain, "Started timer at ");
                push_owned(&mut line, Tint::Blue, when);
                Some(Message { warning: false, line })
            },
            None => None,
        },
    }
}

/// What the user is told after a request to pause: nothing, or the warning that
/// there is nothing to pause.
pub fn render_pause(outcome: PauseOutcome) -> (message: Option<Message>)
    ensures
        match outcome {
            PauseOutcome::Paused => message is None,
            PauseOutcome::NotTracking => message matches Some(m) && m.warning && line_model(
                m.line@,
            ) == seq![(Tint::Red, "Not tracking any time to pause"@)],
        },
{
    match outcome {
        PauseOutcome::Paused => None,
        PauseOutcome::NotTracking => {
            let mut line: Vec<Span> = Vec::new();
            push_span(&mut line, Tint::Red, "Not tracking any time to pause");
            Some(Message { warning: true, line })
        },
    }
}

/// What the user is told after a request to stop: how long the shift was, or
/// the warning that there is nothing to stop. Nothing is said of a shift whose
/// length has no place in `i64`.
pub fn render_stop(outcome: StopOutcome) -> (message: Option<Message>)
    ensures
        match outcome {
            StopOutcome::Finished { seconds } => message matches Some(m) && !m.warning
                && line_model(m.line@) == seq![(Tint::Plain, "Finished shift after "@)]
                + time_model(seconds as int, Tint::Blue),
            StopOutcome::NotTracking => message matches Some(m) && m.warning && line_model(
                m.line@,
            ) == seq![(Tint::Red, "Not tracking any time to stop"@)],
            StopOutcome::OutOfRange => message is None,
        },
{
    let mut line: Vec<Span> = Vec::new();
    match outcome {
        StopOutcome::Finished { seconds } => {
            push_span(&mut line, Tint::Plain, "Finished shift after ");
            push_time(&mut line, seconds, Tint::Blue);
            assert(line_model(line@) =~= seq![(Tint::Plain, "Finished shift after "@)]
                + time_model(seconds as int, Tint::Blue));
            Some(Message { warning: false, line })
        },
        StopOutcome::NotTracking => {
            push_span(&mut line, Tint::Red, "Not tracking any time to stop");
            Some(Message { warning: true, line })
        },
        StopOutcome::OutOfRange => None,
    }
}

/// What `status` shows: the state, and under it the timer of a shift in
/// progress.
pub open spec fn status_page(status: Status) -> Seq<Seq<SpanModel>> {
    let first = seq![(Tint::Plain, "status: "@), (Tint::Plain, status.state.spec_name())];
    match status.timer {
        Timer::Running { seconds } => seq![
            first,
            seq![(Tint::Plain, "timer: "@)] + time_model(seconds as int, Tint::Blue),
        ],
        _ => seq![first],
    }
}

pub fn render_status(status: Status) -> (page: Vec<Vec<Span>>)
    ensures
        page_model(page@) == status_page(status),
{
    let mut page: Vec<Vec<Span>> = Vec::new();
    let mut first: Vec<Span> = Vec::new();
    push_span(&mut first, Tint::Plain, "status: ");
    push_span(&mut first, Tint::Plain, status.state.name());
    assert(line_model(first@) =~= seq![
        (Tint::Plain, "status: "@),
        (Tint::Plain, status.state.spec_name()),
    ]);
    push_line(&mut page, first);
    match status.timer {
        Timer::Running { seconds } => {
            let mut second: Vec<Span> = Vec::new();
            push_span(&mut second, Tint::Plain, "timer: ");
            push_time(&mut second, seconds, Tint::Blue);
            assert(line_model(second@) =~= seq![(Tint::Plain, "timer: "@)] + time_model(
                seconds as int,
                Tint::Blue,
            ));
            push_line(&mut page, second);
        },
        _ => {
        },
    }
    page
}

/// True if the four lines of `page` from the line `at` on show `entry`: its
/// number and, in blue, when the shift began; its length; its remark in
/// magenta; and an empty line.
pub open spec fn shows_entry(page: Seq<Seq<SpanModel>>, at: int, entry: WeekEntry) -> bool {
    &&& page[at].len() == 3
    &&& page[at][0] == (Tint::Plain, decimal_digits(entry.display_index as nat))
    &&& page[at][1] == (Tint::Plain, ": "@)
    &&& page[at][2].0 == Tint::Blue
    &&& page[at + 1] == seq![(Tint::Plain, "   duration="@)] + time_model(
        entry.block.seconds as int,
        Tint::Plain,
    )
    &&& page[at + 2] == seq![(Tint::Plain, "   comment="@), (Tint::Magenta, entry.block.comment@)]
    &&& page[at + 3] == Seq::<SpanModel>::empty()
}

/// True if the calendar can place the beginning of each of the first `count`
/// shifts in the list.
pub open spec fn entries_in_reach(entries: Seq<WeekEntry>, count: int) -> bool {
    forall|k: int| 0 <= k < count ==> instant_in_reach((#[trigger] entries[k]).block.date)
}

/// The list from which the user picks a shift, four lines for each. `None`
/// where the calendar cannot place the beginning of one of the shifts.
pub fn render_entries(entries: &Vec<WeekEntry>) -> (page: Option<Vec<Vec<Span>>>)
    ensures
        match page {
            Some(lines) => {
                &&& entries_in_reach(entries@, entries@.len() as int)
                &&& lines@.len() == 4 * entries@.len()
                &&& forall|k: int|
                    0 <= k < entries@.len() ==> shows_entry(
                        page_model(lines@),
                        4 * k,
                        #[trigger] entries@[k],
                    )
            },
            None => !entries_in_reach(entries@, entries@.len() as int),
        },
{
    let mut page: Vec<Vec<Span>> = Vec::new();
    let mut k: usize = 0;
    while k < entries.len()
        invariant
            k <= entries@.len(),
            entries_in_reach(entries@, k as int),
            page@.len() == 4 * k,
            forall|p: int|
                0 <= p < k ==> shows_entry(page_model(page@), 4 * p, #[trigger] entries@[p]),
        decreases entries.len() - k,
    {
        let entry = &entries[k];
        let when = match format_date_time(entry.block.date) {
            Some(text) => text,
            None => {
                return None;
            },
        };
        let mut first: Vec<Span> = Vec::new();
        let mut number = String::new();
        push_digits(&mut number, entry.display_index as u64);
        push_owned(&mut first, Tint::Plain, number);
        push_span(&mut first, Tint::Plain, ": ");
        push_owned(&mut first, Tint::Blue, when);
        let mut second: Vec<Span> = Vec::new();
        push_span(&mut second, Tint::Plain, "   duration=");
        push_time(&mut second, entry.block.seconds, Tint::Plain);
        assert(line_model(second@) =~= seq![(Tint::Plain, "   duration="@)] + time_model(
            entry.block.seconds as int,
            Tint::Plain,
        ));
        let mut third: Vec<Span> = Vec::new();
        push_span(&mut third, Tint::Plain, "   comment=");
        push_span(&mut third, Tint::Magenta, entry.block.comment.as_str());
        assert(line_model(third@) =~= seq![
            (Tint::Plain, "   comment="@),
            (Tint::Magenta, entry.block.comment@),
        ]);
        push_line(&mut page, first);
        push_line(&mut page, second);
        push_line(&mut page, third);
        push_blank(&mut page);
        assert(page_model(page@).len() == 4 * k + 4);
        k = k + 1;
    }
    Some(page)
}

/// What the user is told after an answer in an editing session: which shift is
/// being edited, or that a shift is removed; after every other answer, nothing.
pub fn render_event(event: EditEvent) -> (line: Option<Vec<Span>>)
    ensures
        match event {
            EditEvent::Selected { display_index } => line matches Some(l) && line_model(l@)
                == seq![
                (Tint::Plain, "Editing "@),
                (Tint::Plain, decimal_digits(display_index as nat)),
            ],
            EditEvent::Deleted => line matches Some(l) && line_model(l@) == seq![
                (Tint::Red, "deleting shift.."@),
            ],
            _ => line is None,
        },
{
    let mut line: Vec<Span> = Vec::new();
    match event {
        EditEvent::Selected { display_index } => {
            push_span(&mut line, Tint::Plain, "Editing ");
            let mut number = String::new();
            push_digits(&mut number, display_index as u64);
            push_owned(&mut line, Tint::Plain, number);
            assert(line_model(line@) =~= seq![
                (Tint::Plain, "Editing "@),
                (Tint::Plain, decimal_digits(display_index as nat)),
            ]);
            Some(line)
        },
        EditEvent::Deleted => {
            push_span(&mut line, Tint::Red, "deleting shift..");
            Some(line)
        },
        _ => None,
    }
}

} // verus!
