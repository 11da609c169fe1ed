//! The hours of one week, day by day.

use crate::calendar::{weekday_of, Date, Weekday, DAY_MAX, DAY_MIN};
use crate::clock::{local_day_of, utc_day_number};
use crate::format::{FileFormat, PastTimeBlock};
use crate::render::{page_model, render_week, totals_known, week_page, Span};
use crate::utils::{
    is_possible_today, week_from_clock, week_start_of, week_surely_in_reach,
};
use vstd::prelude::*;

verus! {

/// The finished shifts of one calendar day.
#[derive(Debug)]
pub struct DayReport<'a> {
    pub date: Date,
    pub weekday_name: &'static str,
    /// The shifts that began on this day, in the order in which they are stored.
    pub shifts: Vec<&'a PastTimeBlock>,
    /// The sum of their lengths in seconds; `None` where it has no place in `i64`.
    pub total: Option<i64>,
}

/// The places, in rising order, of the days in `days` that are the day `day`.
pub open spec fn selected_indices(days: Seq<Date>, day: int) -> Seq<usize>
    decreases days.len(),
{
    if days.len() == 0 {
        Seq::empty()
    } else {
        let rest = selected_indices(days.drop_last(), day);
        if days.last().days == day {
            rest.push((days.len() - 1) as usize)
        } else {
            rest
        }
    }
}

/// The sum of the lengths of the shifts at the places `picks`.
pub open spec fn total_seconds(past: Seq<PastTimeBlock>, picks: Seq<usize>) -> int
    decreases picks.len(),
{
    if picks.len() == 0 {
        0
    } else {
        total_seconds(past, picks.drop_last()) + past[picks.last() as int].seconds
    }
}

/// True if the sum of those lengths has a place in `i64`.
pub open spec fn total_in_range(past: Seq<PastTimeBlock>, picks: Seq<usize>) -> bool {
    i64::MIN <= total_seconds(past, picks) <= i64::MAX
}

/// What `selected_indices` picks: every place that it names lies in `days` and
/// holds the day `day`, the places rise, and no place that holds the day is left
/// out.
pub proof fn lemma_selected_indices(days: Seq<Date>, day: int)
    requires
        days.len() <= usize::MAX,
    ensures
        forall|k: int|
            0 <= k < selected_indices(days, day).len() ==> (#[trigger] selected_indices(
                days,
                day,
            )[k]) < days.len() && days[selected_indices(days, day)[k] as int].days == day,
        forall|k: int, l: int|
            0 <= k < l < selected_indices(days, day).len() ==> (#[trigger] selected_indices(
                days,
                day,
            )[k]) < (#[trigger] selected_indices(days, day)[l]),
        forall|j: int|
            0 <= j < days.len() && (#[trigger] days[j]).days == day ==> selected_indices(
                days,
                day,
            ).contains(j as usize),
        selected_indices(days, day).len() <= days.len(),
    decreases days.len(),
{
    if days.len() > 0 {
        let shorter = days.drop_last();
        lemma_selected_indices(shorter, day);
        let rest = selected_indices(shorter, day);
        let all = selected_indices(days, day);
        assert forall|j: int| 0 <= j < days.len() && (#[trigger] days[j]).days == day implies all.contains(
            j as usize,
        ) by {
            if j < shorter.len() {
                assert(shorter[j] == days[j]);
                let k = choose|k: int| 0 <= k < rest.len() && rest[k] == j as usize;
                assert(all[k] == j as usize);
            } else {
                assert(all[all.len() - 1] == j as usize);
            }
        }
    }
}

/// The places in `days` that hold the day `day`, in rising order.
pub fn select_day(days: &Vec<Date>, day: Date) -> (picks: Vec<usize>)
    ensures
        picks@ == selected_indices(days@, day.days as int),
{
    let mut picks: Vec<usize> = Vec::new();
    let mut j: usize = 0;
    while j < days.len()
        invariant
            j <= days.len(),
            picks@ == selected_indices(days@.take(j as int), day.days as int),
        decreases days.len() - j,
    {
        assert(days@.take(j + 1).drop_last() == days@.take(j as int));
        if days[j].days == day.days {
            picks.push(j);
        }
        j = j + 1;
    }
    assert(days@.take(j as int) == days@);
    picks
}

/// True if `report` is the report of the day `day`: it holds the shifts whose
/// local day is `day`, in stored order, and their total.
pub open spec fn is_report_of(
    report: DayReport,
    past: Seq<PastTimeBlock>,
    days: Seq<Date>,
    day: int,
) -> bool {
    let picks = selected_indices(days, day);
    &&& report.date.days == day
    &&& report.weekday_name@ == weekday_of(day).spec_name()
    &&& report.shifts@.len() == picks.len()
    &&& forall|k: int| 0 <= k < picks.len() ==> *(#[trigger] report.shifts@[k]) == past[picks[k] as int]
    &&& report.total == if total_in_range(past, picks) {
        Some(total_seconds(past, picks) as i64)
    } else {
        None
    }
}

/// The report of the one day `day`. `days` holds, place for place, the local
/// calendar day on which each shift in `past` began.
pub fn report_day<'a>(past: &'a Vec<PastTimeBlock>, days: &Vec<Date>, day: Date) -> (report:
    DayReport<'a>)
    requires
        days@.len() == past@.len(),
        day.wf(),
    ensures
        is_report_of(report, past@, days@, day.days as int),
{
    let picks = select_day(days, day);
    proof {
        assert(days@.len() == days.len());
        lemma_selected_indices(days@, day.days as int);
    }
    let mut shifts: Vec<&'a PastTimeBlock> = Vec::new();
    let mut sum: i128 = 0;
    let mut k: usize = 0;
    while k < picks.len()
        invariant
            k <= picks.len(),
            days@.len() == past@.len(),
            picks@ == selected_indices(days@, day.days as int),
            forall|i: int| 0 <= i < picks@.len() ==> (#[trigger] picks@[i]) < days@.len(),
            shifts@.len() == k,
            forall|i: int| 0 <= i < k ==> *(#[trigger] shifts@[i]) == past@[picks@[i] as int],
            sum == total_seconds(past@, picks@.take(k as int)),
            -(k * 0x8000_0000_0000_0000) <= sum <= k * 0x8000_0000_0000_0000,
        decreases picks.len() - k,
    {
        let shift = &past[picks[k]];
        assert(picks@.take(k + 1).drop_last() == picks@.take(k as int));
        shifts.push(shift);
        sum = sum + shift.seconds as i128;
        k = k + 1;
    }
    assert(picks@.take(k as int) == picks@);
    let total = if sum < i64::MIN as i128 || sum > i64::MAX as i128 {
        None
    } else {
        Some(sum as i64)
    };
    DayReport { date: day, weekday_name: day.weekday().name(), shifts, total }
}

/// True if `reports` are the reports of the seven days from `week_start` on.
pub open spec fn is_week_report(
    reports: Seq<DayReport>,
    past: Seq<PastTimeBlock>,
    days: Seq<Date>,
    week_start: Date,
) -> bool {
    &&& reports.len() == 7
    &&& forall|i: int| 0 <= i < 7 ==> is_report_of(#[trigger] reports[i], past, days, week_start.days + i)
}

/// The reports of the seven days that begin with `week_start`, in calendar order.
/// `days` holds, place for place, the local calendar day on which each shift in
/// `past` began.
pub fn aggregate<'a>(past: &'a Vec<PastTimeBlock>, days: &Vec<Date>, week_start: Date) -> (reports:
    Vec<DayReport<'a>>)
    requires
        days@.len() == past@.len(),
        week_start.wf(),
        week_start.days + 6 <= DAY_MAX,
    ensures
        is_week_report(reports@, past@, days@, week_start),
{
    let mut reports: Vec<DayReport<'a>> = Vec::new();
    let mut i: i32 = 0;
    while i < 7
        invariant
            0 <= i <= 7,
            days@.len() == past@.len(),
            week_start.wf(),
            week_start.days + 6 <= DAY_MAX,
            reports@.len() == i,
            forall|d: int| 0 <= d < i ==> is_report_of(#[trigger] reports@[d], past@, days@, week_start.days + d),
        decreases 7 - i,
    {
        let day = Date { days: week_start.days + i };
        reports.push(report_day(past, days, day));
        i = i + 1;
    }
    reports
}

/// The seven reports of a week are those of seven days in a row, from the first
/// day of the week on: no day is missing and none comes twice.
pub proof fn lemma_week_is_seven_days(
    reports: Seq<DayReport>,
    past: Seq<PastTimeBlock>,
    days: Seq<Date>,
    week_start: Date,
)
    requires
        is_week_report(reports, past, days, week_start),
    ensures
        reports.len() == 7,
        forall|i: int| 0 <= i < 7 ==> (#[trigger] reports[i]).date.days == week_start.days + i,
        forall|i: int, j: int|
            0 <= i < j < 7 ==> (#[trigger] reports[i]).date != (#[trigger] reports[j]).date,
{
}

/// A shift is reported under the day on which it began and under no other, and
/// under that day once: its place is among the places picked for a day exactly
/// if that day is its own, and no place is picked twice.
pub proof fn lemma_shift_is_reported_once(days: Seq<Date>, day: int, j: int)
    requires
        days.len() <= usize::MAX,
        0 <= j < days.len(),
    ensures
        selected_indices(days, day).contains(j as usize) <==> days[j].days == day,
        selected_indices(days, day).no_duplicates(),
{
    lemma_selected_indices(days, day);
}

/// Why the hours of a week could not be put together.
#[derive(Clone, Copy, Debug, PartialEq, Eq, Structural)]
pub enum WeekError {
    /// The calendar cannot name all seven days of the week that was asked for.
    WeekOutOfReach,
    /// A finished shift began at an instant that the calendar cannot place.
    ShiftOutOfReach,
    /// The total of a day has no place in `i64`.
    TotalOutOfRange,
}

/// The hours of one week.
#[derive(Debug)]
pub struct WeekReport<'a> {
    /// The Sunday with which the week begins.
    pub week_start: Date,
    /// The seven days from that Sunday to the Saturday after it.
    pub days: Vec<DayReport<'a>>,
}

/// True if every shift in `past` began well inside the range of days that the
/// calendar can name, so that its local day is one of them in any time zone.
pub open spec fn shifts_in_reach(past: Seq<PastTimeBlock>) -> bool {
    forall|j: int|
        0 <= j < past.len() ==> DAY_MIN < utc_day_number((#[trigger] past[j]).date as int)
            < DAY_MAX
}

/// True if every shift in `past` began at an instant that the calendar can
/// place.
pub open spec fn shifts_placed(past: Seq<PastTimeBlock>) -> bool {
    forall|j: int|
        0 <= j < past.len() ==> DAY_MIN <= utc_day_number((#[trigger] past[j]).date as int)
            <= DAY_MAX
}

/// What is known of the local calendar days of the shifts in `past`: there is one
/// for each shift, it is a day of the calendar, and it is the day on which the
/// shift began in UTC, the day before or the day after.
pub open spec fn are_local_days(days: Seq<Date>, past: Seq<PastTimeBlock>) -> bool {
    &&& days.len() == past.len()
    &&& forall|j: int|
        0 <= j < days.len() ==> {
            &&& (#[trigger] days[j]).wf()
            &&& utc_day_number(past[j].date as int) - 1 <= days[j].days <= utc_day_number(
                past[j].date as int,
            ) + 1
        }
}

/// The local calendar day on which each shift began, place for place, or `None`
/// if the calendar cannot place one of them.
pub fn local_days(past: &Vec<PastTimeBlock>) -> (days: Option<Vec<Date>>)
    ensures
        shifts_in_reach(past@) ==> days is Some,
        days matches Some(d) ==> are_local_days(d@, past@) && shifts_placed(past@),
{
    let mut days: Vec<Date> = Vec::new();
    let mut j: usize = 0;
    while j < past.len()
        invariant
            j <= past.len(),
            are_local_days(days@, past@.take(j as int)),
            shifts_placed(past@.take(j as int)),
        decreases past.len() - j,
    {
        match local_day_of(past[j].date) {
            Some(day) => {
                days.push(day);
            },
            None => {
                return None;
            },
        }
        j = j + 1;
    }
    assert(past@.take(j as int) == past@);
    Some(days)
}

/// The hours of the week that begins with `week_start`, from the local day of
/// each shift as `days` gives it.
pub fn report_week<'a>(past: &'a Vec<PastTimeBlock>, days: &Vec<Date>, week_start: Date) -> (report:
    Result<WeekReport<'a>, WeekError>)
    requires
        days@.len() == past@.len(),
        week_start.wf(),
    ensures
        match report {
            Ok(week) => {
                &&& week_start.days + 6 <= DAY_MAX
                &&& week.week_start == week_start
                &&& is_week_report(week.days@, past@, days@, week_start)
            },
            Err(error) => error == WeekError::WeekOutOfReach && week_start.days + 6 > DAY_MAX,
        },
{
    if week_start.days > DAY_MAX - 6 {
        return Err(WeekError::WeekOutOfReach);
    }
    Ok(WeekReport { week_start, days: aggregate(past, days, week_start) })
}

/// True if `report` holds the hours of the week that `week` selects when today
/// is `today` and the shifts in `past` began on the local days `days`.
pub open spec fn is_report_for(
    report: WeekReport,
    past: Seq<PastTimeBlock>,
    today: Date,
    days: Seq<Date>,
    week: i64,
    absolute: bool,
) -> bool {
    &&& is_possible_today(today)
    &&& week_start_of(today, week, absolute) == Some(report.week_start)
    &&& report.week_start.days + 6 <= DAY_MAX
    &&& are_local_days(days, past)
    &&& is_week_report(report.days@, past, days, report.week_start)
}

/// True if, when today is `today`, the calendar cannot name all seven days of the
/// week that `week` selects.
pub open spec fn week_fails(today: Date, week: i64, absolute: bool) -> bool {
    &&& is_possible_today(today)
    &&& match week_start_of(today, week, absolute) {
        Some(start) => start.days + 6 > DAY_MAX,
        None => true,
    }
}

/// The selectors whose week the calendar can name in full whatever day today is:
/// the weeks behind the current one and, in absolute mode, the weeks before the
/// week of new year.
pub open spec fn week_never_fails(week: i64, absolute: bool) -> bool {
    week_surely_in_reach(week, absolute) && week != 0
}

/// The hours of the week that `week` selects: the current week for 0, earlier
/// weeks for larger numbers, or, in absolute mode, the week that lies `week` weeks
/// after 1 January of this year. The week is found from today's date and each
/// shift is put under the local day on which it began.
pub fn week_report<'a>(week: i64, absolute: bool, data: &'a FileFormat) -> (report: Result<
    WeekReport<'a>,
    WeekError,
>)
    ensures
        match report {
            Ok(r) => exists|today: Date, days: Seq<Date>| #[trigger]
                is_report_for(r, data.past@, today, days, week, absolute),
            Err(WeekError::WeekOutOfReach) => exists|today: Date| #[trigger]
                week_fails(today, week, absolute),
            Err(WeekError::ShiftOutOfReach) => !shifts_in_reach(data.past@),
            Err(WeekError::TotalOutOfRange) => false,
        },
        week_never_fails(week, absolute) && shifts_in_reach(data.past@) ==> report is Ok,
        report matches Ok(r) ==> r.week_start.wf() && r.week_start.spec_weekday()
            == Weekday::Sunday,
{
    let found = week_from_clock(week, absolute);
    let week_start = match found.1 {
        Some(date) => date,
        None => {
            assert(week_fails(found.0, week, absolute));
            return Err(WeekError::WeekOutOfReach);
        },
    };
    let days = match local_days(&data.past) {
        Some(days) => days,
        None => {
            return Err(WeekError::ShiftOutOfReach);
        },
    };
    match report_week(&data.past, &days, week_start) {
        Ok(report) => {
            assert(is_report_for(report, data.past@, found.0, days@, week, absolute));
            Ok(report)
        },
        Err(error) => {
            assert(week_fails(found.0, week, absolute));
            Err(error)
        },
    }
}

/// The week that `week` selects as it is shown to the user: the date on which it
/// begins, then day by day the shifts and their total. What is shown is the page
/// of the report that `week_report` gives.
pub fn display(week: i64, absolute: bool, data: &FileFormat) -> (page: Result<
    Vec<Vec<Span>>,
    WeekError,
>)
    ensures
        match page {
            Ok(lines) => exists|report: WeekReport, today: Date, days: Seq<Date>|
                {
                    &&& #[trigger] is_report_for(report, data.past@, today, days, week, absolute)
                    &&& totals_known(report.days@, 7)
                    &&& page_model(lines@) == week_page(report)
                },
            Err(WeekError::WeekOutOfReach) => exists|today: Date| #[trigger]
                week_fails(today, week, absolute),
            Err(WeekError::ShiftOutOfReach) => !shifts_in_reach(data.past@),
            Err(WeekError::TotalOutOfRange) => exists|
                report: WeekReport,
                today: Date,
                days: Seq<Date>,
            |
                {
                    &&& #[trigger] is_report_for(report, data.past@, today, days, week, absolute)
                    &&& !totals_known(report.days@, 7)
                },
        },
        week_never_fails(week, absolute) && shifts_in_reach(data.past@) ==> page
            != Err::<Vec<Vec<Span>>, WeekError>(WeekError::WeekOutOfReach) && page != Err::<
            Vec<Vec<Span>>,
            WeekError,
        >(WeekError::ShiftOutOfReach),
        data.past@.len() == 0 ==> page != Err::<Vec<Vec<Span>>, WeekError>(
            WeekError::TotalOutOfRange,
        ),
{
    match week_report(week, absolute, data) {
        Ok(report) => {
            let ghost (today, days) = choose|today: Date, days: Seq<Date>| #[trigger]
                is_report_for(report, data.past@, today, days, week, absolute);
            proof {
                lemma_week_is_seven_days(report.days@, data.past@, days, report.week_start);
                if data.past@.len() == 0 {
                    assert forall|i: int| 0 <= i < 7 implies (#[trigger] report.days@[i]).total
                        is Some by {
                        assert(is_report_of(
                            report.days@[i],
                            data.past@,
                            days,
                            report.week_start.days + i,
                        ));
                    }
                }
            }
            match render_week(&report) {
                Some(lines) => Ok(lines),
                None => Err(WeekError::TotalOutOfRange),
            }
        },
        Err(error) => Err(error),
    }
}

} // verus!
