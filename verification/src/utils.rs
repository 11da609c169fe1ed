//! Week selection and the texts in which durations and dates are shown.

use crate::calendar::{
    resolve, sunday_on_or_before, week_anchor, week_in_reach, Date, Weekday, DAY_MAX, DAY_MIN,
};
use crate::clock::{
    first_day_of_year, local_date_time, local_today, short_date, short_date_text,
    utc_day_number, year_start_number,
};
use crate::text::{decimal_text, push_decimal};
use vstd::prelude::*;
use vstd::string::*;

verus! {

/// The first day of the year in which `today` lies.
pub open spec fn year_start_of(today: Date) -> Date {
    Date { days: year_start_number(today.days as int) as i32 }
}

/// What is known of the day that the clock shows as today: it is a day of the
/// calendar, not before 31 December 1969, and it lies in a year that began on a
/// day of the calendar at most 365 days earlier.
pub open spec fn is_possible_today(today: Date) -> bool {
    &&& today.wf()
    &&& today.days >= 719_162
    &&& year_start_of(today).wf()
    &&& year_start_of(today).days <= today.days <= year_start_of(today).days + 365
}

/// The Sunday that begins the week which `week` selects when today is `today`,
/// or `None` where the calendar cannot name that week.
pub open spec fn week_start_of(today: Date, week: i64, absolute: bool) -> Option<Date> {
    if week_in_reach(today, year_start_of(today), week, absolute) {
        Some(
            Date {
                days: sunday_on_or_before(
                    week_anchor(today, year_start_of(today), week, absolute),
                ) as i32,
            },
        )
    } else {
        None
    }
}

/// The selectors whose week the calendar can name whatever day today is: the
/// current week and the weeks behind it, and in absolute mode the week of new
/// year and the weeks before it, in both cases as far back as the calendar goes
/// from 1969.
pub open spec fn week_surely_in_reach(week: i64, absolute: bool) -> bool {
    if absolute {
        -13_780_702 <= week <= 0
    } else {
        0 <= week <= 13_780_755
    }
}

/// Reads today's date and finds the week that `week` selects from it.
pub(crate) fn week_from_clock(week: i64, absolute: bool) -> (found: (Date, Option<Date>))
    ensures
        is_possible_today(found.0),
        found.1 == week_start_of(found.0, week, absolute),
{
    let today = local_today();
    match first_day_of_year(today) {
        Some(year_start) => (today, resolve(today, year_start, week, absolute)),
        None => (today, None),
    }
}

/// The Sunday that begins the week which `week` selects, seen from today on the
/// local calendar: in absolute mode the week of the day that lies `week` weeks
/// after 1 January of this year, else the week `week` weeks ago. `None` where the
/// calendar cannot name that week, which does not happen for the current week
/// nor for any week behind it that `week_surely_in_reach` admits.
pub fn get_week(week: i64, absolute: bool) -> (start: Option<Date>)
    ensures
        exists|today: Date| #[trigger]
            is_possible_today(today) && start == week_start_of(today, week, absolute),
        week_surely_in_reach(week, absolute) ==> start is Some,
        start matches Some(date) ==> date.wf() && date.spec_weekday() == Weekday::Sunday,
{
    let found = week_from_clock(week, absolute);
    found.1
}

/// Hours, minutes and seconds of a duration. Hours are not limited to a day. The
/// parts of a negative duration are negative or zero.
pub open spec fn clock_parts(seconds: int) -> (int, int, int) {
    if seconds >= 0 {
        (seconds / 3600, (seconds / 60) % 60, seconds % 60)
    } else {
        (-((-seconds) / 3600), -(((-seconds) / 60) % 60), -((-seconds) % 60))
    }
}

/// A number in at least two digits: below ten a zero is put in front.
pub open spec fn two_digit_text(n: int) -> Seq<char> {
    if n < 10 {
        seq!['0'] + decimal_text(n)
    } else {
        decimal_text(n)
    }
}

/// A duration as `HH:MM:SS`.
pub open spec fn format_time_text(seconds: int) -> Seq<char> {
    let (h, m, s) = clock_parts(seconds);
    two_digit_text(h) + seq![':'] + two_digit_text(m) + seq![':'] + two_digit_text(s)
}

/// Splits a duration in seconds into hours, minutes and seconds.
pub fn split_duration(seconds: i64) -> (parts: (i64, i64, i64))
    ensures
        (parts.0 as int, parts.1 as int, parts.2 as int) == clock_parts(seconds as int),
        seconds == parts.0 * 3600 + parts.1 * 60 + parts.2,
{
    if seconds >= 0 {
        let minutes: i64 = seconds / 60;
        (seconds / 3600, minutes % 60, seconds % 60)
    } else {
        let magnitude: u64 = (-(seconds as i128)) as u64;
        let minutes: u64 = magnitude / 60;
        (-((magnitude / 3600) as i64), -((minutes % 60) as i64), -((magnitude % 60) as i64))
    }
}

/// Appends `n` in at least two digits to `out`.
pub fn push_two_digits(out: &mut String, n: i64)
    ensures
        final(out)@ == old(out)@ + two_digit_text(n as int),
{
    if n < 10 {
        proof {
            reveal_strlit("0");
        }
        out.append("0");
        push_decimal(out, n);
    } else {
        push_decimal(out, n);
    }
}

/// `n` in at least two digits.
pub fn two_digits(n: i64) -> (text: String)
    ensures
        text@ == two_digit_text(n as int),
{
    let mut text = String::new();
    push_two_digits(&mut text, n);
    text
}

/// The duration as `HH:MM:SS`: hours, minutes and seconds, each in at least two
/// digits. The hours count on past 24.
pub fn format_time(seconds: i64) -> (text: String)
    ensures
        text@ == format_time_text(seconds as int),
{
    let (h, m, s) = split_duration(seconds);
    let mut text = String::new();
    proof {
        reveal_strlit(":");
    }
    push_two_digits(&mut text, h);
    text.append(":");
    push_two_digits(&mut text, m);
    text.append(":");
    push_two_digits(&mut text, s);
    text
}

/// The instant as local date and time, or `None` for an instant that is too far
/// from the present for the calendar.
pub fn format_date_time(instant: i64) -> (text: Option<String>)
    ensures
        text is Some <==> DAY_MIN <= utc_day_number(instant as int) <= DAY_MAX,
{
    local_date_time(instant)
}

/// The date as day of the month, short month name and year.
pub fn format_date(date: Date) -> (text: String)
    requires
        date.wf(),
    ensures
        text@ == short_date_text(date.days as int),
{
    match short_date(date) {
        Some(text) => text,
        None => String::new(),
    }
}

} // verus!
