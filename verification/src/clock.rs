//! The clock and the local calendar, as `chrono` gives them.
//!
//! Every function here hands a question to `chrono` and brings the answer back as
//! a plain value. What is stated of the answers is taken on trust from `chrono`.

use crate::calendar::{Date, DAY_MAX, DAY_MIN};
use vstd::prelude::*;

verus! {

/// The number of the day on which an instant falls in UTC: whole days since
/// 1970-01-01, which is day 719163.
pub open spec fn utc_day_number(instant: int) -> int {
    instant / 86_400 + 719_163
}

/// The number of the first day of the year in which the day `days` lies, as
/// `chrono` counts years in the proleptic Gregorian calendar.
pub uninterp spec fn year_start_number(days: int) -> int;

/// The number of the day with the given year, month and day of the month, or
/// `None` where `chrono` knows no such day.
pub uninterp spec fn day_number_of_ymd(year: int, month: int, day: int) -> Option<int>;

/// The day `days` written as day of the month, short month name and year.
pub uninterp spec fn short_date_text(days: int) -> Seq<char>;

/// The day `days` written as the name of its weekday, a dash and the ISO date.
pub uninterp spec fn day_heading_text(days: int) -> Seq<char>;

/// The current instant in whole seconds since 1970-01-01 00:00:00 UTC, read with
/// `chrono::Utc::now` and `DateTime::timestamp`. Nothing is claimed of the value:
/// it is whatever the system clock says. `chrono` itself gives up on a clock that
/// is set before 1970.
#[verifier::external_body]
pub(crate) fn current_instant() -> (now: i64) {
    chrono::Utc::now().timestamp()
}

/// Today's date where the machine is, read with `chrono::Local::now` and
/// `DateTime::date_naive`. Claimed: the day is one that `NaiveDate` can hold, and
/// it is not before 31 December 1969, which is day 719162: `Utc::now` gives up on
/// a clock that is set before 1970, and a local offset is shorter than a day.
/// Which day it is depends on the clock and the time zone.
#[verifier::external_body]
pub(crate) fn local_today() -> (today: Date)
    ensures
        today.wf(),
        today.days >= 719_162,
{
    Date { days: chrono::Datelike::num_days_from_ce(&chrono::Local::now().date_naive()) }
}

/// The local calendar day on which the instant falls, found with
/// `DateTime::from_timestamp`, `DateTime::with_timezone` for `chrono::Local` and
/// `NaiveDateTime::checked_add_offset`. Claimed: a day that comes back is one that
/// `NaiveDate` can hold, and it is the day on which the instant falls in UTC, the
/// day before or the day after (a local offset is shorter than a day); none comes
/// back for an instant that falls, in UTC, outside such days; one does come back
/// unless the instant falls, in UTC, on the first or last such day or outside
/// them. Which of the three days comes back depends on the machine's time zone.
#[verifier::external_body]
pub(crate) fn local_day_of(instant: i64) -> (day: Option<Date>)
    ensures
        day matches Some(d) ==> d.wf() && utc_day_number(instant as int) - 1 <= d.days
            <= utc_day_number(instant as int) + 1,
        day is Some ==> DAY_MIN <= utc_day_number(instant as int) <= DAY_MAX,
        DAY_MIN < utc_day_number(instant as int) < DAY_MAX ==> day is Some,
{
    let local = chrono::DateTime::from_timestamp(instant, 0)?.with_timezone(&chrono::Local);
    let naive = local.naive_utc().checked_add_offset(*local.offset())?;
    Some(Date { days: chrono::Datelike::num_days_from_ce(&naive.date()) })
}

/// The first day of the year of `date`, by `NaiveDate::from_num_days_from_ce_opt`,
/// `Datelike::year` and `NaiveDate::from_yo_opt` with ordinal 1. Claimed: the
/// result is a function of the day alone, exists for every valid day, is valid
/// itself, is not after `date` and is at most 365 days before it (a year has at
/// most 366 days).
#[verifier::external_body]
pub(crate) fn first_day_of_year(date: Date) -> (first: Option<Date>)
    ensures
        date.wf() ==> first is Some,
        first matches Some(d) ==> d.days == year_start_number(date.days as int) && d.wf()
            && d.days <= date.days <= d.days + 365,
{
    let day = chrono::NaiveDate::from_num_days_from_ce_opt(date.days)?;
    let first = chrono::NaiveDate::from_yo_opt(chrono::Datelike::year(&day), 1)?;
    Some(Date { days: chrono::Datelike::num_days_from_ce(&first) })
}

/// The day with the given year, month and day of the month, by
/// `NaiveDate::from_ymd_opt`. Claimed: the result is a function of the three
/// numbers alone, and a day that comes back is valid.
#[verifier::external_body]
pub(crate) fn day_of_ymd(year: i32, month: u32, day: u32) -> (date: Option<Date>)
    ensures
        match date {
            Some(d) => day_number_of_ymd(year as int, month as int, day as int) == Some(
                d.days as int,
            ) && d.wf(),
            None => day_number_of_ymd(year as int, month as int, day as int) is None,
        },
{
    let date = chrono::NaiveDate::from_ymd_opt(year, month, day)?;
    Some(Date { days: chrono::Datelike::num_days_from_ce(&date) })
}

/// The date in the form `3 Mar 2024`, by `NaiveDate::format` with `%-e %b %Y`.
/// Claimed: the text is a function of the day alone and exists for every valid
/// day.
#[verifier::external_body]
pub(crate) fn short_date(date: Date) -> (text: Option<String>)
    ensures
        date.wf() ==> text is Some,
        text matches Some(t) ==> t@ == short_date_text(date.days as int),
{
    let day = chrono::NaiveDate::from_num_days_from_ce_opt(date.days)?;
    Some(day.format("%-e %b %Y").to_string())
}

/// The date in the form `Sunday - 2024-03-03`, by `NaiveDate::format` with
/// `%A - %F`. Claimed: the text is a function of the day alone and exists for
/// every valid day.
#[verifier::external_body]
pub(crate) fn day_heading(date: Date) -> (text: Option<String>)
    ensures
        date.wf() ==> text is Some,
        text matches Some(t) ==> t@ == day_heading_text(date.days as int),
{
    let day = chrono::NaiveDate::from_num_days_from_ce_opt(date.days)?;
    Some(day.format("%A - %F").to_string())
}

/// The instant as local date and time in the form `Sun,  3 March 2024 14:05:09`,
/// by `DateTime::from_timestamp`, `DateTime::with_timezone` for `chrono::Local`
/// and `DateTime::format` with `%a, %e %B %Y %T`. Claimed: a text comes back
/// exactly when the instant falls, in UTC, on a day that `NaiveDate` can hold.
/// What the text says depends on the machine's time zone.
#[verifier::external_body]
pub(crate) fn local_date_time(instant: i64) -> (text: Option<String>)
    ensures
        text is Some <==> DAY_MIN <= utc_day_number(instant as int) <= DAY_MAX,
{
    let local = chrono::DateTime::from_timestamp(instant, 0)?.with_timezone(&chrono::Local);
    Some(local.format("%a, %e %B %Y %T").to_string())
}

} // verus!
