//! Calendar days as day numbers, and the days of the week.

use crate::clock::{day_number_of_ymd, day_of_ymd};
use vstd::prelude::*;

verus! {

/// The number of the first day that a [`Date`] can be: 1 January of the year
/// -262143 in the proleptic Gregorian calendar.
pub const DAY_MIN: i32 = -95_746_129;

/// The number of the last day that a [`Date`] can be: 31 December 262142.
pub const DAY_MAX: i32 = 95_745_399;

/// A multiple of seven that lifts every valid day number above zero.
const WEEK_ALIGNED_LIFT: i64 = 95_746_133;

/// A day of the week.
#[derive(Clone, Copy, Debug, PartialEq, Eq, Structural)]
pub enum Weekday {
    Sunday,
    Monday,
    Tuesday,
    Wednesday,
    Thursday,
    Friday,
    Saturday,
}

impl Weekday {
    /// The place of the day in a week that begins on Sunday, from 0 to 6.
    pub open spec fn spec_index(self) -> int {
        match self {
            Weekday::Sunday => 0,
            Weekday::Monday => 1,
            Weekday::Tuesday => 2,
            Weekday::Wednesday => 3,
            Weekday::Thursday => 4,
            Weekday::Friday => 5,
            Weekday::Saturday => 6,
        }
    }

    /// The English name of the day.
    pub open spec fn spec_name(self) -> Seq<char> {
        match self {
            Weekday::Sunday => "Sunday"@,
            Weekday::Monday => "Monday"@,
            Weekday::Tuesday => "Tuesday"@,
            Weekday::Wednesday => "Wednesday"@,
            Weekday::Thursday => "Thursday"@,
            Weekday::Friday => "Friday"@,
            Weekday::Saturday => "Saturday"@,
        }
    }

    pub fn name(&self) -> (text: &'static str)
        ensures
            text@ == self.spec_name(),
    {
        match self {
            Weekday::Sunday => "Sunday",
            Weekday::Monday => "Monday",
            Weekday::Tuesday => "Tuesday",
            Weekday::Wednesday => "Wednesday",
            Weekday::Thursday => "Thursday",
            Weekday::Friday => "Friday",
            Weekday::Saturday => "Saturday",
        }
    }
}

/// The day of the week on which the day with the number `days` falls. Day 1 is
/// Monday, 1 January of the year 1, so every multiple of seven is a Sunday.
pub open spec fn weekday_of(days: int) -> Weekday {
    let index = days % 7;
    if index == 0 {
        Weekday::Sunday
    } else if index == 1 {
        Weekday::Monday
    } else if index == 2 {
        Weekday::Tuesday
    } else if index == 3 {
        Weekday::Wednesday
    } else if index == 4 {
        Weekday::Thursday
    } else if index == 5 {
        Weekday::Friday
    } else {
        Weekday::Saturday
    }
}

/// The number of the Sunday that begins the week of the day `days`: the latest
/// Sunday that is not after it.
pub open spec fn sunday_on_or_before(days: int) -> int {
    days - days % 7
}

/// A calendar day without a time of day: the number of the day in the proleptic
/// Gregorian calendar, where 1 January of the year 1 is day 1.
#[derive(Clone, Copy, Debug, PartialEq, Eq, Structural)]
pub struct Date {
    pub days: i32,
}

impl Date {
    /// The day lies in the range of days that the calendar can name.
    pub open spec fn wf(self) -> bool {
        DAY_MIN <= self.days <= DAY_MAX
    }

    pub open spec fn spec_weekday(self) -> Weekday {
        weekday_of(self.days as int)
    }

    /// The day with the number `days`, if the calendar can name it.
    pub fn from_days(days: i32) -> (date: Option<Date>)
        ensures
            date == if DAY_MIN <= days <= DAY_MAX {
                Some(Date { days })
            } else {
                None
            },
    {
        if DAY_MIN <= days && days <= DAY_MAX {
            Some(Date { days })
        } else {
            None
        }
    }

    /// The day with the given year, month and day of the month, if there is such a
    /// day and the calendar can name it.
    pub fn from_ymd(year: i32, month: u32, day: u32) -> (date: Option<Date>)
        ensures
            match date {
                Some(d) => day_number_of_ymd(year as int, month as int, day as int) == Some(
                    d.days as int,
                ) && d.wf(),
                None => day_number_of_ymd(year as int, month as int, day as int) is None,
            },
    {
        day_of_ymd(year, month, day)
    }

    pub fn weekday(&self) -> (day: Weekday)
        requires
            self.wf(),
        ensures
            day == self.spec_weekday(),
    {
        let index: i64 = (self.days as i64 + WEEK_ALIGNED_LIFT) % 7;
        if index == 0 {
            Weekday::Sunday
        } else if index == 1 {
            Weekday::Monday
        } else if index == 2 {
            Weekday::Tuesday
        } else if index == 3 {
            Weekday::Wednesday
        } else if index == 4 {
            Weekday::Thursday
        } else if index == 5 {
            Weekday::Friday
        } else {
            Weekday::Saturday
        }
    }

    pub fn is_sunday(&self) -> (yes: bool)
        requires
            self.wf(),
        ensures
            yes == (self.days % 7 == 0),
            yes == (self.spec_weekday() == Weekday::Sunday),
    {
        (self.days as i64 + WEEK_ALIGNED_LIFT) % 7 == 0
    }

    /// The day before, unless `self` is the first day of all.
    pub fn pred(&self) -> (date: Option<Date>)
        requires
            self.wf(),
        ensures
            date == if self.days > DAY_MIN {
                Some(Date { days: (self.days - 1) as i32 })
            } else {
                None
            },
    {
        if self.days > DAY_MIN {
            Some(Date { days: self.days - 1 })
        } else {
            None
        }
    }

    /// The day after, unless `self` is the last day of all.
    pub fn succ(&self) -> (date: Option<Date>)
        requires
            self.wf(),
        ensures
            date == if self.days < DAY_MAX {
                Some(Date { days: (self.days + 1) as i32 })
            } else {
                None
            },
    {
        if self.days < DAY_MAX {
            Some(Date { days: self.days + 1 })
        } else {
            None
        }
    }
}

/// Which day a week selector starts from: in absolute mode the first day of the
/// year, `week` weeks onward; else today, `week` weeks back.
pub open spec fn week_anchor(today: Date, year_start: Date, week: i64, absolute: bool) -> int {
    if absolute {
        year_start.days + 7 * week
    } else {
        today.days - 7 * week
    }
}

/// True if the week that the selector names can be reached: its anchor day and the
/// Sunday before it are days that the calendar can name.
pub open spec fn week_in_reach(today: Date, year_start: Date, week: i64, absolute: bool) -> bool {
    let anchor = week_anchor(today, year_start, week, absolute);
    DAY_MIN <= sunday_on_or_before(anchor) && anchor <= DAY_MAX
}

/// The Sunday that begins the week which `week` selects, seen from `today` or, in
/// absolute mode, from `year_start`. From the anchor day the search walks back day
/// by day to the nearest Sunday. `None` where the week cannot be reached.
pub fn resolve(today: Date, year_start: Date, week: i64, absolute: bool) -> (start: Option<Date>)
    requires
        today.wf(),
        year_start.wf(),
    ensures
        match start {
            Some(date) => {
                &&& week_in_reach(today, year_start, week, absolute)
                &&& date.days == sunday_on_or_before(
                    week_anchor(today, year_start, week, absolute),
                )
                &&& date.wf()
                &&& date.spec_weekday() == Weekday::Sunday
                &&& week_anchor(today, year_start, week, absolute) - 7 < date.days
                    <= week_anchor(today, year_start, week, absolute)
            },
            None => !week_in_reach(today, year_start, week, absolute),
        },
{
    let anchor: i128 = if absolute {
        year_start.days as i128 + 7 * (week as i128)
    } else {
        today.days as i128 - 7 * (week as i128)
    };
    if anchor < DAY_MIN as i128 || anchor > DAY_MAX as i128 {
        return None;
    }
    let mut day = Date { days: anchor as i32 };
    while !day.is_sunday()
        invariant
            day.wf(),
            anchor == week_anchor(today, year_start, week, absolute),
            sunday_on_or_before(anchor as int) <= day.days <= anchor <= DAY_MAX,
        decreases day.days - sunday_on_or_before(anchor as int),
    {
        match day.pred() {
            Some(before) => {
                day = before;
            },
            None => {
                return None;
            },
        }
    }
    Some(day)
}

/// The day that `resolve` finds is a Sunday whatever the selector: the Sunday on
/// or before the anchor day, less than a week before it. For the current week
/// that is a Sunday that is not after today and less than seven days ago; for
/// week 0 in absolute mode it is the last Sunday that is not after 1 January.
pub proof fn lemma_week_starts_on_sunday(today: Date, year_start: Date, week: i64, absolute: bool)
    ensures
        ({
            let anchor = week_anchor(today, year_start, week, absolute);
            let start = sunday_on_or_before(anchor);
            &&& weekday_of(start) == Weekday::Sunday
            &&& anchor - 7 < start <= anchor
            &&& forall|other: int|
                weekday_of(other) == Weekday::Sunday && other <= anchor ==> other <= start
        }),
        week_anchor(today, year_start, 0, false) == today.days,
        week_anchor(today, year_start, 0, true) == year_start.days,
{
}

} // verus!
