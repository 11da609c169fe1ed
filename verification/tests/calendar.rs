use chrono::Datelike;
use work::calendar::{resolve, Date, Weekday, DAY_MAX, DAY_MIN};
use work::utils::{format_date, format_date_time, get_week};

fn ymd(year: i32, month: u32, day: u32) -> Date {
    Date::from_ymd(year, month, day).expect("a day of the calendar")
}

#[test]
fn day_numbers_count_from_the_first_of_january_of_year_one() {
    assert_eq!(ymd(1, 1, 1).days, 1);
    assert_eq!(ymd(1970, 1, 1).days, 719_163);
    assert_eq!(ymd(0, 12, 31).days, 0);
    assert_eq!(ymd(2, 1, 1).days, 366);
    assert_eq!(ymd(2024, 3, 10).days - ymd(2024, 3, 3).days, 7);
}

#[test]
fn days_that_do_not_exist_are_refused() {
    assert_eq!(Date::from_ymd(2023, 2, 29), None);
    assert_eq!(Date::from_ymd(2024, 2, 29).map(|d| d.days), Some(ymd(2024, 3, 1).days - 1));
    assert_eq!(Date::from_ymd(2024, 13, 1), None);
    assert_eq!(Date::from_ymd(2024, 0, 1), None);
    assert_eq!(Date::from_ymd(2024, 4, 31), None);
    assert_eq!(Date::from_ymd(400_000, 1, 1), None);
}

#[test]
fn the_range_of_days_is_that_of_the_calendar() {
    assert_eq!(ymd(-262_143, 1, 1).days, DAY_MIN);
    assert_eq!(ymd(262_142, 12, 31).days, DAY_MAX);
    assert_eq!(Date::from_ymd(-262_144, 12, 31), None);
    assert_eq!(Date::from_ymd(262_143, 1, 1), None);
    assert_eq!(chrono::NaiveDate::MIN.num_days_from_ce(), DAY_MIN);
    assert_eq!(chrono::NaiveDate::MAX.num_days_from_ce(), DAY_MAX);
    assert!(chrono::NaiveDate::from_num_days_from_ce_opt(DAY_MIN - 1).is_none());
    assert!(chrono::NaiveDate::from_num_days_from_ce_opt(DAY_MAX + 1).is_none());
    assert_eq!(Date::from_days(DAY_MIN), Some(Date { days: DAY_MIN }));
    assert_eq!(Date::from_days(DAY_MAX), Some(Date { days: DAY_MAX }));
    assert_eq!(Date::from_days(DAY_MIN - 1), None);
    assert_eq!(Date::from_days(DAY_MAX + 1), None);
    assert_eq!(Date::from_days(0), Some(Date { days: 0 }));
}

#[test]
fn weekdays_agree_with_the_calendar() {
    assert_eq!(ymd(1970, 1, 1).weekday(), Weekday::Thursday);
    assert_eq!(ymd(2024, 3, 10).weekday(), Weekday::Sunday);
    assert_eq!(ymd(2024, 3, 11).weekday(), Weekday::Monday);
    assert_eq!(ymd(2024, 3, 12).weekday(), Weekday::Tuesday);
    assert_eq!(ymd(2024, 3, 13).weekday(), Weekday::Wednesday);
    assert_eq!(ymd(2024, 3, 15).weekday(), Weekday::Friday);
    assert_eq!(ymd(2024, 3, 16).weekday(), Weekday::Saturday);
    assert_eq!(ymd(1, 1, 1).weekday(), Weekday::Monday);
    assert_eq!(
        ymd(-44, 3, 15).weekday().name(),
        chrono::NaiveDate::from_ymd_opt(-44, 3, 15).expect("a day").format("%A").to_string()
    );
    assert!(ymd(2024, 3, 10).is_sunday());
    assert!(!ymd(2024, 3, 9).is_sunday());
    assert!(Date { days: 0 }.is_sunday());
    assert!(Date { days: -7 }.is_sunday());
    assert!(!Date { days: -1 }.is_sunday());
    assert_eq!(Date { days: -1 }.weekday(), Weekday::Saturday);
}

#[test]
fn weekdays_match_chrono_on_a_run_of_days() {
    let mut days = -800;
    while days < 800 {
        let ours = Date { days }.weekday().name().to_string();
        let theirs = chrono::NaiveDate::from_num_days_from_ce_opt(days)
            .expect("a day of the calendar")
            .format("%A")
            .to_string();
        assert_eq!(ours, theirs);
        days += 1;
    }
    assert_eq!(Date { days: DAY_MIN }.weekday().name(), chrono::NaiveDate::MIN.format("%A").to_string());
    assert_eq!(Date { days: DAY_MAX }.weekday().name(), chrono::NaiveDate::MAX.format("%A").to_string());
}

#[test]
fn weekday_names_are_english() {
    assert_eq!(Weekday::Sunday.name(), "Sunday");
    assert_eq!(Weekday::Monday.name(), "Monday");
    assert_eq!(Weekday::Tuesday.name(), "Tuesday");
    assert_eq!(Weekday::Wednesday.name(), "Wednesday");
    assert_eq!(Weekday::Thursday.name(), "Thursday");
    assert_eq!(Weekday::Friday.name(), "Friday");
    assert_eq!(Weekday::Saturday.name(), "Saturday");
}

#[test]
fn neighbours_of_a_day() {
    assert_eq!(ymd(2024, 3, 1).pred(), Some(ymd(2024, 2, 29)));
    assert_eq!(ymd(2023, 12, 31).succ(), Some(ymd(2024, 1, 1)));
    assert_eq!(Date { days: DAY_MIN }.pred(), None);
    assert_eq!(Date { days: DAY_MAX }.succ(), None);
    assert_eq!(Date { days: DAY_MIN }.succ(), Some(Date { days: DAY_MIN + 1 }));
    assert_eq!(Date { days: DAY_MAX }.pred(), Some(Date { days: DAY_MAX - 1 }));
}

#[test]
fn current_week_begins_on_the_sunday_on_or_before_today() {
    let year_start = ymd(2024, 1, 1);
    assert_eq!(resolve(ymd(2024, 3, 13), year_start, 0, false), Some(ymd(2024, 3, 10)));
    assert_eq!(resolve(ymd(2024, 3, 10), year_start, 0, false), Some(ymd(2024, 3, 10)));
    assert_eq!(resolve(ymd(2024, 3, 16), year_start, 0, false), Some(ymd(2024, 3, 10)));
    assert_eq!(resolve(ymd(2024, 3, 17), year_start, 0, false), Some(ymd(2024, 3, 17)));
}

#[test]
fn relative_weeks_count_backwards() {
    let year_start = ymd(2024, 1, 1);
    let today = ymd(2024, 3, 13);
    assert_eq!(resolve(today, year_start, 1, false), Some(ymd(2024, 3, 3)));
    assert_eq!(resolve(today, year_start, 2, false), Some(ymd(2024, 2, 25)));
    assert_eq!(resolve(today, year_start, 11, false), Some(ymd(2023, 12, 24)));
    assert_eq!(resolve(today, year_start, -1, false), Some(ymd(2024, 3, 17)));
}

#[test]
fn absolute_week_zero_is_the_sunday_on_or_before_new_year() {
    let today = ymd(2024, 3, 13);
    assert_eq!(resolve(today, ymd(2024, 1, 1), 0, true), Some(ymd(2023, 12, 31)));
    assert_eq!(resolve(today, ymd(2023, 1, 1), 0, true), Some(ymd(2023, 1, 1)));
    assert_eq!(resolve(today, ymd(2022, 1, 1), 0, true), Some(ymd(2021, 12, 26)));
}

#[test]
fn absolute_weeks_count_forward_from_new_year() {
    let today = ymd(2024, 3, 13);
    let year_start = ymd(2024, 1, 1);
    assert_eq!(resolve(today, year_start, 1, true), Some(ymd(2024, 1, 7)));
    assert_eq!(resolve(today, year_start, 10, true), Some(ymd(2024, 3, 10)));
    assert_eq!(resolve(today, year_start, 52, true), Some(ymd(2024, 12, 29)));
    assert_eq!(resolve(today, year_start, 60, true), Some(ymd(2025, 2, 23)));
    assert_eq!(resolve(today, year_start, -1, true), Some(ymd(2023, 12, 24)));
}

#[test]
fn weeks_beyond_the_calendar_are_not_found() {
    let today = ymd(2024, 3, 13);
    let year_start = ymd(2024, 1, 1);
    assert_eq!(resolve(today, year_start, i64::MAX, false), None);
    assert_eq!(resolve(today, year_start, i64::MIN, false), None);
    assert_eq!(resolve(today, year_start, i64::MAX, true), None);
    assert_eq!(resolve(today, year_start, i64::MIN, true), None);
    assert_eq!(resolve(today, year_start, 14_000_000, true), None);
    let first = Date { days: DAY_MIN };
    assert_eq!(first.weekday(), Weekday::Thursday);
    assert_eq!(resolve(first, first, 0, false), None);
    let early = Date { days: DAY_MIN + 3 };
    assert_eq!(resolve(early, first, 0, false), Some(early));
    let last = Date { days: DAY_MAX };
    assert_eq!(resolve(last, last, 0, false).map(|d| d.is_sunday()), Some(true));
    assert_eq!(resolve(last, last, -1, false), None);
}

#[test]
fn every_resolved_week_begins_on_a_sunday_within_the_week_before_the_anchor() {
    let year_start = ymd(2024, 1, 1);
    let mut offset = 0;
    while offset < 40 {
        let today = Date { days: ymd(2024, 2, 1).days + offset };
        let mut week = -6;
        while week <= 6 {
            let start = resolve(today, year_start, week, false).expect("a week in reach");
            let anchor = today.days as i64 - 7 * week;
            assert!(start.is_sunday());
            assert!(anchor - 7 < start.days as i64 && start.days as i64 <= anchor);
            let absolute = resolve(today, year_start, week, true).expect("a week in reach");
            let anchor = year_start.days as i64 + 7 * week;
            assert!(absolute.is_sunday());
            assert!(anchor - 7 < absolute.days as i64 && absolute.days as i64 <= anchor);
            week += 1;
        }
        offset += 1;
    }
}

#[test]
fn the_current_week_is_found_from_the_clock() {
    let before = chrono::Local::now().date_naive().num_days_from_ce();
    let start = get_week(0, false).expect("the current week");
    let after = chrono::Local::now().date_naive().num_days_from_ce();
    assert!(start.is_sunday());
    assert!(start.days <= after);
    assert!(start.days > before - 7);
    assert!(get_week(13_780_755, false).is_some());
    assert!(get_week(0, true).is_some());
    assert!(get_week(-13_780_702, true).is_some());
    let earlier = get_week(3, false).expect("a week this year or last");
    assert!(earlier.is_sunday());
    assert!(earlier.days == start.days - 21 || before != after);
}

#[test]
fn absolute_weeks_are_found_from_new_year_of_the_current_year() {
    let year = chrono::Local::now().date_naive().year();
    let start = get_week(0, true).expect("the week of new year");
    let again = chrono::Local::now().date_naive().year();
    let new_year = ymd(year, 1, 1);
    assert!(start.is_sunday());
    assert!((start.days <= new_year.days && start.days > new_year.days - 7) || year != again);
    let tenth = get_week(10, true).expect("the tenth week");
    assert!(tenth.days == start.days + 70 || year != again);
}

#[test]
fn dates_are_written_with_day_short_month_and_year() {
    assert_eq!(format_date(ymd(2024, 3, 3)), "3 Mar 2024");
    assert_eq!(format_date(ymd(2023, 12, 31)), "31 Dec 2023");
    assert_eq!(format_date(ymd(1999, 1, 10)), "10 Jan 1999");
}

#[test]
fn instants_are_written_as_local_date_and_time() {
    let text = format_date_time(1_700_000_000).expect("an instant of the calendar");
    let local = chrono::DateTime::from_timestamp(1_700_000_000, 0)
        .expect("an instant of the calendar")
        .with_timezone(&chrono::Local);
    assert_eq!(text, local.format("%a, %e %B %Y %T").to_string());
    assert!(text.contains("November 2023"));
    assert_eq!(format_date_time(i64::MAX), None);
    assert_eq!(format_date_time(i64::MIN), None);
    let first = (DAY_MIN as i64 - 719_163) * 86_400;
    assert!(format_date_time(first).is_some());
    assert_eq!(format_date_time(first - 1), None);
    let last = (DAY_MAX as i64 - 719_163) * 86_400 + 86_399;
    assert!(format_date_time(last).is_some());
    assert_eq!(format_date_time(last + 1), None);
}
