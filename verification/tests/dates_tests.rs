use barterup_be::dates::{
    age_years_on, is_age_in_window, years_between, CalendarDate, MAX_AGE, MAX_YEAR, MIN_AGE,
    MIN_YEAR,
};
use chrono::{Datelike, NaiveDate};

fn date(year: i32, month: u32, day: u32) -> CalendarDate {
    CalendarDate::from_ymd(year, month, day).unwrap()
}

#[test]
fn dates_of_the_calendar_are_those_of_chrono() {
    for year in [MIN_YEAR - 1, MIN_YEAR, -401, -400, -100, -4, -1, 0, 1, 4, 100, 400, 1900, 1999, 2000, 2023, 2024, 2100, MAX_YEAR, MAX_YEAR + 1] {
        for month in 0..=13 {
            for day in 0..=32 {
                let ours = CalendarDate::from_ymd(year, month, day);
                let theirs = NaiveDate::from_ymd_opt(year, month, day);
                assert_eq!(ours.is_some(), theirs.is_some(), "{}-{}-{}", year, month, day);
                if let Some(d) = ours {
                    assert_eq!((d.year, d.month, d.day), (year, month, day));
                }
            }
        }
    }
    assert_eq!(NaiveDate::MIN.year(), MIN_YEAR);
    assert_eq!(NaiveDate::MAX.year(), MAX_YEAR);
    assert!(CalendarDate::from_ymd(i32::MIN, 1, 1).is_none());
    assert!(CalendarDate::from_ymd(i32::MAX, 1, 1).is_none());
    assert!(CalendarDate::from_ymd(2024, u32::MAX, 1).is_none());
    assert!(CalendarDate::from_ymd(2024, 1, u32::MAX).is_none());
}

#[test]
fn leap_days() {
    assert!(CalendarDate::from_ymd(2024, 2, 29).is_some());
    assert!(CalendarDate::from_ymd(2023, 2, 29).is_none());
    assert!(CalendarDate::from_ymd(1900, 2, 29).is_none());
    assert!(CalendarDate::from_ymd(2000, 2, 29).is_some());
    assert!(CalendarDate::from_ymd(0, 2, 29).is_some());
    assert!(CalendarDate::from_ymd(-4, 2, 29).is_some());
    assert!(CalendarDate::from_ymd(-1, 2, 29).is_none());
    assert!(CalendarDate::from_ymd(2024, 4, 31).is_none());
    assert!(CalendarDate::from_ymd(2024, 12, 31).is_some());
}

#[test]
fn parse_reads_day_month_year() {
    assert_eq!(CalendarDate::parse("15/06/1990", "%d/%m/%Y"), Some(date(1990, 6, 15)));
    assert_eq!(CalendarDate::parse("1990-06-15", "%Y-%m-%d"), Some(date(1990, 6, 15)));
    assert_eq!(CalendarDate::parse("06/15/1990", "%m/%d/%Y"), Some(date(1990, 6, 15)));
    assert_eq!(CalendarDate::parse("06/15/1990", "%d/%m/%Y"), None);
    assert_eq!(CalendarDate::parse("31/02/1990", "%d/%m/%Y"), None);
    assert_eq!(CalendarDate::parse("", "%d/%m/%Y"), None);
    assert_eq!(CalendarDate::parse("yesterday", "%Y-%m-%d"), None);
}

#[test]
fn iso_text_of_dates() {
    assert_eq!(date(1990, 6, 15).to_iso(), "1990-06-15");
    assert_eq!(date(2000, 2, 29).to_iso(), "2000-02-29");
    assert_eq!(date(1, 1, 1).to_iso(), "0001-01-01");
    assert_eq!(date(MAX_YEAR, 12, 31).to_iso(), "+262142-12-31");
    assert_eq!(date(MIN_YEAR, 1, 1).to_iso(), "-262143-01-01");
}

#[test]
fn today_is_a_date() {
    let today = CalendarDate::today();
    assert_eq!(CalendarDate::from_ymd(today.year, today.month, today.day), Some(today));
    assert!(today.year >= 2024);
}

#[test]
fn age_turns_on_the_birthday() {
    let born = date(1990, 6, 15);
    assert_eq!(years_between(born, date(2003, 6, 14)), 12);
    assert_eq!(years_between(born, date(2003, 6, 15)), 13);
    assert_eq!(years_between(born, date(2003, 7, 1)), 13);
    assert_eq!(years_between(born, date(2004, 5, 31)), 13);
    assert_eq!(years_between(born, date(2024, 1, 1)), 33);
    assert_eq!(years_between(born, born), 0);
    assert_eq!(years_between(born, date(1990, 6, 14)), -1);
    assert_eq!(years_between(born, date(1989, 6, 15)), -1);
    assert_eq!(years_between(born, date(1989, 6, 14)), -2);
    assert_eq!(age_years_on(born, date(2024, 1, 1)), 33);
    assert_eq!(age_years_on(date(MIN_YEAR, 1, 1), date(MAX_YEAR, 12, 31)), 524_285);
    assert_eq!(age_years_on(date(MAX_YEAR, 12, 31), date(MIN_YEAR, 1, 1)), -524_286);
}

#[test]
fn leap_day_birthday_comes_on_the_first_of_march() {
    let born = date(2008, 2, 29);
    assert_eq!(years_between(born, date(2021, 2, 28)), 12);
    assert_eq!(years_between(born, date(2021, 3, 1)), 13);
    assert_eq!(years_between(born, date(2024, 2, 28)), 15);
    assert_eq!(years_between(born, date(2024, 2, 29)), 16);
}

#[test]
fn window_is_thirteen_to_a_hundred_and_twenty_years() {
    assert_eq!(MIN_AGE, 13);
    assert_eq!(MAX_AGE, 120);
    let today = date(2026, 10, 29);
    assert!(is_age_in_window(date(2013, 10, 29), today));
    assert!(!is_age_in_window(date(2013, 10, 30), today));
    assert!(!is_age_in_window(date(2013, 10, 31), today));
    assert!(is_age_in_window(date(2013, 1, 1), today));
    assert!(is_age_in_window(date(1905, 10, 30), today));
    assert!(!is_age_in_window(date(1905, 10, 29), today));
    assert!(is_age_in_window(date(1906, 11, 30), today));
    assert!(!is_age_in_window(today, today));
    assert!(!is_age_in_window(date(2030, 1, 1), today));
    assert!(is_age_in_window(date(1990, 6, 15), today));
}

#[test]
fn window_holds_at_the_ends_of_the_range() {
    let first = date(MIN_YEAR, 1, 1);
    let last = date(MAX_YEAR, 12, 31);
    assert!(!is_age_in_window(first, last));
    assert!(!is_age_in_window(last, first));
    let odd = CalendarDate { year: i32::MIN, month: 0, day: 0 };
    let other = CalendarDate { year: i32::MAX, month: u32::MAX, day: u32::MAX };
    assert!(!is_age_in_window(odd, other));
    assert!(!is_age_in_window(other, odd));
}
