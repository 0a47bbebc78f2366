//! Calendar dates of the proleptic Gregorian calendar, and ages in years.
//!
//! A date is held as its year, month and day. Reading and writing dates as
//! text, and reading the clock, is left to `chrono`.

use vstd::prelude::*;

verus! {

/// The earliest year of which `chrono::NaiveDate` holds dates.
pub const MIN_YEAR: i32 = -262_143;

/// The latest year of which `chrono::NaiveDate` holds dates.
pub const MAX_YEAR: i32 = 262_142;

/// The youngest age, in years, at which a profile is accepted.
pub const MIN_AGE: i64 = 13;

/// The oldest age, in years, at which a profile is accepted.
pub const MAX_AGE: i64 = 120;

/// Year, month and day of the date that `chrono::NaiveDate::parse_from_str`
/// reads from `text` under `format`, if it accepts the text.
pub uninterp spec fn parsed_date(text: Seq<char>, format: Seq<char>) -> Option<(int, int, int)>;

/// The text that `chrono` writes for a date under the format `%Y-%m-%d`.
pub uninterp spec fn iso_text(year: int, month: int, day: int) -> Seq<char>;

/// Whether a year has a 29 February.
pub open spec fn leap_year(year: int) -> bool {
    year % 4 == 0 && (year % 100 != 0 || year % 400 == 0)
}

/// The number of days of a month.
pub open spec fn days_in_month(year: int, month: int) -> int {
    if month == 2 {
        if leap_year(year) {
            29
        } else {
            28
        }
    } else if month == 4 || month == 6 || month == 9 || month == 11 {
        30
    } else {
        31
    }
}

/// Whether year, month and day name a date of the calendar, in a year of
/// which `chrono` holds dates.
pub open spec fn calendar_date(year: int, month: int, day: int) -> bool {
    &&& MIN_YEAR <= year <= MAX_YEAR
    &&& 1 <= month <= 12
    &&& 1 <= day <= days_in_month(year, month)
}

/// `chrono::NaiveDate::parse_from_str(text, format)`, with the date handed back
/// as its `year()`, `month()` and `day()`. A date that `chrono` holds is a
/// date of the calendar between its `MIN` and `MAX`.
#[verifier::external_body]
fn parse_ymd(text: &str, format: &str) -> (r: Option<(i32, u32, u32)>)
    ensures
        r is Some <==> parsed_date(text@, format@) is Some,
        r matches Some(d) ==> parsed_date(text@, format@) == Some(
            (d.0 as int, d.1 as int, d.2 as int),
        ) && calendar_date(d.0 as int, d.1 as int, d.2 as int),
{
    match chrono::NaiveDate::parse_from_str(text, format) {
        Ok(d) => Some((chrono::Datelike::year(&d), chrono::Datelike::month(&d), chrono::Datelike::day(&d))),
        Err(_) => None,
    }
}

/// `chrono::NaiveDate::from_ymd_opt(year, month, day)` written with
/// `format("%Y-%m-%d")`.
#[verifier::external_body]
fn format_ymd(year: i32, month: u32, day: u32) -> (r: String)
    requires
        calendar_date(year as int, month as int, day as int),
    ensures
        r@ == iso_text(year as int, month as int, day as int),
{
    match chrono::NaiveDate::from_ymd_opt(year, month, day) {
        Some(d) => d.format("%Y-%m-%d").to_string(),
        None => String::new(),
    }
}

/// `chrono::Utc::now().date_naive()` as year, month and day. The clock decides
/// which; whatever it says, the date is one that `chrono` holds. (`chrono`
/// gives up on a clock that is set before 1970.)
#[verifier::external_body]
fn clock_ymd() -> (r: (i32, u32, u32))
    ensures
        calendar_date(r.0 as int, r.1 as int, r.2 as int),
{
    let d = chrono::Utc::now().date_naive();
    (chrono::Datelike::year(&d), chrono::Datelike::month(&d), chrono::Datelike::day(&d))
}

/// A calendar date.
#[derive(Clone, Copy, Debug, PartialEq, Eq, Structural, Hash)]
pub struct CalendarDate {
    pub year: i32,
    pub month: u32,
    pub day: u32,
}

/// The date with the given year, month and day.
pub open spec fn date_of(ymd: (int, int, int)) -> CalendarDate {
    CalendarDate { year: ymd.0 as i32, month: ymd.1 as u32, day: ymd.2 as u32 }
}

/// The date that `text` reads as under `format`, if it reads as one.
pub open spec fn parsed(text: Seq<char>, format: Seq<char>) -> Option<CalendarDate> {
    match parsed_date(text, format) {
        Some(ymd) => Some(date_of(ymd)),
        None => None,
    }
}

/// The date as `YYYY-MM-DD`.
pub open spec fn iso(date: CalendarDate) -> Seq<char> {
    iso_text(date.year as int, date.month as int, date.day as int)
}

fn is_leap_year(year: i32) -> (r: bool)
    requires
        MIN_YEAR <= year <= MAX_YEAR,
    ensures
        r == leap_year(year as int),
{
    let shifted: i32 = year + 262_400;
    shifted % 4 == 0 && (shifted % 100 != 0 || shifted % 400 == 0)
}

impl CalendarDate {
    /// A date is well formed when it is a date of the calendar that `chrono`
    /// can hold.
    pub open spec fn wf(self) -> bool {
        calendar_date(self.year as int, self.month as int, self.day as int)
    }

    /// The date with the given year, month and day, if there is one.
    pub fn from_ymd(year: i32, month: u32, day: u32) -> (r: Option<CalendarDate>)
        ensures
            r == if calendar_date(year as int, month as int, day as int) {
                Some(CalendarDate { year, month, day })
            } else {
                None
            },
    {
        if year < MIN_YEAR || year > MAX_YEAR || month < 1 || month > 12 || day < 1 {
            return None;
        }
        let last: u32 = if month == 2 {
            if is_leap_year(year) {
                29
            } else {
                28
            }
        } else if month == 4 || month == 6 || month == 9 || month == 11 {
            30
        } else {
            31
        };
        if day <= last {
            Some(CalendarDate { year, month, day })
        } else {
            None
        }
    }

    /// Reads a date from `text` under a `chrono` format such as `%d/%m/%Y`.
    pub fn parse(text: &str, format: &str) -> (r: Option<CalendarDate>)
        ensures
            r == parsed(text@, format@),
            r matches Some(d) ==> d.wf(),
    {
        match parse_ymd(text, format) {
            Some((year, month, day)) => Some(CalendarDate { year, month, day }),
            None => None,
        }
    }

    /// Today's date by the system clock, in UTC.
    pub fn today() -> (r: CalendarDate)
        ensures
            r.wf(),
    {
        let (year, month, day) = clock_ymd();
        CalendarDate { year, month, day }
    }

    /// The date as `YYYY-MM-DD`.
    pub fn to_iso(&self) -> (r: String)
        requires
            self.wf(),
        ensures
            r@ == iso(*self),
    {
        format_ymd(self.year, self.month, self.day)
    }
}

/// Whether, on the day `today`, this year's birthday of someone born on
/// `birth` is still to come.
pub open spec fn before_birthday(birth: CalendarDate, today: CalendarDate) -> bool {
    today.month < birth.month || (today.month == birth.month && today.day < birth.day)
}

/// Age in whole years on the day `today` of someone born on `birth`: the
/// years between, less one where this year's birthday is still to come.
pub open spec fn whole_years(birth: CalendarDate, today: CalendarDate) -> int {
    today.year - birth.year - if before_birthday(birth, today) {
        1int
    } else {
        0int
    }
}

/// A birth date is in the accepted window when the age on the day `today`
/// is at least 13 and at most 120 whole years.
pub open spec fn age_in_window(birth: CalendarDate, today: CalendarDate) -> bool {
    MIN_AGE <= whole_years(birth, today) <= MAX_AGE
}

/// Age in whole years on the day `today` of someone born on `birth`.
pub fn years_between(birth: CalendarDate, today: CalendarDate) -> (r: i64)
    ensures
        r == whole_years(birth, today),
{
    let years: i64 = today.year as i64 - birth.year as i64;
    if today.month < birth.month || (today.month == birth.month && today.day < birth.day) {
        years - 1
    } else {
        years
    }
}

/// Whether `birth` lies in the accepted window before `today`.
pub fn is_age_in_window(birth: CalendarDate, today: CalendarDate) -> (r: bool)
    ensures
        r == age_in_window(birth, today),
{
    let age: i64 = years_between(birth, today);
    MIN_AGE <= age && age <= MAX_AGE
}

/// Age in whole years on the day `today` of someone born on `birth`.
pub fn age_years_on(birth: CalendarDate, today: CalendarDate) -> (r: i32)
    requires
        birth.wf(),
        today.wf(),
    ensures
        r == whole_years(birth, today),
{
    years_between(birth, today) as i32
}

/// Someone is accepted from the thirteenth birthday on, and up to the day
/// before the hundred-and-twenty-first.
pub proof fn lemma_window_by_birthdays(birth: CalendarDate, today: CalendarDate)
    ensures
        age_in_window(birth, today) <==> !comes_before(today, birth.year + 13, birth)
            && comes_before(today, birth.year + 121, birth),
{
}

/// Whether `today` comes before the month and day of `birth` in `year`.
pub open spec fn comes_before(today: CalendarDate, year: int, birth: CalendarDate) -> bool {
    today.year < year || (today.year == year && before_birthday(birth, today))
}

} // verus!
