//! Calendar dates as year, month and day, and the calendar arithmetic that
//! `chrono` performs on them.

use vstd::prelude::*;

verus! {

/// The first year that `chrono::NaiveDate` represents.
pub const MIN_YEAR: i32 = -262143;

/// The last year that `chrono::NaiveDate` represents.
pub const MAX_YEAR: i32 = 262142;

/// Whether `year` is a leap year of the proleptic Gregorian calendar.
pub open spec fn is_leap_year(year: int) -> bool {
    year % 4 == 0 && (year % 100 != 0 || year % 400 == 0)
}

/// The number of days of `month` in `year`; 0 where `month` is no month.
pub open spec fn days_in_month(year: int, month: int) -> int {
    if month == 2 {
        if is_leap_year(year) { 29 } else { 28 }
    } else if month == 4 || month == 6 || month == 9 || month == 11 {
        30
    } else if 1 <= month <= 12 {
        31
    } else {
        0
    }
}

/// Whether year, month and day name a day of the calendar within the years
/// that `chrono` represents.
pub open spec fn is_calendar_day(year: int, month: int, day: int) -> bool {
    &&& MIN_YEAR <= year <= MAX_YEAR
    &&& 1 <= month <= 12
    &&& 1 <= day <= days_in_month(year, month)
}

/// What `chrono::NaiveDate::parse_from_str` with the format `%Y-%m-%d` makes
/// of a text: year, month and day, or nothing where it rejects the text.
pub uninterp spec fn parsed_iso_date(text: Seq<char>) -> Option<(i32, u32, u32)>;

/// The text that `chrono` formats a date to under `%Y-%m-%d`.
pub uninterp spec fn iso_date_text(year: i32, month: u32, day: u32) -> Seq<char>;

/// The weekday of a date, counted from Sunday as 0, as `chrono` computes it.
pub uninterp spec fn weekday_from_sunday(year: i32, month: u32, day: u32) -> u32;

/// A calendar date.
#[derive(Clone, Copy, Debug, PartialEq, Eq, Structural)]
pub struct Date {
    pub year: i32,
    pub month: u32,
    pub day: u32,
}

/// The date that a triple of year, month and day stands for.
pub open spec fn date_of(parts: Option<(i32, u32, u32)>) -> Option<Date> {
    match parts {
        Some((year, month, day)) => Some(Date { year, month, day }),
        None => None,
    }
}

impl Date {
    /// The date is a day of the calendar.
    pub open spec fn wf(self) -> bool {
        is_calendar_day(self.year as int, self.month as int, self.day as int)
    }

    /// `self` is a later day than `other`.
    pub open spec fn later_than(self, other: Date) -> bool {
        self.year > other.year || (self.year == other.year && (self.month > other.month || (
        self.month == other.month && self.day > other.day)))
    }

    /// A bound on how many later days the calendar holds: it falls strictly
    /// from a date to any later one.
    pub open spec fn days_ahead(self) -> int {
        ((MAX_YEAR - self.year) * 12 + (12 - self.month)) * 32 + (31 - self.day)
    }

    /// The date as ISO text.
    pub open spec fn iso_text(self) -> Seq<char> {
        iso_date_text(self.year, self.month, self.day)
    }

    /// The day after: the next day of the month, else the first of the next
    /// month, else the first of the next year; nothing after the last day
    /// of the calendar, nor for what is no day of it.
    pub open spec fn next_day(self) -> Option<Date> {
        if !self.wf() {
            None
        } else if self.day < days_in_month(self.year as int, self.month as int) {
            Some(Date { year: self.year, month: self.month, day: (self.day + 1) as u32 })
        } else if self.month < 12 {
            Some(Date { year: self.year, month: (self.month + 1) as u32, day: 1 })
        } else if self.year < MAX_YEAR {
            Some(Date { year: (self.year + 1) as i32, month: 1, day: 1 })
        } else {
            None
        }
    }

    /// The date `days` days on: the day after, taken `days` times; nothing
    /// where the calendar ends before.
    pub open spec fn plus_days(self, days: nat) -> Option<Date>
        decreases days,
    {
        if days == 0 {
            if self.wf() { Some(self) } else { None }
        } else {
            match self.next_day() {
                Some(next) => next.plus_days((days - 1) as nat),
                None => None,
            }
        }
    }

    /// The weekday, counted from Sunday as 0.
    pub open spec fn weekday(self) -> u32 {
        weekday_from_sunday(self.year, self.month, self.day)
    }

    /// The date that an ISO text names, if it names one.
    pub open spec fn parsed(text: Seq<char>) -> Option<Date> {
        date_of(parsed_iso_date(text))
    }

    /// The day after a day is a day of the calendar, and a later one.
    pub proof fn next_day_is_later(self)
        ensures
            self.next_day() matches Some(next) ==> next.wf() && next.later_than(self),
    {
    }

    /// A date some days on is a day of the calendar, and a later one
    /// unless no day was added.
    pub proof fn plus_days_is_later(self, days: nat)
        ensures
            self.plus_days(days) matches Some(then) ==> then.wf() && (days > 0
                ==> then.later_than(self)) && (days == 0 ==> then == self),
        decreases days,
    {
        if days > 0 {
            self.next_day_is_later();
            match self.next_day() {
                Some(next) => {
                    next.plus_days_is_later((days - 1) as nat);
                },
                None => {},
            }
        }
    }

    /// A later date lies strictly nearer to the end of the calendar.
    pub proof fn later_is_nearer_the_end(self, other: Date)
        requires
            self.wf(),
            other.wf(),
            other.later_than(self),
        ensures
            0 <= other.days_ahead() < self.days_ahead(),
    {
    }

    /// Whether `self` is a later day than `other`.
    pub fn is_after(&self, other: &Date) -> (result: bool)
        ensures
            result == self.later_than(*other),
    {
        self.year > other.year || (self.year == other.year && (self.month > other.month || (
        self.month == other.month && self.day > other.day)))
    }

    /// The date of a year, a month and a day, where the calendar holds it.
    pub fn from_ymd(year: i32, month: u32, day: u32) -> (result: Option<Date>)
        ensures
            result == (if is_calendar_day(year as int, month as int, day as int) {
                Some(Date { year, month, day })
            } else {
                None
            }),
    {
        if Date::exists_with_chrono(year, month, day) {
            Some(Date { year, month, day })
        } else {
            None
        }
    }

    /// The date that an ISO text names, if it names one.
    pub fn from_iso(text: &str) -> (result: Option<Date>)
        ensures
            result == Date::parsed(text@),
            result matches Some(date) ==> date.wf(),
    {
        Date::parse_with_chrono(text)
    }

    /// The date as ISO text; nothing for what is no day of the calendar.
    pub fn to_iso(&self) -> (result: Option<String>)
        ensures
            self.wf() ==> (result matches Some(text) && text@ == self.iso_text()),
            !self.wf() ==> result is None,
    {
        if Date::exists_with_chrono(self.year, self.month, self.day) {
            Some(self.format_with_chrono())
        } else {
            None
        }
    }

    /// The day after, if the calendar holds it.
    pub fn following(&self) -> (result: Option<Date>)
        ensures
            result == self.next_day(),
    {
        if Date::exists_with_chrono(self.year, self.month, self.day) {
            self.succ_with_chrono()
        } else {
            None
        }
    }

    /// The date `days` days on, if the calendar holds it.
    pub fn days_on(&self, days: u64) -> (result: Option<Date>)
        ensures
            result == self.plus_days(days as nat),
    {
        if Date::exists_with_chrono(self.year, self.month, self.day) {
            self.add_days_with_chrono(days)
        } else {
            None
        }
    }

    /// The weekday, counted from Sunday as 0; nothing for what is no day of
    /// the calendar.
    pub fn day_of_week(&self) -> (result: Option<u32>)
        ensures
            self.wf() ==> result == Some(self.weekday()),
            !self.wf() ==> result is None,
            result matches Some(w) ==> w < 7,
    {
        if Date::exists_with_chrono(self.year, self.month, self.day) {
            Some(self.weekday_with_chrono())
        } else {
            None
        }
    }

    /// Reads a date from ISO text with `chrono::NaiveDate::parse_from_str`
    /// and the format `%Y-%m-%d`. Trusted: the result is what `chrono`
    /// parses, and every date it parses is a day of the calendar.
    #[verifier::external_body]
    pub(crate) fn parse_with_chrono(text: &str) -> (result: Option<Date>)
        ensures
            result == date_of(parsed_iso_date(text@)),
            result matches Some(date) ==> date.wf(),
    {
        match chrono::NaiveDate::parse_from_str(text, "%Y-%m-%d") {
            Ok(d) => Some(
                Date {
                    year: chrono::Datelike::year(&d),
                    month: chrono::Datelike::month(&d),
                    day: chrono::Datelike::day(&d),
                },
            ),
            Err(_) => None,
        }
    }

    /// Formats the date with `chrono::NaiveDate::format` and `%Y-%m-%d`.
    /// Trusted: the result is the text that `chrono` writes for this date.
    #[verifier::external_body]
    pub(crate) fn format_with_chrono(&self) -> (result: String)
        requires
            self.wf(),
        ensures
            result@ == iso_date_text(self.year, self.month, self.day),
    {
        match chrono::NaiveDate::from_ymd_opt(self.year, self.month, self.day) {
            Some(d) => d.format("%Y-%m-%d").to_string(),
            None => String::new(),
        }
    }

    /// Adds whole days with `chrono::NaiveDate::checked_add_signed`.
    /// Trusted: the result is the date that many days on, and nothing
    /// where the calendar that `chrono` represents ends before.
    #[verifier::external_body]
    pub(crate) fn add_days_with_chrono(&self, days: u64) -> (result: Option<Date>)
        requires
            self.wf(),
        ensures
            result == self.plus_days(days as nat),
    {
        let start = chrono::NaiveDate::from_ymd_opt(self.year, self.month, self.day)?;
        let span = chrono::TimeDelta::try_days(i64::try_from(days).ok()?)?;
        let d = start.checked_add_signed(span)?;
        Some(
            Date {
                year: chrono::Datelike::year(&d),
                month: chrono::Datelike::month(&d),
                day: chrono::Datelike::day(&d),
            },
        )
    }

    /// The next day by `chrono::NaiveDate::succ_opt`. Trusted: the result is
    /// the day after, and nothing after the last date that `chrono`
    /// represents.
    #[verifier::external_body]
    pub(crate) fn succ_with_chrono(&self) -> (result: Option<Date>)
        requires
            self.wf(),
        ensures
            result == self.next_day(),
    {
        let d = chrono::NaiveDate::from_ymd_opt(self.year, self.month, self.day)?.succ_opt()?;
        Some(
            Date {
                year: chrono::Datelike::year(&d),
                month: chrono::Datelike::month(&d),
                day: chrono::Datelike::day(&d),
            },
        )
    }

    /// The weekday by `chrono`'s `weekday` and `num_days_from_sunday`.
    /// Trusted: the result is the number that `chrono` gives, Sunday being 0
    /// and Saturday 6.
    #[verifier::external_body]
    pub(crate) fn weekday_with_chrono(&self) -> (result: u32)
        requires
            self.wf(),
        ensures
            result == weekday_from_sunday(self.year, self.month, self.day),
            result < 7,
    {
        match chrono::NaiveDate::from_ymd_opt(self.year, self.month, self.day) {
            Some(d) => chrono::Datelike::weekday(&d).num_days_from_sunday(),
            None => 0,
        }
    }

    /// Whether year, month and day name a day of the calendar, by
    /// `chrono::NaiveDate::from_ymd_opt`. Trusted: `chrono` accepts exactly
    /// the days that exist, in the years it represents.
    #[verifier::external_body]
    pub(crate) fn exists_with_chrono(year: i32, month: u32, day: u32) -> (result: bool)
        ensures
            result == is_calendar_day(year as int, month as int, day as int),
    {
        chrono::NaiveDate::from_ymd_opt(year, month, day).is_some()
    }
}

} // verus!
