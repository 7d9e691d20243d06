//! Calendar days as day numbers, and the staleness of a lab result in
//! thirty-day months.
//!
//! A date is held as the number of its day in the proleptic Gregorian
//! calendar, with January 1 of year 1 as day 1. Reading a date from text and
//! writing it back is left to `chrono`; everything between is integer
//! arithmetic.

use chrono::Datelike;
use chrono::NaiveDate;
use vstd::prelude::*;

verus! {

/// Day number of the first date `chrono` can hold (January 1 of year -262143).
pub const MIN_DAY: i32 = -95_746_129;

/// Day number of the last date `chrono` can hold (December 31 of year 262142).
pub const MAX_DAY: i32 = 95_745_399;

/// Months reported for a marker that was never tested.
pub const NEVER_TESTED_MONTHS: i64 = 999;

/// Length of the month used for staleness, in days.
pub const DAYS_PER_MONTH: i64 = 30;

/// The day number that `NaiveDate::parse_from_str` with the pattern
/// `%Y-%m-%d` reads from a text, or `None` where it rejects the text.
pub uninterp spec fn parsed_day(text: Seq<char>) -> Option<int>;

/// The text that `NaiveDate::format` with the pattern `%Y-%m-%d` writes for
/// the date with a given day number.
pub uninterp spec fn ymd_text(day: int) -> Seq<char>;

/// Calls `NaiveDate::parse_from_str(text, "%Y-%m-%d")` and hands the date
/// back as its day number (`Datelike::num_days_from_ce`); a parse error
/// becomes `None`. What is read depends on the text alone.
#[verifier::external_body]
fn parse_ymd(text: &str) -> (day: Option<i32>)
    ensures
        parsed_day(text@) == match day {
            Some(d) => Some(d as int),
            None => None,
        },
{
    match NaiveDate::parse_from_str(text, "%Y-%m-%d") {
        Ok(date) => Some(date.num_days_from_ce()),
        Err(_) => None,
    }
}

/// Builds the date with `NaiveDate::from_num_days_from_ce_opt`, which holds
/// every day from `MIN_DAY` to `MAX_DAY`, and writes it with
/// `NaiveDate::format(.., "%Y-%m-%d")`. What is written depends on the day
/// number alone.
#[verifier::external_body]
fn format_ymd(day: i32) -> (text: String)
    requires
        MIN_DAY <= day <= MAX_DAY,
    ensures
        text@ == ymd_text(day as int),
{
    NaiveDate::from_num_days_from_ce_opt(day).unwrap().format("%Y-%m-%d").to_string()
}

/// A calendar day between `MIN_DAY` and `MAX_DAY`.
#[derive(Clone, Copy, Debug, PartialEq, Eq)]
pub struct CalendarDate {
    day: i32,
}

impl View for CalendarDate {
    type V = int;

    closed spec fn view(&self) -> int {
        self.day as int
    }
}

/// Whether a day number names a date that can be held.
pub open spec fn day_in_range(day: int) -> bool {
    MIN_DAY <= day <= MAX_DAY
}

/// The date a text stands for: what the parser reads, if it can be held.
pub open spec fn date_of_text(text: Seq<char>) -> Option<int> {
    match parsed_day(text) {
        Some(day) => if day_in_range(day) {
            Some(day)
        } else {
            None
        },
        None => None,
    }
}

/// Whole thirty-day months between two days, truncated toward zero.
pub open spec fn months_between(today: int, tested: int) -> int {
    let days = today - tested;
    if days >= 0 {
        days / 30
    } else {
        -((-days) / 30)
    }
}

/// Months since the last test; a marker never tested counts as 999 months.
pub open spec fn months_since_spec(today: int, last: Option<int>) -> int {
    match last {
        Some(tested) => months_between(today, tested),
        None => 999,
    }
}

impl CalendarDate {
    #[verifier::type_invariant]
    spec fn in_range(self) -> bool {
        MIN_DAY <= self.day <= MAX_DAY
    }

    /// The date with the given day number, if there is one.
    pub fn from_day_number(day: i32) -> (date: Option<CalendarDate>)
        ensures
            match date {
                Some(d) => d@ == day && day_in_range(day as int),
                None => !day_in_range(day as int),
            },
    {
        if MIN_DAY <= day && day <= MAX_DAY {
            Some(CalendarDate { day })
        } else {
            None
        }
    }

    /// The day number of this date.
    pub fn day_number(&self) -> (day: i32)
        ensures
            day == self@,
            day_in_range(day as int),
    {
        proof {
            use_type_invariant(self);
        }
        self.day
    }

    /// Reads a date written as year, month and day (`2024-04-10`).
    pub fn parse(text: &str) -> (date: Option<CalendarDate>)
        ensures
            date_of_text(text@) == match date {
                Some(d) => Some(d@),
                None => None,
            },
    {
        match parse_ymd(text) {
            Some(day) => CalendarDate::from_day_number(day),
            None => None,
        }
    }

    /// Writes the date as year, month and day.
    pub fn format(&self) -> (text: String)
        ensures
            text@ == ymd_text(self@),
    {
        proof {
            use_type_invariant(self);
        }
        format_ymd(self.day)
    }

    /// The date `days` days later, if it can still be held.
    pub fn plus_days(&self, days: u16) -> (later: Option<CalendarDate>)
        ensures
            match later {
                Some(d) => d@ == self@ + days,
                None => self@ + days > MAX_DAY,
            },
    {
        proof {
            use_type_invariant(self);
        }
        let day: i32 = self.day + days as i32;
        CalendarDate::from_day_number(day)
    }
}

/// Months since the last test of a marker, as of `today`.
pub fn months_since(today: CalendarDate, last: Option<CalendarDate>) -> (months: i64)
    ensures
        months == months_since_spec(
            today@,
            match last {
                Some(d) => Some(d@),
                None => None,
            },
        ),
{
    match last {
        Some(tested) => {
            let days: i64 = today.day_number() as i64 - tested.day_number() as i64;
            if days >= 0 {
                days / DAYS_PER_MONTH
            } else {
                -((-days) / DAYS_PER_MONTH)
            }
        },
        None => NEVER_TESTED_MONTHS,
    }
}

} // verus!
