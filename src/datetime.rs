use chrono::{Datelike, Timelike};
use vstd::prelude::*;

verus! {

/// The text layout of a date and time, as stored and as typed by the user.
pub const CANONICAL_FORMAT: &'static str = "%Y-%m-%d %H:%M";

/// A calendar date and a time of day, to the minute, with no time zone.
#[derive(Clone, Copy, Debug, PartialEq, Eq, Structural)]
pub struct DateTime {
    pub year: i32,
    pub month: u32,
    pub day: u32,
    pub hour: u32,
    pub minute: u32,
}

pub open spec fn is_leap_year(year: int) -> bool {
    (year % 4 == 0 && year % 100 != 0) || year % 400 == 0
}

pub open spec fn days_in_month(year: int, month: int) -> int {
    if month == 2 {
        if is_leap_year(year) {
            29
        } else {
            28
        }
    } else if month == 4 || month == 6 || month == 9 || month == 11 {
        30
    } else {
        31
    }
}

/// The decimal digit for `n` in `0..10`.
pub open spec fn digit(n: int) -> char {
    seq!['0', '1', '2', '3', '4', '5', '6', '7', '8', '9'][n]
}

pub open spec fn two_digits(n: int) -> Seq<char> {
    seq![digit(n / 10), digit(n % 10)]
}

pub open spec fn four_digits(n: int) -> Seq<char> {
    seq![digit(n / 1000), digit((n / 100) % 10), digit((n / 10) % 10), digit(n % 10)]
}

impl DateTime {
    /// A real calendar date and time of day, within the years that the
    /// calendar library represents.
    pub open spec fn wf(&self) -> bool {
        -262143 <= self.year <= 262142
            && 1 <= self.month <= 12
            && 1 <= self.day <= days_in_month(self.year as int, self.month as int)
            && self.hour < 24
            && self.minute < 60
    }

    /// The canonical text `YYYY-MM-DD HH:MM`, for a four-digit year.
    pub open spec fn canonical_text(&self) -> Seq<char> {
        four_digits(self.year as int) + seq!['-'] + two_digits(self.month as int) + seq!['-']
            + two_digits(self.day as int) + seq![' '] + two_digits(self.hour as int) + seq![':']
            + two_digits(self.minute as int)
    }

    /// Reads a date and time in the canonical format.
    pub fn parse(text: &str) -> (r: Option<DateTime>)
        ensures
            r == parsed_datetime(text@),
            r matches Some(d) ==> d.wf(),
    {
        parse_canonical(text)
    }

    /// Builds a date and time from its parts, if they name a real one.
    pub fn from_parts(year: i32, month: u32, day: u32, hour: u32, minute: u32) -> (r: Option<
        DateTime,
    >)
        ensures
            r == (if (DateTime { year, month, day, hour, minute }).wf() {
                Some(DateTime { year, month, day, hour, minute })
            } else {
                None
            }),
    {
        let d = DateTime { year, month, day, hour, minute };
        if year < -262143 || year > 262142 || month < 1 || month > 12 || hour >= 24 || minute
            >= 60 {
            return None;
        }
        let leap = (year % 4 == 0 && year % 100 != 0) || year % 400 == 0;
        let last: u32 = if month == 2 {
            if leap {
                29
            } else {
                28
            }
        } else if month == 4 || month == 6 || month == 9 || month == 11 {
            30
        } else {
            31
        };
        if day < 1 || day > last {
            None
        } else {
            Some(d)
        }
    }

    /// The canonical text of this date and time (`YYYY-MM-DD HH:MM` for
    /// the years 0 to 9999; a signed year outside them).
    pub fn to_canonical_string(&self) -> (r: String)
        requires
            self.wf(),
        ensures
            0 <= self.year <= 9999 ==> r@ == self.canonical_text(),
            0 <= self.year <= 9999 ==> parsed_datetime(r@) == Some(*self),
    {
        match format_canonical(self) {
            Some(t) => t,
            None => {
                proof {
                    assert(false);
                }
                String::new()
            },
        }
    }
}

/// What the calendar library reads from `text` in the canonical format.
pub uninterp spec fn parsed_datetime(text: Seq<char>) -> Option<DateTime>;

/// Relies on chrono's `NaiveDateTime::parse_from_str` with the canonical
/// format; a value it returns is a valid date and time of day.
#[verifier::external_body]
fn parse_canonical(text: &str) -> (r: Option<DateTime>)
    ensures
        r == parsed_datetime(text@),
        r matches Some(d) ==> d.wf(),
{
    let t = chrono::NaiveDateTime::parse_from_str(text, CANONICAL_FORMAT).ok()?;
    Some(DateTime { year: t.year(), month: t.month(), day: t.day(), hour: t.hour(), minute: t.minute() })
}

/// Relies on chrono's `NaiveDate::from_ymd_opt` and `and_hms_opt`, which
/// accept every valid date and time, and on `format` with the canonical
/// format, which writes a year in 0..=9999 as four zero-padded digits and
/// the other fields as two; `parse_from_str` with the same format reads
/// such a text back as the same date and time.
#[verifier::external_body]
fn format_canonical(d: &DateTime) -> (r: Option<String>)
    ensures
        d.wf() ==> r is Some,
        r is Some && 0 <= d.year <= 9999 ==> r.unwrap()@ == d.canonical_text(),
        r is Some && d.wf() && 0 <= d.year <= 9999 ==> parsed_datetime(r.unwrap()@) == Some(*d),
{
    let date = chrono::NaiveDate::from_ymd_opt(d.year, d.month, d.day)?;
    let t = date.and_hms_opt(d.hour, d.minute, 0)?;
    Some(t.format(CANONICAL_FORMAT).to_string())
}

} // verus!
