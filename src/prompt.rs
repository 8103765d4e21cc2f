use crate::datetime::{parsed_datetime, DateTime};
use vstd::prelude::*;

verus! {

/// Why an answer to a prompt was not accepted; the prompt is then asked
/// again.
#[derive(Clone, Copy, Debug, PartialEq, Eq, Structural)]
pub enum Rejection {
    EmptyLocation,
    InvalidDate,
    InvalidDuration,
    InvalidRating,
    RatingOutOfRange,
}

impl Rejection {
    /// What the user is told.
    pub fn message(&self) -> (r: &'static str)
        ensures
            r@ == match self {
                Rejection::EmptyLocation => "Location cannot be empty."@,
                Rejection::InvalidDate => "Invalid date format. Please use 'YYYY-MM-DD HH:MM'."@,
                Rejection::InvalidDuration => "Please enter a valid number for duration."@,
                Rejection::InvalidRating => "Please enter a valid number for rating."@,
                Rejection::RatingOutOfRange => "Rating must be between 1 and 10."@,
            },
    {
        let r = match self {
            Rejection::EmptyLocation => "Location cannot be empty.",
            Rejection::InvalidDate => "Invalid date format. Please use 'YYYY-MM-DD HH:MM'.",
            Rejection::InvalidDuration => "Please enter a valid number for duration.",
            Rejection::InvalidRating => "Please enter a valid number for rating.",
            Rejection::RatingOutOfRange => "Rating must be between 1 and 10.",
        };
        proof {
            reveal_strlit("Location cannot be empty.");
            reveal_strlit("Invalid date format. Please use 'YYYY-MM-DD HH:MM'.");
            reveal_strlit("Please enter a valid number for duration.");
            reveal_strlit("Please enter a valid number for rating.");
            reveal_strlit("Rating must be between 1 and 10.");
        }
        r
    }
}

pub open spec fn is_digit(c: char) -> bool {
    '0' <= c <= '9'
}

/// The value of a string of decimal digits.
pub open spec fn digits_value(s: Seq<char>) -> int
    decreases s.len(),
{
    if s.len() == 0 {
        0
    } else {
        digits_value(s.drop_last()) * 10 + (s.last() as int - '0' as int)
    }
}

/// The digits of an unsigned decimal numeral, after an optional `+`.
pub open spec fn numeral_digits(s: Seq<char>) -> Seq<char> {
    if s.len() > 0 && s[0] == '+' {
        s.drop_first()
    } else {
        s
    }
}

/// The value of `s` read as an unsigned decimal numeral that fits in 64
/// bits, if it is one.
pub open spec fn numeral_value(s: Seq<char>) -> Option<u64> {
    let d = numeral_digits(s);
    if d.len() > 0 && (forall|i: int| 0 <= i < d.len() ==> is_digit(#[trigger] d[i]))
        && digits_value(d) <= u64::MAX {
        Some(digits_value(d) as u64)
    } else {
        None
    }
}

/// Relies on std's `str::parse::<u64>`: an optional `+` followed by one or
/// more decimal digits whose value fits, and nothing else, is accepted.
#[verifier::external_body]
pub(crate) fn parse_numeral(text: &str) -> (r: Option<u64>)
    ensures
        r == numeral_value(text@),
{
    text.parse::<u64>().ok()
}

/// The location answered: the (trimmed) answer itself, or the previous
/// location when the answer is empty.
pub fn read_location(answer: &str, previous: &Option<String>) -> (r: Result<String, Rejection>)
    ensures
        answer@.len() > 0 ==> (r matches Ok(l) && l@ == answer@),
        answer@.len() == 0 ==> match previous {
            Some(p) => (r matches Ok(l) && l@ == p@),
            None => r == Err::<String, Rejection>(Rejection::EmptyLocation),
        },
{
    if !answer.is_empty() {
        Ok(answer.to_owned())
    } else {
        match previous {
            Some(p) => Ok(p.clone()),
            None => Err(Rejection::EmptyLocation),
        }
    }
}

/// The date answered, in the canonical format.
pub fn read_date(answer: &str) -> (r: Result<DateTime, Rejection>)
    ensures
        match parsed_datetime(answer@) {
            Some(d) => r == Ok::<DateTime, Rejection>(d) && d.wf(),
            None => r == Err::<DateTime, Rejection>(Rejection::InvalidDate),
        },
{
    match DateTime::parse(answer) {
        Some(d) => Ok(d),
        None => Err(Rejection::InvalidDate),
    }
}

/// The duration answered, in minutes.
pub fn read_duration(answer: &str) -> (r: Result<u16, Rejection>)
    ensures
        match numeral_value(answer@) {
            Some(n) if n <= u16::MAX => r == Ok::<u16, Rejection>(n as u16),
            _ => r == Err::<u16, Rejection>(Rejection::InvalidDuration),
        },
{
    match parse_numeral(answer) {
        Some(n) => {
            if n <= u16::MAX as u64 {
                Ok(n as u16)
            } else {
                Err(Rejection::InvalidDuration)
            }
        },
        None => Err(Rejection::InvalidDuration),
    }
}

/// The rating answered, from 1 to 10.
pub fn read_rating(answer: &str) -> (r: Result<u8, Rejection>)
    ensures
        match numeral_value(answer@) {
            Some(n) if 1 <= n <= 10 => r == Ok::<u8, Rejection>(n as u8),
            Some(n) if n <= u8::MAX => r == Err::<u8, Rejection>(Rejection::RatingOutOfRange),
            _ => r == Err::<u8, Rejection>(Rejection::InvalidRating),
        },
{
    match parse_numeral(answer) {
        Some(n) => {
            if n > u8::MAX as u64 {
                Err(Rejection::InvalidRating)
            } else if n < 1 || n > 10 {
                Err(Rejection::RatingOutOfRange)
            } else {
                Ok(n as u8)
            }
        },
        None => Err(Rejection::InvalidRating),
    }
}

} // verus!
