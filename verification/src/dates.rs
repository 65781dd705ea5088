use vstd::prelude::*;
use crate::errors::{AppError, draft_error};

verus! {

/// A calendar date as year, month (1 to 12) and day of the month.
#[derive(Debug, Clone, Copy, PartialEq, Eq, Structural)]
pub struct CalendarDate {
    pub year: i32,
    pub month: u8,
    pub day: u8,
}

/// Why a date could not be read, with the parser's own explanation.
#[derive(Debug, Clone, PartialEq, Eq)]
pub enum DateError {
    /// The date format description itself was refused.
    InvalidFormat(String),
    /// The text is not a date in the format.
    InvalidDate(String),
}

/// What the `time` crate makes of a text read as `[year]-[month]-[day]`:
/// the year, month and day, or whether the format description failed and the
/// error's text.
pub uninterp spec fn ymd_date(text: Seq<char>) -> Result<(i32, u8, u8), (bool, Seq<char>)>;

/// A date reading as year, month and day, or the kind and text of its error.
pub open spec fn date_outcome(r: Result<CalendarDate, DateError>) -> Result<(i32, u8, u8), (bool, Seq<char>)> {
    match r {
        Ok(d) => Ok((d.year, d.month, d.day)),
        Err(DateError::InvalidFormat(m)) => Err((true, m@)),
        Err(DateError::InvalidDate(m)) => Err((false, m@)),
    }
}

/// `time::format_description::parse("[year]-[month]-[day]")`, then
/// `time::Date::parse` of the text with that description: the result is a
/// function of the text alone (the description is fixed), named `ymd_date`.
/// Nothing more is stated of which texts are dates.
#[verifier::external_body]
fn parse_ymd(text: &str) -> (r: Result<CalendarDate, DateError>)
    ensures
        date_outcome(r) == ymd_date(text@),
{
    match time::format_description::parse("[year]-[month]-[day]") {
        Err(e) => Err(DateError::InvalidFormat(e.to_string())),
        Ok(items) => match time::Date::parse(text, &items) {
            Ok(d) => Ok(CalendarDate { year: d.year(), month: d.month() as u8, day: d.day() }),
            Err(e) => Err(DateError::InvalidDate(e.to_string())),
        },
    }
}

/// The message for a date that could not be read: what went wrong, then the
/// parser's explanation.
pub open spec fn date_error_text(format_failed: bool, msg: Seq<char>) -> Seq<char> {
    if format_failed {
        "Invalid date format: "@ + msg
    } else {
        "Invalid date: "@ + msg
    }
}

/// The form's answer for a date the user typed.
pub open spec fn date_field(outcome: Result<(i32, u8, u8), (bool, Seq<char>)>, r: Result<CalendarDate, AppError>) -> bool {
    match outcome {
        Ok((y, m, d)) => r == Ok::<CalendarDate, AppError>(CalendarDate { year: y, month: m, day: d }),
        Err((k, msg)) => draft_error(r, date_error_text(k, msg)),
    }
}

/// Turns a date reading into the form's answer.
pub fn date_field_result(reading: Result<CalendarDate, DateError>) -> (r: Result<CalendarDate, AppError>)
    ensures
        date_field(date_outcome(reading), r),
{
    match reading {
        Ok(d) => Ok(d),
        Err(DateError::InvalidFormat(m)) => {
            let mut t = String::new();
            t.append("Invalid date format: ");
            t.append(m.as_str());
            Err(AppError::InvalidDraft(t))
        },
        Err(DateError::InvalidDate(m)) => {
            let mut t = String::new();
            t.append("Invalid date: ");
            t.append(m.as_str());
            Err(AppError::InvalidDraft(t))
        },
    }
}

/// Reads a date written as `YYYY-MM-DD` in a form.
pub fn parse_date(date: &str) -> (r: Result<CalendarDate, AppError>)
    ensures
        date_field(ymd_date(date@), r),
{
    date_field_result(parse_ymd(date))
}

} // verus!
