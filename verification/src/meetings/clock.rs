//! Dates and times of day, as the numbers they are ordered by.

use vstd::prelude::*;

verus! {

/// A calendar date: the number of its day in the proleptic Gregorian
/// calendar, counted from January 1 of the year 1, which is day 1. A later
/// date has a greater number.
#[derive(Debug, Clone, Copy, PartialEq, Eq, Structural)]
pub struct Date {
    pub day: i32,
}

/// A time of day: the whole seconds since midnight, and the nanoseconds since
/// the whole second. A later time has more seconds, or as many and more
/// nanoseconds.
#[derive(Debug, Clone, Copy, PartialEq, Eq, Structural)]
pub struct ClockTime {
    pub seconds: u32,
    pub nanos: u32,
}

/// A time of day on a date, with no time zone.
#[derive(Debug, Clone, Copy, PartialEq, Eq, Structural)]
pub struct Moment {
    pub date: Date,
    pub time: ClockTime,
}

/// The date that `chrono` reads from `text`, if it reads one.
pub uninterp spec fn date_from_str(text: Seq<char>) -> Option<Date>;

/// The time of day that `chrono` reads from `text`, or its message on why it
/// reads none.
pub uninterp spec fn time_from_str(text: Seq<char>) -> Result<ClockTime, Seq<char>>;

/// Calls `chrono::NaiveDate`'s `from_str` on `text` and hands the date back
/// by its day number (`num_days_from_ce`). The contract claims no more than
/// that the outcome is a function of the text.
#[verifier::external_body]
pub(crate) fn parse_date(text: &str) -> (date: Option<Date>)
    ensures
        date == date_from_str(text@),
{
    match text.parse::<chrono::NaiveDate>() {
        Ok(date) => Some(Date { day: chrono::Datelike::num_days_from_ce(&date) }),
        Err(_) => None,
    }
}

/// Calls `chrono::NaiveTime`'s `from_str` on `text` and hands the time back
/// by its seconds and nanoseconds (`num_seconds_from_midnight`,
/// `nanosecond`), or the parse error by its message. The contract claims no
/// more than that the outcome is a function of the text.
#[verifier::external_body]
pub(crate) fn parse_time(text: &str) -> (time: Result<ClockTime, String>)
    ensures
        match time {
            Ok(read) => time_from_str(text@) == Ok::<ClockTime, Seq<char>>(read),
            Err(reason) => time_from_str(text@) == Err::<ClockTime, Seq<char>>(reason@),
        },
{
    match text.parse::<chrono::NaiveTime>() {
        Ok(time) => Ok(
            ClockTime {
                seconds: chrono::Timelike::num_seconds_from_midnight(&time),
                nanos: chrono::Timelike::nanosecond(&time),
            },
        ),
        Err(error) => Err(error.to_string()),
    }
}

impl Date {
    /// This date comes before `other`.
    pub open spec fn is_before(self, other: Date) -> bool {
        self.day < other.day
    }

    /// Whether this date comes before `other`.
    pub fn before(&self, other: &Date) -> (answer: bool)
        ensures
            answer == self.is_before(*other),
    {
        self.day < other.day
    }
}

impl ClockTime {
    /// This time of day comes before `other`.
    pub open spec fn is_before(self, other: ClockTime) -> bool {
        self.seconds < other.seconds || (self.seconds == other.seconds && self.nanos
            < other.nanos)
    }

    /// Whether this time of day comes before `other`.
    pub fn before(&self, other: &ClockTime) -> (answer: bool)
        ensures
            answer == self.is_before(*other),
    {
        self.seconds < other.seconds || (self.seconds == other.seconds && self.nanos
            < other.nanos)
    }
}

impl Moment {
    /// This moment comes before `other`: on an earlier date, or on the same
    /// date at an earlier time.
    pub open spec fn is_before(self, other: Moment) -> bool {
        self.date.is_before(other.date) || (self.date == other.date && self.time.is_before(
            other.time,
        ))
    }

    /// Whether this moment comes before `other`.
    pub fn before(&self, other: &Moment) -> (answer: bool)
        ensures
            answer == self.is_before(*other),
    {
        self.date.before(&other.date) || (self.date.day == other.date.day && self.time.before(
            &other.time,
        ))
    }

    /// Moments are in a line: of two different moments, one comes before the
    /// other, and never both.
    pub proof fn law_moments_are_in_line(self, other: Moment)
        ensures
            self.is_before(other) || other.is_before(self) || self == other,
            !(self.is_before(other) && other.is_before(self)),
            !self.is_before(self),
    {
    }
}

} // verus!
