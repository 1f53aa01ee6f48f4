//! The date-and-time composite: a calendar date paired with a time of
//! day.

use vstd::prelude::*;

verus! {

use crate::date::calendar_date::{CalendarDate, ParseDateError, spec_parse_date};
use crate::time::{ParseTimeError, Time, spec_parse_time};
use vstd::string::StrSliceExecFns;

/// A calendar date together with a time of that day, with no time-zone
/// offset.
#[derive(Clone, Copy, Debug, Eq, Hash, Ord, PartialEq, PartialOrd, Structural)]
pub struct DateTime {
    pub date: CalendarDate,
    pub time: Time,
}

/// Failure of reading a date and time out of `YYYY-MM-DDTHH:MM:SS` text.
#[derive(Clone, Copy, Debug, Eq, PartialEq, Structural)]
pub enum ParseDateTimeError {
    InvalidFormat,
    InvalidLength,
    ParseDate(ParseDateError),
    ParseTime(ParseTimeError),
}

/// What a date and time parsed out of `YYYY-MM-DDTHH:MM:SS` text must
/// be.
pub open spec fn spec_parse_date_time(s: Seq<char>) -> Result<DateTime, ParseDateTimeError> {
    if s.len() != 19 {
        Err(ParseDateTimeError::InvalidLength)
    } else {
        match spec_parse_date(s.subrange(0, 10)) {
            Err(e) => Err(ParseDateTimeError::ParseDate(e)),
            Ok(date) => {
                if s[10] != 'T' {
                    Err(ParseDateTimeError::InvalidFormat)
                } else {
                    match spec_parse_time(s.subrange(11, 19)) {
                        Err(e) => Err(ParseDateTimeError::ParseTime(e)),
                        Ok(time) => Ok(DateTime { date, time }),
                    }
                }
            },
        }
    }
}

impl DateTime {
    /// Both halves lie in their ranges.
    pub open spec fn inv(&self) -> bool {
        self.date.inv() && self.time.inv()
    }

    /// Pairs a date with a time of that day; every pairing is valid.
    pub fn new(date: CalendarDate, time: Time) -> (r: Self)
        ensures
            r == (DateTime { date, time }),
    {
        Self { date, time }
    }

    /// The calendar date.
    pub fn date(&self) -> (r: CalendarDate)
        ensures
            r == self.date,
    {
        self.date
    }

    /// The time of day.
    pub fn time(&self) -> (r: Time)
        ensures
            r == self.time,
    {
        self.time
    }

    /// Reads a date and time out of canonical `YYYY-MM-DDTHH:MM:SS`
    /// text.
    pub fn parse(s: &str) -> (r: Result<Self, ParseDateTimeError>)
        ensures
            r == spec_parse_date_time(s@),
            r matches Ok(dt) ==> dt.inv(),
    {
        if s.unicode_len() != 19 {
            return Err(ParseDateTimeError::InvalidLength);
        }
        let date = match CalendarDate::parse(s.substring_char(0, 10)) {
            Ok(date) => date,
            Err(e) => {
                return Err(ParseDateTimeError::ParseDate(e));
            },
        };
        if s.get_char(10) != 'T' {
            return Err(ParseDateTimeError::InvalidFormat);
        }
        let time = match Time::parse(s.substring_char(11, 19)) {
            Ok(time) => time,
            Err(e) => {
                return Err(ParseDateTimeError::ParseTime(e));
            },
        };
        Ok(Self { date, time })
    }
}

impl std::str::FromStr for DateTime {
    type Err = ParseDateTimeError;

    fn from_str(s: &str) -> Result<Self, Self::Err> {
        DateTime::parse(s)
    }
}

} // verus!
