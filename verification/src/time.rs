//! Time-of-day types: hours, minutes, seconds, and their composition.

pub mod hour;
pub mod minute;
pub mod second;

pub use self::hour::{Hour, ParseHourError, TryFromHourError};
pub use self::minute::{Minute, ParseMinuteError, TryFromMinuteError};
pub use self::second::{ParseSecondError, Second, TryFromSecondError};

use vstd::prelude::*;

verus! {

use crate::duration::seconds::Seconds;
use crate::text::{push_2_digits, spec_dec2};
use crate::time::hour::spec_parse_hour;
use crate::time::minute::spec_parse_minute;
use crate::time::second::spec_parse_second;
use vstd::string::StrSliceExecFns;
use vstd::string::StringExecFns;

/// A time of day named by hour, minute, and second; every combination of
/// the three valid fields is itself valid.
#[derive(Clone, Copy, Debug, Eq, Hash, Ord, PartialEq, PartialOrd, Structural)]
pub struct Time {
    pub hour: Hour,
    pub minute: Minute,
    pub second: Second,
}

/// Failure of reading a time of day out of `HH:MM:SS` text.
#[derive(Clone, Copy, Debug, Eq, PartialEq, Structural)]
pub enum ParseTimeError {
    InvalidFormat,
    InvalidLength,
    ParseHour(ParseHourError),
    ParseMinute(ParseMinuteError),
    ParseSecond(ParseSecondError),
}

/// A combination of time fields that no time of day has; the three fields
/// bound themselves, so no combination of valid fields raises it.
#[derive(Clone, Copy, Debug, Eq, PartialEq, Structural)]
pub struct InvalidTimeError;

/// What a time of day parsed out of `HH:MM:SS` text must be.
pub open spec fn spec_parse_time(s: Seq<char>) -> Result<Time, ParseTimeError> {
    if s.len() != 8 {
        Err(ParseTimeError::InvalidLength)
    } else {
        match spec_parse_hour(s.subrange(0, 2)) {
            Err(e) => Err(ParseTimeError::ParseHour(e)),
            Ok(hour) => {
                if s[2] != ':' {
                    Err(ParseTimeError::InvalidFormat)
                } else {
                    match spec_parse_minute(s.subrange(3, 5)) {
                        Err(e) => Err(ParseTimeError::ParseMinute(e)),
                        Ok(minute) => {
                            if s[5] != ':' {
                                Err(ParseTimeError::InvalidFormat)
                            } else {
                                match spec_parse_second(s.subrange(6, 8)) {
                                    Err(e) => Err(ParseTimeError::ParseSecond(e)),
                                    Ok(second) => Ok(Time { hour, minute, second }),
                                }
                            }
                        },
                    }
                }
            },
        }
    }
}

impl Time {
    /// All three fields lie in their ranges.
    pub open spec fn inv(&self) -> bool {
        self.hour.inv() && self.minute.inv() && self.second.inv()
    }

    /// Composes a time of day; every combination of valid fields is
    /// valid.
    pub fn from_hms(hour: Hour, minute: Minute, second: Second) -> (r: Self)
        ensures
            r == (Time { hour, minute, second }),
    {
        Self { hour, minute, second }
    }

    /// The last second of the day: 23:59:59.
    pub fn max() -> (r: Self)
        ensures
            r.hour@ == 23 && r.minute@ == 59 && r.second@ == 59 && r.inv(),
    {
        Self { hour: Hour::max(), minute: Minute::max(), second: Second::max() }
    }

    /// The first second of the day: 00:00:00.
    pub fn min() -> (r: Self)
        ensures
            r.hour@ == 0 && r.minute@ == 0 && r.second@ == 0 && r.inv(),
    {
        Self { hour: Hour::min(), minute: Minute::min(), second: Second::min() }
    }

    /// The hour of the day.
    pub fn hour(&self) -> (r: Hour)
        ensures
            r == self.hour,
    {
        self.hour
    }

    /// The minute of the hour.
    pub fn minute(&self) -> (r: Minute)
        ensures
            r == self.minute,
    {
        self.minute
    }

    /// The second of the minute.
    pub fn second(&self) -> (r: Second)
        ensures
            r == self.second,
    {
        self.second
    }

    /// How many seconds of the day have passed at this time.
    pub fn seconds_from_midnight(&self) -> (r: Seconds)
        requires
            self.inv(),
        ensures
            r@ == self.hour@ * 3600 + self.minute@ * 60 + self.second@,
            r@ < 86_400,
    {
        let seconds = crate::engine::seconds_from_midnight_from_time(
            (self.hour.0 as i64, self.minute.0 as i64, self.second.0 as i64),
        );
        Seconds(seconds as u64)
    }

    /// Reads a time of day out of canonical `HH:MM:SS` text.
    pub fn parse(s: &str) -> (r: Result<Self, ParseTimeError>)
        ensures
            r == spec_parse_time(s@),
            r matches Ok(t) ==> t.inv(),
    {
        if s.unicode_len() != 8 {
            return Err(ParseTimeError::InvalidLength);
        }
        let hour = match Hour::parse(s.substring_char(0, 2)) {
            Ok(hour) => hour,
            Err(e) => {
                return Err(ParseTimeError::ParseHour(e));
            },
        };
        if s.get_char(2) != ':' {
            return Err(ParseTimeError::InvalidFormat);
        }
        let minute = match Minute::parse(s.substring_char(3, 5)) {
            Ok(minute) => minute,
            Err(e) => {
                return Err(ParseTimeError::ParseMinute(e));
            },
        };
        if s.get_char(5) != ':' {
            return Err(ParseTimeError::InvalidFormat);
        }
        let second = match Second::parse(s.substring_char(6, 8)) {
            Ok(second) => second,
            Err(e) => {
                return Err(ParseTimeError::ParseSecond(e));
            },
        };
        Ok(Self { hour, minute, second })
    }

    /// The canonical `HH:MM:SS` text form.
    pub fn to_string(&self) -> (r: String)
        requires
            self.inv(),
        ensures
            r@ == spec_dec2(self.hour@) + seq![':'] + spec_dec2(self.minute@) + seq![':']
                + spec_dec2(self.second@),
    {
        let mut out = String::new();
        push_2_digits(&mut out, self.hour.0 as u64);
        proof {
            reveal_strlit(":");
        }
        out.append(":");
        push_2_digits(&mut out, self.minute.0 as u64);
        out.append(":");
        push_2_digits(&mut out, self.second.0 as u64);
        proof {
            assert(out@ =~= spec_dec2(self.hour@) + seq![':'] + spec_dec2(self.minute@)
                + seq![':'] + spec_dec2(self.second@));
        }
        out
    }
}

impl std::str::FromStr for Time {
    type Err = ParseTimeError;

    fn from_str(s: &str) -> Result<Self, Self::Err> {
        Time::parse(s)
    }
}

} // verus!
