//! Calendar and clock value types over the proleptic Gregorian calendar.
//!
//! The crate offers strictly range-validated scalar types (`Year`, `Month`,
//! `DayOfMonth`, `DayOfYear`, `Hour`, `Minute`, `Second`, `Days`, `Seconds`,
//! `Instant`), composite date and time types built from them, and the
//! conversion arithmetic that relates calendar dates, ordinal dates, linear
//! day counts and absolute second counts for every day between 1970-01-01
//! and 9999-12-31.

pub mod date;
pub mod date_time;
pub mod duration;
pub mod engine;
pub mod instant;
pub mod text;
pub mod time;

pub use date::calendar_date::{CalendarDate, Date, InvalidDateError, ParseDateError};
pub use date::day_of_month::{DayOfMonth, ParseDayOfMonthError, TryFromDayOfMonthError};
pub use date::day_of_year::{DayOfYear, ParseDayOfYearError, TryFromDayOfYearError};
pub use date::month::{Month, ParseMonthError, TryFromMonthError};
pub use date::ordinal_date::{InvalidOrdinalDateError, OrdinalDate, ParseOrdinalDateError};
pub use date::year::{ParseYearError, TryFromYearError, Year};
pub use date::year_month::{ParseYearMonthError, YearMonth};
pub use duration::days::{Days, TryFromDaysError};
pub use date_time::{DateTime, ParseDateTimeError};
pub use duration::seconds::Seconds;
pub use instant::{Instant, ParseInstantError, TryFromInstantError};
pub use time::{InvalidTimeError, ParseTimeError, Time};
pub use time::hour::{Hour, ParseHourError, TryFromHourError};
pub use time::minute::{Minute, ParseMinuteError, TryFromMinuteError};
pub use time::second::{ParseSecondError, Second, TryFromSecondError};
pub use engine::{
    date_from_ordinal_date, date_time_string_from_seconds_from_unix_epoch,
    days_from_ce_from_ordinal_date, days_from_ce_from_year, is_leap_year, ordinal_date_from_date,
    ordinal_date_from_days_from_ce, seconds_from_midnight_from_time,
    seconds_from_unix_epoch_from_date_time_string, time_from_seconds_from_midnight,
    TimestampError,
};
