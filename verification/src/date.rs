//! Calendar date types: years, months, days, and their compositions.

pub mod calendar_date;
pub mod day_of_month;
pub mod day_of_year;
pub mod month;
pub mod ordinal_date;
pub mod year;
pub mod year_month;

pub use self::calendar_date::{CalendarDate, Date, InvalidDateError, ParseDateError};
pub use self::day_of_month::{DayOfMonth, ParseDayOfMonthError, TryFromDayOfMonthError};
pub use self::day_of_year::{DayOfYear, ParseDayOfYearError, TryFromDayOfYearError};
pub use self::month::{Month, ParseMonthError, TryFromMonthError};
pub use self::ordinal_date::{InvalidOrdinalDateError, OrdinalDate, ParseOrdinalDateError};
pub use self::year::{ParseYearError, TryFromYearError, Year};
pub use self::year_month::{ParseYearMonthError, YearMonth};
