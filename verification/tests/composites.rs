use std::str::FromStr;

use limited_date_time::{
    seconds_from_unix_epoch_from_date_time_string, DateTime, DayOfYear, Instant,
    InvalidOrdinalDateError, Month, OrdinalDate, ParseDateTimeError, ParseInstantError,
    ParseOrdinalDateError, ParseYearMonthError, Year, YearMonth,
};

#[test]
fn year_month_new_and_getters() {
    let year = Year::try_from(2021_u16).unwrap();
    let month = Month::february();
    let year_month = YearMonth::new(year, month);
    assert_eq!(year_month.year(), year);
    assert_eq!(year_month.month(), month);
    assert_eq!(year_month.to_string(), "2021-02");
}

#[test]
fn year_month_str_conversion_test() {
    type E = ParseYearMonthError;
    let f = |s: &str| YearMonth::from_str(s);
    assert_eq!(
        f("2021-01").map(|ym| ym.to_string()),
        Ok("2021-01".to_string())
    );
    assert!(matches!(f("2021-1"), Err(E::InvalidLength)));
    assert!(matches!(f("2021+01"), Err(E::InvalidFormat)));
    assert!(matches!(f("+001-01"), Err(E::ParseYear(_))));
    assert!(matches!(f("2021-13"), Err(E::ParseMonth(_))));
}

#[test]
fn year_month_first_and_last_day() {
    let february_leap = YearMonth::from_str("2000-02").unwrap();
    assert_eq!(u8::from(february_leap.first_day_of_month()), 1_u8);
    assert_eq!(u8::from(february_leap.last_day_of_month()), 29_u8);
    let february_common = YearMonth::from_str("2001-02").unwrap();
    assert_eq!(u8::from(february_common.last_day_of_month()), 28_u8);
}

#[test]
fn year_month_pred_test() {
    let f = |s: &str| YearMonth::from_str(s).unwrap();
    assert_eq!(f("2021-02").pred(), Some(f("2021-01")));
    assert_eq!(f("2021-01").pred(), Some(f("2020-12")));
    assert_eq!(f("1970-01").pred(), None);
}

#[test]
fn year_month_succ_test() {
    let f = |s: &str| YearMonth::from_str(s).unwrap();
    assert_eq!(f("2021-11").succ(), Some(f("2021-12")));
    assert_eq!(f("2021-12").succ(), Some(f("2022-01")));
    assert_eq!(f("9999-12").succ(), None);
}

#[test]
fn year_month_of_year_test() {
    let year = Year::try_from(2021_u16).unwrap();
    assert_eq!(
        YearMonth::first_year_month_of_year(year),
        YearMonth::from_str("2021-01").unwrap()
    );
    assert_eq!(
        YearMonth::last_year_month_of_year(year),
        YearMonth::from_str("2021-12").unwrap()
    );
}

#[test]
fn ordinal_date_new_test() {
    let common_year = Year::try_from(2021_u16).unwrap();
    let leap_year = Year::try_from(2000_u16).unwrap();
    let day_365 = DayOfYear::try_from(365_u16).unwrap();
    let day_366 = DayOfYear::try_from(366_u16).unwrap();
    assert!(OrdinalDate::new(common_year, day_365).is_ok());
    assert_eq!(
        OrdinalDate::new(common_year, day_366),
        Err(InvalidOrdinalDateError)
    );
    assert!(OrdinalDate::new(leap_year, day_366).is_ok());
}

#[test]
fn ordinal_date_getters() {
    let ordinal_date = OrdinalDate::from_str("2021-003").unwrap();
    assert_eq!(ordinal_date.year(), Year::try_from(2021_u16).unwrap());
    assert_eq!(
        ordinal_date.day_of_year(),
        DayOfYear::try_from(3_u16).unwrap()
    );
}

#[test]
fn ordinal_date_str_conversion_test() {
    type E = ParseOrdinalDateError;
    let f = |s: &str| OrdinalDate::from_str(s);
    assert_eq!(
        f("2021-365").map(|o| o.to_string()),
        Ok("2021-365".to_string())
    );
    assert!(matches!(f("2021-36"), Err(E::InvalidLength)));
    assert!(matches!(f("2021+365"), Err(E::InvalidFormat)));
    assert!(matches!(f("+001-365"), Err(E::ParseYear(_))));
    assert!(matches!(f("2021-367"), Err(E::ParseDayOfYear(_))));
    assert!(matches!(f("2021-366"), Err(E::InvalidDayOfYear)));
    assert!(matches!(f("2000-366"), Ok(_)));
}

#[test]
fn date_time_str_conversion_test() {
    type E = ParseDateTimeError;
    let f = |s: &str| DateTime::from_str(s);
    assert!(matches!(f("2021-02-03T04:05:06"), Ok(_)));
    assert!(matches!(f("2021-02-03T04:05:0"), Err(E::InvalidLength)));
    assert!(matches!(f("2021-02-03 04:05:06"), Err(E::InvalidFormat)));
    assert!(matches!(f("2021-02-29T04:05:06"), Err(E::ParseDate(_))));
    assert!(matches!(f("2021-02-03T24:05:06"), Err(E::ParseTime(_))));
}

#[test]
fn date_time_getters() {
    let date_time = DateTime::from_str("2021-02-03T04:05:06").unwrap();
    assert_eq!(date_time.date().to_string(), "2021-02-03");
    assert_eq!(date_time.time().to_string(), "04:05:06");
    assert_eq!(
        DateTime::new(date_time.date(), date_time.time()),
        date_time
    );
}

#[test]
fn instant_parse_errors() {
    type E = ParseInstantError;
    let f = |s: &str| Instant::from_str(s);
    assert!(matches!(f(""), Err(E::InvalidFormat)));
    assert!(matches!(f("2021-02-03T04:05:06"), Err(E::InvalidFormat)));
    assert!(matches!(f("2021-02-30T04:05:06Z"), Err(E::InvalidFormat)));
    assert!(matches!(f("2021-02-03T04:05:06Z"), Ok(_)));
}

#[test]
fn timestamp_from_text_rejects_malformed_text() {
    assert!(seconds_from_unix_epoch_from_date_time_string("foo").is_err());
    assert!(seconds_from_unix_epoch_from_date_time_string("2021-02-30T00:00:00").is_err());
    assert_eq!(
        seconds_from_unix_epoch_from_date_time_string("1970-01-01T00:00:01").unwrap(),
        1_i64
    );
}
