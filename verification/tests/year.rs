use std::convert::TryFrom;
use std::str::FromStr;

use limited_date_time::{DayOfYear, Days, ParseYearError, TryFromYearError, Year};

#[test]
fn is_leap_year() {
    let f = |y: u16| Year::try_from(y).map(|y| Year::is_leap_year(&y));
    assert_eq!(f(2000), Ok(true));
    assert_eq!(f(2004), Ok(true));
    assert_eq!(f(2100), Ok(false));
}

#[test]
fn year_str_conversion_test() {
    type E = ParseYearError;
    let f = |s: &str| s.parse::<Year>();
    assert_eq!(f("1970").map(|y| y.to_string()), Ok("1970".to_string()));
    assert_eq!(f("9999").map(|y| y.to_string()), Ok("9999".to_string()));
    assert_eq!(f(""), Err(E::InvalidLength));
    assert_eq!(f("0"), Err(E::InvalidLength));
    assert_eq!(f("10000"), Err(E::InvalidLength));
    assert_eq!(f("000a"), Err(E::InvalidDigit));
    assert_eq!(f("+000"), Err(E::InvalidDigit));
    assert_eq!(f("1969"), Err(E::OutOfRange));
}

#[test]
fn year_i16_conversion_test() {
    type E = TryFromYearError;
    let f = |d: i16| Year::try_from(d);
    assert_eq!(f(1969_i16), Err(E::OutOfRange));
    assert_eq!(f(1970_i16).map(i16::from), Ok(1970_i16));
    assert_eq!(f(9999_i16).map(i16::from), Ok(9999_i16));
    assert_eq!(f(10000_i16), Err(E::OutOfRange));
}

#[test]
fn year_i32_conversion_test() {
    type E = TryFromYearError;
    let f = |d: i32| Year::try_from(d);
    assert_eq!(f(1969_i32), Err(E::OutOfRange));
    assert_eq!(f(1970_i32).map(i32::from), Ok(1970_i32));
    assert_eq!(f(9999_i32).map(i32::from), Ok(9999_i32));
    assert_eq!(f(10000_i32), Err(E::OutOfRange));
}

#[test]
fn year_i64_conversion_test() {
    type E = TryFromYearError;
    let f = |d: i64| Year::try_from(d);
    assert_eq!(f(1969_i64), Err(E::OutOfRange));
    assert_eq!(f(1970_i64).map(i64::from), Ok(1970_i64));
    assert_eq!(f(9999_i64).map(i64::from), Ok(9999_i64));
    assert_eq!(f(10000_i64), Err(E::OutOfRange));
}

#[test]
fn year_u16_conversion_test() {
    type E = TryFromYearError;
    let f = |d: u16| Year::try_from(d);
    assert_eq!(f(1969_u16), Err(E::OutOfRange));
    assert_eq!(f(1970_u16).map(u16::from), Ok(1970_u16));
    assert_eq!(f(9999_u16).map(u16::from), Ok(9999_u16));
    assert_eq!(f(10000_u16), Err(E::OutOfRange));
}

#[test]
fn year_u32_conversion_test() {
    type E = TryFromYearError;
    let f = |d: u32| Year::try_from(d);
    assert_eq!(f(1969_u32), Err(E::OutOfRange));
    assert_eq!(f(1970_u32).map(u32::from), Ok(1970_u32));
    assert_eq!(f(9999_u32).map(u32::from), Ok(9999_u32));
    assert_eq!(f(10000_u32), Err(E::OutOfRange));
}

#[test]
fn year_u64_conversion_test() {
    type E = TryFromYearError;
    let f = |d: u64| Year::try_from(d);
    assert_eq!(f(1969_u64), Err(E::OutOfRange));
    assert_eq!(f(1970_u64).map(u64::from), Ok(1970_u64));
    assert_eq!(f(9999_u64).map(u64::from), Ok(9999_u64));
    assert_eq!(f(10000_u64), Err(E::OutOfRange));
}

#[test]
fn first_day_of_year_test() {
    assert_eq!(
        Year::from_str("2000").unwrap().first_day_of_year(),
        DayOfYear::min()
    );
}

#[test]
fn last_day_of_year_test() {
    let leap_year = Year::from_str("2000").unwrap();
    assert_eq!(leap_year.last_day_of_year(), DayOfYear::max_in_leap_year());
    let common_year = Year::from_str("2001").unwrap();
    assert_eq!(
        common_year.last_day_of_year(),
        DayOfYear::max_in_common_year()
    );
}

#[test]
fn year_pred_test() {
    assert_eq!(
        Year::from_str("9999").unwrap().pred(),
        Some(Year::from_str("9998").unwrap())
    );
    assert_eq!(
        Year::from_str("1971").unwrap().pred(),
        Some(Year::from_str("1970").unwrap())
    );
    assert_eq!(Year::from_str("1970").unwrap().pred(), None);
}

#[test]
fn year_succ_test() {
    assert_eq!(
        Year::from_str("1970").unwrap().succ(),
        Some(Year::from_str("1971").unwrap())
    );
    assert_eq!(
        Year::from_str("9998").unwrap().succ(),
        Some(Year::from_str("9999").unwrap())
    );
    assert_eq!(Year::from_str("9999").unwrap().succ(), None);
}

#[test]
fn year_days_test() {
    assert_eq!(Year::from_str("2000").unwrap().days(), Days::from(366_u16));
    assert_eq!(Year::from_str("2001").unwrap().days(), Days::from(365_u16));
}
