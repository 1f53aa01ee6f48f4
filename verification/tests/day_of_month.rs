use std::convert::TryFrom;

use limited_date_time::{DayOfMonth, Days, ParseDayOfMonthError, TryFromDayOfMonthError};

#[test]
fn day_of_month_str_conversion_test() {
    type E = ParseDayOfMonthError;
    let f = |s: &str| s.parse::<DayOfMonth>();
    assert_eq!(f("01").map(|d| d.to_string()), Ok("01".to_string()));
    assert_eq!(f("31").map(|d| d.to_string()), Ok("31".to_string()));
    assert_eq!(f(""), Err(E::InvalidLength));
    assert_eq!(f("1"), Err(E::InvalidLength));
    assert_eq!(f("100"), Err(E::InvalidLength));
    assert_eq!(f("0a"), Err(E::InvalidDigit));
    assert_eq!(f("+1"), Err(E::InvalidDigit));
    assert_eq!(f("00"), Err(E::OutOfRange));
    assert_eq!(f("32"), Err(E::OutOfRange));
}

#[test]
fn day_of_month_i8_conversion_test() {
    type E = TryFromDayOfMonthError;
    let f = |d: i8| DayOfMonth::try_from(d);
    assert_eq!(f(0_i8), Err(E::OutOfRange));
    assert_eq!(f(1_i8).map(i8::from), Ok(1_i8));
    assert_eq!(f(31_i8).map(i8::from), Ok(31_i8));
    assert_eq!(f(32_i8), Err(E::OutOfRange));
}

#[test]
fn day_of_month_i16_conversion_test() {
    type E = TryFromDayOfMonthError;
    let f = |d: i16| DayOfMonth::try_from(d);
    assert_eq!(f(0_i16), Err(E::OutOfRange));
    assert_eq!(f(1_i16).map(i16::from), Ok(1_i16));
    assert_eq!(f(31_i16).map(i16::from), Ok(31_i16));
    assert_eq!(f(32_i16), Err(E::OutOfRange));
}

#[test]
fn day_of_month_i32_conversion_test() {
    type E = TryFromDayOfMonthError;
    let f = |d: i32| DayOfMonth::try_from(d);
    assert_eq!(f(0_i32), Err(E::OutOfRange));
    assert_eq!(f(1_i32).map(i32::from), Ok(1_i32));
    assert_eq!(f(31_i32).map(i32::from), Ok(31_i32));
    assert_eq!(f(32_i32), Err(E::OutOfRange));
}

#[test]
fn day_of_month_i64_conversion_test() {
    type E = TryFromDayOfMonthError;
    let f = |d: i64| DayOfMonth::try_from(d);
    assert_eq!(f(0_i64), Err(E::OutOfRange));
    assert_eq!(f(1_i64).map(i64::from), Ok(1_i64));
    assert_eq!(f(31_i64).map(i64::from), Ok(31_i64));
    assert_eq!(f(32_i64), Err(E::OutOfRange));
}

#[test]
fn day_of_month_u8_conversion_test() {
    type E = TryFromDayOfMonthError;
    let f = |d: u8| DayOfMonth::try_from(d);
    assert_eq!(f(0_u8), Err(E::OutOfRange));
    assert_eq!(f(1_u8).map(u8::from), Ok(1_u8));
    assert_eq!(f(31_u8).map(u8::from), Ok(31_u8));
    assert_eq!(f(32_u8), Err(E::OutOfRange));
}

#[test]
fn day_of_month_u16_conversion_test() {
    type E = TryFromDayOfMonthError;
    let f = |d: u16| DayOfMonth::try_from(d);
    assert_eq!(f(0_u16), Err(E::OutOfRange));
    assert_eq!(f(1_u16).map(u16::from), Ok(1_u16));
    assert_eq!(f(31_u16).map(u16::from), Ok(31_u16));
    assert_eq!(f(32_u16), Err(E::OutOfRange));
}

#[test]
fn day_of_month_u32_conversion_test() {
    type E = TryFromDayOfMonthError;
    let f = |d: u32| DayOfMonth::try_from(d);
    assert_eq!(f(0_u32), Err(E::OutOfRange));
    assert_eq!(f(1_u32).map(u32::from), Ok(1_u32));
    assert_eq!(f(31_u32).map(u32::from), Ok(31_u32));
    assert_eq!(f(32_u32), Err(E::OutOfRange));
}

#[test]
fn day_of_month_u64_conversion_test() {
    type E = TryFromDayOfMonthError;
    let f = |d: u64| DayOfMonth::try_from(d);
    assert_eq!(f(0_u64), Err(E::OutOfRange));
    assert_eq!(f(1_u64).map(u64::from), Ok(1_u64));
    assert_eq!(f(31_u64).map(u64::from), Ok(31_u64));
    assert_eq!(f(32_u64), Err(E::OutOfRange));
}

#[test]
fn day_of_month_pred_test() {
    assert_eq!(
        DayOfMonth::try_from(31).unwrap().pred(),
        Some(DayOfMonth::try_from(30).unwrap())
    );
    assert_eq!(
        DayOfMonth::try_from(2).unwrap().pred(),
        Some(DayOfMonth::try_from(1).unwrap())
    );
    assert_eq!(DayOfMonth::try_from(1).unwrap().pred(), None);
}

#[test]
fn day_of_month_succ_test() {
    assert_eq!(
        DayOfMonth::try_from(1).unwrap().succ(),
        Some(DayOfMonth::try_from(2).unwrap())
    );
    assert_eq!(
        DayOfMonth::try_from(30).unwrap().succ(),
        Some(DayOfMonth::try_from(31).unwrap())
    );
    assert_eq!(DayOfMonth::try_from(31).unwrap().succ(), None);
}

#[test]
fn day_of_month_add_days_test() {
    let d1 = DayOfMonth::try_from(1).unwrap();
    let d2 = DayOfMonth::try_from(2).unwrap();
    let d31 = DayOfMonth::try_from(31).unwrap();
    assert_eq!(d1.add_days(Days::from(0_u16)), Ok(d1));
    assert_eq!(d1.add_days(Days::from(1_u16)), Ok(d2));
    assert_eq!(d1.add_days(Days::from(30_u16)), Ok(d31));
    assert!(d1.add_days(Days::from(31_u16)).is_err());
    assert!(d31.add_days(Days::from(1_u16)).is_err());
}

#[test]
fn day_of_month_days_test() {
    assert_eq!(DayOfMonth::try_from(1).unwrap().days(), Days::from(1_u16));
}
