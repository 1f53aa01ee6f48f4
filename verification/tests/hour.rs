use std::convert::TryFrom;
use std::str::FromStr;

use limited_date_time::{Hour, ParseHourError, TryFromHourError};

#[test]
fn hour_max_test() {
    assert_eq!(Hour::max(), Hour::from_str("23").unwrap());
}

#[test]
fn hour_min_test() {
    assert_eq!(Hour::min(), Hour::from_str("00").unwrap());
}

#[test]
fn hour_str_conversion_test() {
    type E = ParseHourError;
    let f = |s: &str| s.parse::<Hour>();
    assert_eq!(f("00").map(|d| d.to_string()), Ok("00".to_string()));
    assert_eq!(f("23").map(|d| d.to_string()), Ok("23".to_string()));
    assert_eq!(f(""), Err(E::InvalidLength));
    assert_eq!(f("1"), Err(E::InvalidLength));
    assert_eq!(f("100"), Err(E::InvalidLength));
    assert_eq!(f("0a"), Err(E::InvalidDigit));
    assert_eq!(f("+1"), Err(E::InvalidDigit));
    assert_eq!(f("24"), Err(E::OutOfRange));
}

#[test]
fn hour_i8_conversion_test() {
    type E = TryFromHourError;
    let f = |d: i8| Hour::try_from(d);
    assert_eq!(f(-1_i8), Err(E::OutOfRange));
    assert_eq!(f(0_i8).map(i8::from), Ok(0_i8));
    assert_eq!(f(23_i8).map(i8::from), Ok(23_i8));
    assert_eq!(f(24_i8), Err(E::OutOfRange));
}

#[test]
fn hour_i16_conversion_test() {
    type E = TryFromHourError;
    let f = |d: i16| Hour::try_from(d);
    assert_eq!(f(-1_i16), Err(E::OutOfRange));
    assert_eq!(f(0_i16).map(i16::from), Ok(0_i16));
    assert_eq!(f(23_i16).map(i16::from), Ok(23_i16));
    assert_eq!(f(24_i16), Err(E::OutOfRange));
}

#[test]
fn hour_i32_conversion_test() {
    type E = TryFromHourError;
    let f = |d: i32| Hour::try_from(d);
    assert_eq!(f(-1_i32), Err(E::OutOfRange));
    assert_eq!(f(0_i32).map(i32::from), Ok(0_i32));
    assert_eq!(f(23_i32).map(i32::from), Ok(23_i32));
    assert_eq!(f(24_i32), Err(E::OutOfRange));
}

#[test]
fn hour_i64_conversion_test() {
    type E = TryFromHourError;
    let f = |d: i64| Hour::try_from(d);
    assert_eq!(f(-1_i64), Err(E::OutOfRange));
    assert_eq!(f(0_i64).map(i64::from), Ok(0_i64));
    assert_eq!(f(23_i64).map(i64::from), Ok(23_i64));
    assert_eq!(f(24_i64), Err(E::OutOfRange));
}

#[test]
fn hour_u8_conversion_test() {
    type E = TryFromHourError;
    let f = |d: u8| Hour::try_from(d);
    assert_eq!(f(0_u8).map(u8::from), Ok(0_u8));
    assert_eq!(f(23_u8).map(u8::from), Ok(23_u8));
    assert_eq!(f(24_u8), Err(E::OutOfRange));
}

#[test]
fn hour_u16_conversion_test() {
    type E = TryFromHourError;
    let f = |d: u16| Hour::try_from(d);
    assert_eq!(f(0_u16).map(u16::from), Ok(0_u16));
    assert_eq!(f(23_u16).map(u16::from), Ok(23_u16));
    assert_eq!(f(24_u16), Err(E::OutOfRange));
}

#[test]
fn hour_u32_conversion_test() {
    type E = TryFromHourError;
    let f = |d: u32| Hour::try_from(d);
    assert_eq!(f(0_u32).map(u32::from), Ok(0_u32));
    assert_eq!(f(23_u32).map(u32::from), Ok(23_u32));
    assert_eq!(f(24_u32), Err(E::OutOfRange));
}

#[test]
fn hour_u64_conversion_test() {
    type E = TryFromHourError;
    let f = |d: u64| Hour::try_from(d);
    assert_eq!(f(0_u64).map(u64::from), Ok(0_u64));
    assert_eq!(f(23_u64).map(u64::from), Ok(23_u64));
    assert_eq!(f(24_u64), Err(E::OutOfRange));
}

