use std::convert::TryFrom;
use std::str::FromStr;

use limited_date_time::{Minute, ParseMinuteError, TryFromMinuteError};

#[test]
fn minute_max_test() {
    assert_eq!(Minute::max(), Minute::from_str("59").unwrap());
}

#[test]
fn minute_min_test() {
    assert_eq!(Minute::min(), Minute::from_str("00").unwrap());
}

#[test]
fn minute_str_conversion_test() {
    type E = ParseMinuteError;
    let f = |s: &str| s.parse::<Minute>();
    assert_eq!(f("00").map(|d| d.to_string()), Ok("00".to_string()));
    assert_eq!(f("59").map(|d| d.to_string()), Ok("59".to_string()));
    assert_eq!(f(""), Err(E::InvalidLength));
    assert_eq!(f("1"), Err(E::InvalidLength));
    assert_eq!(f("100"), Err(E::InvalidLength));
    assert_eq!(f("0a"), Err(E::InvalidDigit));
    assert_eq!(f("+1"), Err(E::InvalidDigit));
    assert_eq!(f("60"), Err(E::OutOfRange));
}

#[test]
fn minute_i8_conversion_test() {
    type E = TryFromMinuteError;
    let f = |d: i8| Minute::try_from(d);
    assert_eq!(f(-1_i8), Err(E::OutOfRange));
    assert_eq!(f(0_i8).map(i8::from), Ok(0_i8));
    assert_eq!(f(59_i8).map(i8::from), Ok(59_i8));
    assert_eq!(f(60_i8), Err(E::OutOfRange));
}

#[test]
fn minute_i16_conversion_test() {
    type E = TryFromMinuteError;
    let f = |d: i16| Minute::try_from(d);
    assert_eq!(f(-1_i16), Err(E::OutOfRange));
    assert_eq!(f(0_i16).map(i16::from), Ok(0_i16));
    assert_eq!(f(59_i16).map(i16::from), Ok(59_i16));
    assert_eq!(f(60_i16), Err(E::OutOfRange));
}

#[test]
fn minute_i32_conversion_test() {
    type E = TryFromMinuteError;
    let f = |d: i32| Minute::try_from(d);
    assert_eq!(f(-1_i32), Err(E::OutOfRange));
    assert_eq!(f(0_i32).map(i32::from), Ok(0_i32));
    assert_eq!(f(59_i32).map(i32::from), Ok(59_i32));
    assert_eq!(f(60_i32), Err(E::OutOfRange));
}

#[test]
fn minute_i64_conversion_test() {
    type E = TryFromMinuteError;
    let f = |d: i64| Minute::try_from(d);
    assert_eq!(f(-1_i64), Err(E::OutOfRange));
    assert_eq!(f(0_i64).map(i64::from), Ok(0_i64));
    assert_eq!(f(59_i64).map(i64::from), Ok(59_i64));
    assert_eq!(f(60_i64), Err(E::OutOfRange));
}

#[test]
fn minute_u8_conversion_test() {
    type E = TryFromMinuteError;
    let f = |d: u8| Minute::try_from(d);
    assert_eq!(f(0_u8).map(u8::from), Ok(0_u8));
    assert_eq!(f(59_u8).map(u8::from), Ok(59_u8));
    assert_eq!(f(60_u8), Err(E::OutOfRange));
}

#[test]
fn minute_u16_conversion_test() {
    type E = TryFromMinuteError;
    let f = |d: u16| Minute::try_from(d);
    assert_eq!(f(0_u16).map(u16::from), Ok(0_u16));
    assert_eq!(f(59_u16).map(u16::from), Ok(59_u16));
    assert_eq!(f(60_u16), Err(E::OutOfRange));
}

#[test]
fn minute_u32_conversion_test() {
    type E = TryFromMinuteError;
    let f = |d: u32| Minute::try_from(d);
    assert_eq!(f(0_u32).map(u32::from), Ok(0_u32));
    assert_eq!(f(59_u32).map(u32::from), Ok(59_u32));
    assert_eq!(f(60_u32), Err(E::OutOfRange));
}

#[test]
fn minute_u64_conversion_test() {
    type E = TryFromMinuteError;
    let f = |d: u64| Minute::try_from(d);
    assert_eq!(f(0_u64).map(u64::from), Ok(0_u64));
    assert_eq!(f(59_u64).map(u64::from), Ok(59_u64));
    assert_eq!(f(60_u64), Err(E::OutOfRange));
}

