use std::convert::TryFrom;

use limited_date_time::{Month, ParseMonthError, TryFromMonthError};

#[test]
fn month_str_conversion_test() {
    type E = ParseMonthError;
    let f = |s: &str| s.parse::<Month>();
    assert_eq!(f("01").map(|m| m.to_string()), Ok("01".to_string()));
    assert_eq!(f("12").map(|m| m.to_string()), Ok("12".to_string()));
    assert_eq!(f(""), Err(E::InvalidLength));
    assert_eq!(f("1"), Err(E::InvalidLength));
    assert_eq!(f("100"), Err(E::InvalidLength));
    assert_eq!(f("0a"), Err(E::InvalidDigit));
    assert_eq!(f("+1"), Err(E::InvalidDigit));
    assert_eq!(f("00"), Err(E::OutOfRange));
    assert_eq!(f("13"), Err(E::OutOfRange));
}

#[test]
fn month_i8_conversion_test() {
    type E = TryFromMonthError;
    let f = |d: i8| Month::try_from(d);
    assert_eq!(f(0_i8), Err(E::OutOfRange));
    assert_eq!(f(1_i8).map(i8::from), Ok(1_i8));
    assert_eq!(f(12_i8).map(i8::from), Ok(12_i8));
    assert_eq!(f(13_i8), Err(E::OutOfRange));
}

#[test]
fn month_i16_conversion_test() {
    type E = TryFromMonthError;
    let f = |d: i16| Month::try_from(d);
    assert_eq!(f(0_i16), Err(E::OutOfRange));
    assert_eq!(f(1_i16).map(i16::from), Ok(1_i16));
    assert_eq!(f(12_i16).map(i16::from), Ok(12_i16));
    assert_eq!(f(13_i16), Err(E::OutOfRange));
}

#[test]
fn month_i32_conversion_test() {
    type E = TryFromMonthError;
    let f = |d: i32| Month::try_from(d);
    assert_eq!(f(0_i32), Err(E::OutOfRange));
    assert_eq!(f(1_i32).map(i32::from), Ok(1_i32));
    assert_eq!(f(12_i32).map(i32::from), Ok(12_i32));
    assert_eq!(f(13_i32), Err(E::OutOfRange));
}

#[test]
fn month_i64_conversion_test() {
    type E = TryFromMonthError;
    let f = |d: i64| Month::try_from(d);
    assert_eq!(f(0_i64), Err(E::OutOfRange));
    assert_eq!(f(1_i64).map(i64::from), Ok(1_i64));
    assert_eq!(f(12_i64).map(i64::from), Ok(12_i64));
    assert_eq!(f(13_i64), Err(E::OutOfRange));
}

#[test]
fn month_u8_conversion_test() {
    type E = TryFromMonthError;
    let f = |d: u8| Month::try_from(d);
    assert_eq!(f(0_u8), Err(E::OutOfRange));
    assert_eq!(f(1_u8).map(u8::from), Ok(1_u8));
    assert_eq!(f(12_u8).map(u8::from), Ok(12_u8));
    assert_eq!(f(13_u8), Err(E::OutOfRange));
}

#[test]
fn month_u16_conversion_test() {
    type E = TryFromMonthError;
    let f = |d: u16| Month::try_from(d);
    assert_eq!(f(0_u16), Err(E::OutOfRange));
    assert_eq!(f(1_u16).map(u16::from), Ok(1_u16));
    assert_eq!(f(12_u16).map(u16::from), Ok(12_u16));
    assert_eq!(f(13_u16), Err(E::OutOfRange));
}

#[test]
fn month_u32_conversion_test() {
    type E = TryFromMonthError;
    let f = |d: u32| Month::try_from(d);
    assert_eq!(f(0_u32), Err(E::OutOfRange));
    assert_eq!(f(1_u32).map(u32::from), Ok(1_u32));
    assert_eq!(f(12_u32).map(u32::from), Ok(12_u32));
    assert_eq!(f(13_u32), Err(E::OutOfRange));
}

#[test]
fn month_u64_conversion_test() {
    type E = TryFromMonthError;
    let f = |d: u64| Month::try_from(d);
    assert_eq!(f(0_u64), Err(E::OutOfRange));
    assert_eq!(f(1_u64).map(u64::from), Ok(1_u64));
    assert_eq!(f(12_u64).map(u64::from), Ok(12_u64));
    assert_eq!(f(13_u64), Err(E::OutOfRange));
}

#[test]
fn month_pred_test() {
    assert_eq!(Month::try_from(12).unwrap().pred(), Some(Month::try_from(11).unwrap()));
    assert_eq!(Month::try_from(11).unwrap().pred(), Some(Month::try_from(10).unwrap()));
    assert_eq!(Month::try_from(10).unwrap().pred(), Some(Month::try_from(9).unwrap()));
    assert_eq!(Month::try_from(9).unwrap().pred(), Some(Month::try_from(8).unwrap()));
    assert_eq!(Month::try_from(8).unwrap().pred(), Some(Month::try_from(7).unwrap()));
    assert_eq!(Month::try_from(7).unwrap().pred(), Some(Month::try_from(6).unwrap()));
    assert_eq!(Month::try_from(6).unwrap().pred(), Some(Month::try_from(5).unwrap()));
    assert_eq!(Month::try_from(5).unwrap().pred(), Some(Month::try_from(4).unwrap()));
    assert_eq!(Month::try_from(4).unwrap().pred(), Some(Month::try_from(3).unwrap()));
    assert_eq!(Month::try_from(3).unwrap().pred(), Some(Month::try_from(2).unwrap()));
    assert_eq!(Month::try_from(2).unwrap().pred(), Some(Month::try_from(1).unwrap()));
    assert_eq!(Month::try_from(1).unwrap().pred(), None);
}

#[test]
fn month_succ_test() {
    assert_eq!(Month::try_from(1).unwrap().succ(), Some(Month::try_from(2).unwrap()));
    assert_eq!(Month::try_from(2).unwrap().succ(), Some(Month::try_from(3).unwrap()));
    assert_eq!(Month::try_from(3).unwrap().succ(), Some(Month::try_from(4).unwrap()));
    assert_eq!(Month::try_from(4).unwrap().succ(), Some(Month::try_from(5).unwrap()));
    assert_eq!(Month::try_from(5).unwrap().succ(), Some(Month::try_from(6).unwrap()));
    assert_eq!(Month::try_from(6).unwrap().succ(), Some(Month::try_from(7).unwrap()));
    assert_eq!(Month::try_from(7).unwrap().succ(), Some(Month::try_from(8).unwrap()));
    assert_eq!(Month::try_from(8).unwrap().succ(), Some(Month::try_from(9).unwrap()));
    assert_eq!(Month::try_from(9).unwrap().succ(), Some(Month::try_from(10).unwrap()));
    assert_eq!(Month::try_from(10).unwrap().succ(), Some(Month::try_from(11).unwrap()));
    assert_eq!(Month::try_from(11).unwrap().succ(), Some(Month::try_from(12).unwrap()));
    assert_eq!(Month::try_from(12).unwrap().succ(), None);
}

#[test]
fn name_test() {
    assert_eq!(Month::try_from(1).unwrap(), Month::january());
    assert_eq!(Month::try_from(2).unwrap(), Month::february());
    assert_eq!(Month::try_from(3).unwrap(), Month::march());
    assert_eq!(Month::try_from(4).unwrap(), Month::april());
    assert_eq!(Month::try_from(5).unwrap(), Month::may());
    assert_eq!(Month::try_from(6).unwrap(), Month::june());
    assert_eq!(Month::try_from(7).unwrap(), Month::july());
    assert_eq!(Month::try_from(8).unwrap(), Month::august());
    assert_eq!(Month::try_from(9).unwrap(), Month::september());
    assert_eq!(Month::try_from(10).unwrap(), Month::october());
    assert_eq!(Month::try_from(11).unwrap(), Month::november());
    assert_eq!(Month::try_from(12).unwrap(), Month::december());
}
