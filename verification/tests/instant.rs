use std::convert::TryFrom;
use std::str::FromStr;

use limited_date_time::{Days, Instant, Seconds};

#[test]
fn instant_i64_conversion_test() {
    assert_eq!(i64::from(Instant::min()), 0_i64);
    assert_eq!(i64::from(Instant::max()), 253_402_300_799_i64);
    assert!(Instant::try_from(i64::MIN).is_err());
    assert!(Instant::try_from(i64::from(Instant::min()) - 1_i64).is_err());
    assert_eq!(
        Instant::try_from(i64::from(Instant::min())).unwrap(),
        Instant::try_from(0_u64).unwrap()
    );
    assert_eq!(
        Instant::try_from(i64::from(Instant::max())).unwrap(),
        Instant::try_from(253_402_300_799_u64).unwrap()
    );
    assert!(Instant::try_from(i64::from(Instant::max()) + 1_i64).is_err());
    assert!(Instant::try_from(i64::MAX).is_err());
}

#[test]
fn instant_u8_conversion_test() {
    assert_eq!(u8::try_from(Instant::min()), Ok(0_u8));
    assert_eq!(u8::try_from(Instant::from(u8::MAX)), Ok(u8::MAX));
    assert!(u8::try_from(Instant::from(u16::from(u8::MAX) + 1)).is_err());
    assert!(u8::try_from(Instant::max()).is_err());
    assert_eq!(Instant::from(u8::MIN), Instant::min());
    assert_eq!(Instant::from(u8::MAX), Instant::from(255_u16));
}

#[test]
fn instant_u16_conversion_test() {
    assert_eq!(u16::try_from(Instant::min()), Ok(0_u16));
    assert_eq!(u16::try_from(Instant::from(u16::MAX)), Ok(u16::MAX));
    assert!(u16::try_from(Instant::from(u32::from(u16::MAX) + 1)).is_err());
    assert!(u16::try_from(Instant::max()).is_err());
    assert_eq!(Instant::from(u16::MIN), Instant::min());
    assert_eq!(Instant::from(u16::MAX), Instant::from(65_535_u16));
}

#[test]
fn instant_u32_conversion_test() {
    assert_eq!(u32::try_from(Instant::min()), Ok(0_u32));
    assert_eq!(u32::try_from(Instant::from(u32::MAX)), Ok(u32::MAX));
    assert!(u32::try_from(Instant::try_from(u64::from(u32::MAX) + 1).unwrap()).is_err());
    assert!(u32::try_from(Instant::max()).is_err());
    assert_eq!(Instant::from(u32::MIN), Instant::min());
    assert_eq!(Instant::from(u32::MAX), Instant::from(4_294_967_295_u32));
}

#[test]
fn instant_u64_conversion_test() {
    assert_eq!(u64::from(Instant::min()), 0_u64);
    assert_eq!(u64::from(Instant::max()), 253_402_300_799_u64);
    assert_eq!(Instant::try_from(u64::MIN).unwrap(), Instant::min());
    assert_eq!(
        Instant::try_from(u64::from(Instant::max())).unwrap(),
        Instant::try_from(253_402_300_799_u64).unwrap()
    );
    assert!(Instant::try_from(u64::from(Instant::max()) + 1_u64).is_err());
    assert!(Instant::try_from(u64::MAX).is_err());
}

#[test]
fn instant_seconds_conversion_test() {
    assert_eq!(Instant::min().as_seconds(), Seconds::from(0_u64));
    assert_eq!(
        Instant::max().as_seconds(),
        Seconds::from(253_402_300_799_u64)
    );
    assert_eq!(
        Instant::from_seconds(Seconds::from(u64::MIN)).unwrap(),
        Instant::min()
    );
    assert_eq!(
        Instant::from_seconds(Seconds::from(253_402_300_799_u64)).unwrap(),
        Instant::max()
    );
    assert!(Instant::from_seconds(Seconds::from(253_402_300_799_u64 + 1)).is_err());
    assert!(Instant::from_seconds(Seconds::from(u64::MAX)).is_err());
}

#[test]
fn instant_str_conversion_test() {
    assert_eq!(
        Instant::from_str("1970-01-01T00:00:00Z").unwrap(),
        Instant::min()
    );
    assert_eq!(
        Instant::from_str("9999-12-31T23:59:59Z").unwrap(),
        Instant::max()
    );
    assert!(Instant::from_str("1970-01-01T00:00:00").is_err());
    assert_eq!(
        Instant::from_str("1970-01-01T00:00:00Z").unwrap().to_string(),
        "1970-01-01T00:00:00Z"
    );
}

#[test]
fn instant_add_days_test() {
    let seconds_per_day = 24_u64 * 60_u64 * 60_u64;
    assert_eq!(
        Instant::try_from(1_u64).unwrap().add_days(Days::from(1_u8)),
        Ok(Instant::try_from(1_u64 + seconds_per_day).unwrap())
    );
}

#[test]
fn add_seconds_test() {
    assert_eq!(
        Instant::try_from(1_u64).unwrap().add_seconds(Seconds::from(2_u64)),
        Ok(Instant::try_from(3_u64).unwrap())
    );
    assert_eq!(
        Instant::try_from(0_u64)
            .unwrap()
            .add_seconds(Seconds::from(u64::from(Instant::max()))),
        Ok(Instant::max())
    );
}
