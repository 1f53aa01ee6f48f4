use std::str::FromStr;

use limited_date_time::{
    days_from_ce_from_ordinal_date, ordinal_date_from_days_from_ce, CalendarDate, DayOfMonth,
    Days, Instant, Month, OrdinalDate, Seconds, Year,
};

#[test]
fn day_count_round_trip_over_whole_span() {
    // Every day number of the supported span survives the round trip
    // through its ordinal date, including every 1-, 4-, 100- and 400-year
    // cycle boundary.
    for d in 1..=3_652_425_i64 {
        let ordinal_date = ordinal_date_from_days_from_ce(d);
        let days_from_ce = days_from_ce_from_ordinal_date(ordinal_date);
        assert_eq!(days_from_ce, d);
        assert_eq!(ordinal_date_from_days_from_ce(days_from_ce), ordinal_date);
    }
}

#[test]
fn day_count_cycle_boundaries() {
    // The last day of each leap cycle is day 366 of the cycle's last
    // year: the classic inverse edge case.
    assert_eq!(ordinal_date_from_days_from_ce(146_097), (400, 366));
    assert_eq!(ordinal_date_from_days_from_ce(146_098), (401, 1));
    assert_eq!(ordinal_date_from_days_from_ce(1_461), (4, 366));
    assert_eq!(ordinal_date_from_days_from_ce(1_462), (5, 1));
    assert_eq!(ordinal_date_from_days_from_ce(36_524), (100, 365));
    assert_eq!(ordinal_date_from_days_from_ce(36_525), (101, 1));
    assert_eq!(ordinal_date_from_days_from_ce(36_889), (101, 365));
    assert_eq!(ordinal_date_from_days_from_ce(36_890), (102, 1));
    assert_eq!(ordinal_date_from_days_from_ce(1), (1, 1));
    assert_eq!(ordinal_date_from_days_from_ce(365), (1, 365));
    assert_eq!(ordinal_date_from_days_from_ce(366), (2, 1));
}

#[test]
fn calendar_ordinal_round_trip_over_sample_dates() {
    let samples = [
        "1970-01-01", "1970-12-31", "1972-02-29", "2000-02-29", "2000-12-31", "2021-02-28",
        "2021-12-31", "2100-02-28", "2400-02-29", "9999-12-31",
    ];
    for s in samples {
        let date = CalendarDate::from_str(s).unwrap();
        assert_eq!(CalendarDate::from(OrdinalDate::from(date)), date);
    }
}

#[test]
fn instant_text_round_trip_over_sample_instants() {
    let samples = [
        0_u64,
        1,
        86_399,
        86_400,
        951_782_399,  // 2000-02-28T23:59:59Z
        951_782_400,  // 2000-02-29T00:00:00Z
        253_402_300_799,
    ];
    for ts in samples {
        let instant = Instant::try_from(ts).unwrap();
        assert_eq!(Instant::from_str(&instant.to_string()), Ok(instant));
    }
}

#[test]
fn from_ymd_rejects_day_past_month_end() {
    let year = Year::try_from(2021_u16).unwrap();
    let february = Month::february();
    assert!(CalendarDate::from_ymd(year, february, DayOfMonth::try_from(29_u8).unwrap()).is_err());
    assert!(CalendarDate::from_ymd(year, february, DayOfMonth::try_from(28_u8).unwrap()).is_ok());
}

#[test]
fn instant_boundaries_format_and_overflow() {
    assert_eq!(Instant::min().to_string(), "1970-01-01T00:00:00Z");
    assert_eq!(Instant::max().to_string(), "9999-12-31T23:59:59Z");
    assert!(Instant::max().add_seconds(Seconds::from(1_u64)).is_err());
}

#[test]
fn leap_year_rule_examples() {
    assert!(Year::try_from(2000_u16).unwrap().is_leap_year());
    assert!(Year::try_from(2004_u16).unwrap().is_leap_year());
    assert!(!Year::try_from(2100_u16).unwrap().is_leap_year());
    assert!(!Year::try_from(1971_u16).unwrap().is_leap_year());
}

#[test]
fn succ_carries_at_each_boundary() {
    assert_eq!(
        "2021-02-03"
            .parse::<CalendarDate>()
            .unwrap()
            .succ()
            .map(|d| d.to_string()),
        Some("2021-02-04".to_string())
    );
    assert_eq!(
        "2021-01-31"
            .parse::<CalendarDate>()
            .unwrap()
            .succ()
            .map(|d| d.to_string()),
        Some("2021-02-01".to_string())
    );
    assert_eq!(
        "2021-12-31"
            .parse::<CalendarDate>()
            .unwrap()
            .succ()
            .map(|d| d.to_string()),
        Some("2022-01-01".to_string())
    );
}

#[test]
fn ordinal_date_of_year_end() {
    assert_eq!(
        OrdinalDate::from(CalendarDate::from_str("2021-12-31").unwrap()).to_string(),
        "2021-365"
    );
    assert_eq!(
        OrdinalDate::from(CalendarDate::from_str("2000-12-31").unwrap()).to_string(),
        "2000-366"
    );
}

#[test]
fn adding_days_to_day_of_month() {
    let d1 = DayOfMonth::try_from(1_u8).unwrap();
    assert_eq!(
        d1.add_days(Days::from(1_u16)),
        Ok(DayOfMonth::try_from(2_u8).unwrap())
    );
    assert!(d1.add_days(Days::from(31_u16)).is_err());
}
