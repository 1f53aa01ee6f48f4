use std::str::FromStr;

use chrono::Datelike;
use chrono::Timelike;

use limited_date_time::engine::{
    DAYS_FROM_CE_TO_UNIX_EPOCH, DAYS_PER_100_YEARS, DAYS_PER_400_YEARS, DAYS_PER_4_YEARS,
    DAYS_PER_COMMON_YEAR, SECONDS_FROM_CE_TO_UNIX_EPOCH, SECONDS_PER_DAY,
};
use limited_date_time::{
    date_from_ordinal_date, date_time_string_from_seconds_from_unix_epoch,
    days_from_ce_from_ordinal_date, days_from_ce_from_year, is_leap_year, ordinal_date_from_date,
    ordinal_date_from_days_from_ce, seconds_from_midnight_from_time,
    seconds_from_unix_epoch_from_date_time_string, time_from_seconds_from_midnight, Instant,
};

#[test]
fn const_days_from_ce_to_unix_epoch_test() {
    let days_from_ce =
        i64::from(chrono::NaiveDateTime::from_str("0000-12-31T00:00:00").unwrap().num_days_from_ce());
    assert_eq!(days_from_ce, 0);

    let days_from_ce_to_unix_epoch =
        i64::from(chrono::NaiveDateTime::from_str("1970-01-01T00:00:00").unwrap().num_days_from_ce());
    assert_eq!(days_from_ce_to_unix_epoch, 719_163_i64);

    assert_eq!(DAYS_FROM_CE_TO_UNIX_EPOCH, days_from_ce_to_unix_epoch);
    assert_eq!(DAYS_FROM_CE_TO_UNIX_EPOCH, days_from_ce_from_year(1969) + 1);
    assert_eq!(DAYS_FROM_CE_TO_UNIX_EPOCH, 719_163_i64);
}

#[test]
fn const_days_per_common_year_test() {
    assert_eq!(DAYS_PER_COMMON_YEAR, 365_i64);
}

#[test]
fn const_days_per_4_years_test() {
    assert_eq!(DAYS_PER_4_YEARS, DAYS_PER_COMMON_YEAR * 4 + 1);
    assert_eq!(DAYS_PER_4_YEARS, 1_461_i64);
}

#[test]
fn const_days_per_100_years_test() {
    assert_eq!(DAYS_PER_100_YEARS, DAYS_PER_4_YEARS * 25 - 1);
    assert_eq!(DAYS_PER_100_YEARS, 36_524_i64);
}

#[test]
fn const_days_per_400_years_test() {
    assert_eq!(DAYS_PER_400_YEARS, DAYS_PER_100_YEARS * 4 + 1);
    assert_eq!(DAYS_PER_400_YEARS, 146_097_i64);
}

#[test]
fn const_seconds_per_day_test() {
    assert_eq!(SECONDS_PER_DAY, 24 * 60 * 60);
    assert_eq!(SECONDS_PER_DAY, 86_400_i64);
}

#[test]
fn const_seconds_from_ce_to_unix_epoch_test() {
    let days_from_ce =
        i64::from(chrono::NaiveDateTime::from_str("0000-12-31T00:00:00").unwrap().num_days_from_ce());
    assert_eq!(days_from_ce, 0);
    let seconds_from_ce = days_from_ce * SECONDS_PER_DAY;
    assert_eq!(seconds_from_ce, 0);

    let days_from_ce_to_unix_epoch =
        i64::from(chrono::NaiveDateTime::from_str("1970-01-01T00:00:00").unwrap().num_days_from_ce());
    assert_eq!(days_from_ce_to_unix_epoch, 719_163_i64);
    let seconds_from_ce_to_unix_epoch = days_from_ce_to_unix_epoch * SECONDS_PER_DAY;
    assert_eq!(seconds_from_ce_to_unix_epoch, 62_135_683_200_i64);

    assert_eq!(SECONDS_FROM_CE_TO_UNIX_EPOCH, seconds_from_ce_to_unix_epoch);
    assert_eq!(
        SECONDS_FROM_CE_TO_UNIX_EPOCH,
        (days_from_ce_from_year(1969) + 1) * SECONDS_PER_DAY
    );
    assert_eq!(SECONDS_FROM_CE_TO_UNIX_EPOCH, 62_135_683_200_i64);
}

#[test]
fn date_from_ordinal_date_test() {
    assert_eq!(date_from_ordinal_date((2021, 1)), (2021, 1, 1));
    assert_eq!(date_from_ordinal_date((2021, 365)), (2021, 12, 31));
    assert_eq!(date_from_ordinal_date((2000, 366)), (2000, 12, 31));
}

#[test]
fn date_time_string_from_seconds_from_unix_epoch_test() {
    let f = date_time_string_from_seconds_from_unix_epoch;
    let min_timestamp = 0_i64;
    let max_timestamp = 253_402_300_799_i64;
    assert_eq!(f(min_timestamp - 1).unwrap(), "1969-12-31T23:59:59");
    assert_eq!(f(min_timestamp).unwrap(), "1970-01-01T00:00:00");
    assert_eq!(f(max_timestamp).unwrap(), "9999-12-31T23:59:59");
    assert_eq!(f(max_timestamp + 1).unwrap(), "10000-01-01T00:00:00");
}

#[test]
fn days_from_ce_from_ordinal_date_test() {
    // See: ordinal_date_from_days_from_ce_test
}

#[test]
fn days_from_ce_from_year_test() {
    let f = days_from_ce_from_year;
    let g = |y: i64| {
        Datelike::num_days_from_ce(&chrono::NaiveDate::from_ymd_opt(y as i32, 1, 1).unwrap())
    };
    assert_eq!(f(0), 0);
    assert_eq!(g(1), 1);
    assert_eq!(f(1), 365);
    assert_eq!(g(2), 366);
    assert_eq!(f(2), 730);
    assert_eq!(g(3), 731);
    assert_eq!(f(1969), 719162);
    assert_eq!(g(1970), 719163);
    for y in 1..=9999 + 1 {
        assert_eq!(f(y - 1) + 1, i64::from(g(y)));
    }
}

#[test]
fn is_leap_year_test() {
    let f = is_leap_year;
    assert!(f(2000));
    assert!(f(2004));
    assert!(!f(2100));
}

#[test]
fn ordinal_date_from_date_test() {
    for d in 1..=(253_402_300_799_i64 / 86_400) {
        let ordinal_date = ordinal_date_from_days_from_ce(d);
        let (y1, m1, d1) = date_from_ordinal_date(ordinal_date);
        let (y2, m2, d2) = {
            let naive_date = chrono::NaiveDate::from_num_days_from_ce_opt(d as i32).unwrap();
            (
                Datelike::year(&naive_date) as i64,
                Datelike::month(&naive_date) as i64,
                Datelike::day(&naive_date) as i64,
            )
        };
        assert_eq!((y1, m1, d1), (y2, m2, d2));
    }
}

#[test]
fn ordinal_date_from_days_from_ce_test() {
    for d in 1..=(253_402_300_799_i64 / 86_400) {
        let (y1, d1) = ordinal_date_from_days_from_ce(d);
        let (y2, d2) = {
            let naive_date = chrono::NaiveDate::from_num_days_from_ce_opt(d as i32).unwrap();
            (
                Datelike::year(&naive_date) as i64,
                Datelike::ordinal(&naive_date) as i64,
            )
        };
        assert_eq!((y1, d1), (y2, d2));

        let days_from_ce = days_from_ce_from_ordinal_date((y1, d1));
        let (y3, d3) = ordinal_date_from_days_from_ce(days_from_ce);
        assert_eq!(days_from_ce, d);
        assert_eq!((y1, d1), (y3, d3));
    }
}

#[test]
fn seconds_from_midnight_from_time_test() {
    for s in 0..86_400_i64 {
        let time = chrono::NaiveTime::from_num_seconds_from_midnight_opt(s as u32, 0).unwrap();
        let t1 = (
            time.hour() as i64,
            time.minute() as i64,
            time.second() as i64,
        );
        let t2 = time_from_seconds_from_midnight(s);
        assert_eq!(t1, t2);
        assert_eq!(seconds_from_midnight_from_time(t2), s);
    }
}

#[test]
fn seconds_from_unix_epoch_from_date_time_string_test() {
    let f = seconds_from_unix_epoch_from_date_time_string;
    let min_timestamp = u64::from(Instant::min()) as i64;
    let max_timestamp = u64::from(Instant::max()) as i64;
    assert_eq!(f("1969-12-31T23:59:59").unwrap(), min_timestamp - 1);
    assert_eq!(f("1970-01-01T00:00:00").unwrap(), min_timestamp);
    assert_eq!(f("9999-12-31T23:59:59").unwrap(), max_timestamp);
    assert_eq!(f("+10000-01-01T00:00:00").unwrap(), max_timestamp + 1);
}

#[test]
fn time_from_seconds_from_midnight_test() {
    // See: seconds_from_midnight_from_time_test
}

#[test]
fn ordinal_date_from_date_engine_test() {
    assert_eq!(ordinal_date_from_date((2021, 1, 1)), (2021, 1));
    assert_eq!(ordinal_date_from_date((2021, 12, 31)), (2021, 365));
    assert_eq!(ordinal_date_from_date((2000, 12, 31)), (2000, 366));
    assert_eq!(ordinal_date_from_date((2000, 3, 1)), (2000, 61));
    assert_eq!(ordinal_date_from_date((2001, 3, 1)), (2001, 60));
}
