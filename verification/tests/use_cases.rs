use std::str::FromStr;

use limited_date_time::{DayOfMonth, Days, Year, YearMonth};

#[test]
fn use_case_get_days() {
    assert_eq!(
        DayOfMonth::from_str("03").unwrap().days(),
        Days::from(1_u16)
    );
    // Month::days is not supported
    assert_eq!(
        YearMonth::from_str("2021-02").unwrap().days(),
        Days::from(28_u16)
    );
    assert_eq!(Year::from_str("2021").unwrap().days(), Days::from(365_u16));
    // Date::days is not supported (yet?)
}
