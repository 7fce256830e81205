use yahoo_finance_api::decode::from_timestamp;
use yahoo_finance_api::json::{Float, Json, Number};
use yahoo_finance_api::{NaiveDate, NaiveDateTime};

fn calendar(seconds: i64) -> Option<NaiveDateTime> {
    let json = Json::Number(Number {
        integer: Some(seconds),
        float: Float { bits: (seconds as f64).to_bits() },
    });
    from_timestamp(&json).ok()
}


#[test]
fn dates_exist_as_in_the_calendar() {
    assert!(NaiveDate::from_ymd_opt(2023, 1, 31).is_some());
    assert!(NaiveDate::from_ymd_opt(2023, 2, 29).is_none());
    assert!(NaiveDate::from_ymd_opt(2024, 2, 29).is_some());
    assert!(NaiveDate::from_ymd_opt(1900, 2, 29).is_none());
    assert!(NaiveDate::from_ymd_opt(2000, 2, 29).is_some());
    assert!(NaiveDate::from_ymd_opt(-4, 2, 29).is_some());
    assert!(NaiveDate::from_ymd_opt(2023, 4, 31).is_none());
    assert!(NaiveDate::from_ymd_opt(2023, 0, 1).is_none());
    assert!(NaiveDate::from_ymd_opt(2023, 13, 1).is_none());
    assert!(NaiveDate::from_ymd_opt(2023, 1, 0).is_none());
    assert!(NaiveDate::from_ymd_opt(2023, 1, 32).is_none());
}

#[test]
fn dates_end_with_the_years_of_the_calendar() {
    assert!(NaiveDate::from_ymd_opt(262142, 12, 31).is_some());
    assert!(NaiveDate::from_ymd_opt(262143, 1, 1).is_none());
    assert!(NaiveDate::from_ymd_opt(-262143, 1, 1).is_some());
    assert!(NaiveDate::from_ymd_opt(-262144, 12, 31).is_none());
    assert!(NaiveDate::from_ymd_opt(i32::MAX, 1, 1).is_none());
    assert!(NaiveDate::from_ymd_opt(i32::MIN, 1, 1).is_none());
}

#[test]
fn every_day_of_a_leap_cycle_exists_as_the_rule_says() {
    for year in [1900, 1999, 2000, 2023, 2024, 2100, -1, 0, -400, 262142, -262143] {
        let leap = year % 4 == 0 && (year % 100 != 0 || year % 400 == 0);
        for month in 0..=13u32 {
            for day in 0..=32u32 {
                let days = match month {
                    2 => if leap { 29 } else { 28 },
                    4 | 6 | 9 | 11 => 30,
                    1..=12 => 31,
                    _ => 0,
                };
                let expected = 1 <= day && day <= days;
                assert_eq!(NaiveDate::from_ymd_opt(year, month, day).is_some(), expected);
                assert_eq!(chrono::NaiveDate::from_ymd_opt(year, month, day).is_some(), expected);
            }
        }
    }
}

#[test]
fn a_date_gives_its_fields_back() {
    let date = NaiveDate::from_ymd_opt(2023, 1, 31).unwrap();
    assert_eq!((date.year(), date.month(), date.day()), (2023, 1, 31));
}

#[test]
fn midnight_is_counted_in_utc() {
    assert_eq!(NaiveDate::from_ymd_opt(1970, 1, 1).unwrap().midnight_utc(), 0);
    assert_eq!(NaiveDate::from_ymd_opt(2023, 1, 1).unwrap().midnight_utc(), 1672531200);
    assert_eq!(NaiveDate::from_ymd_opt(2023, 1, 31).unwrap().midnight_utc(), 1675123200);
    assert_eq!(NaiveDate::from_ymd_opt(1969, 12, 31).unwrap().midnight_utc(), -86400);
}

#[test]
fn seconds_become_calendar_time() {
    let t = calendar(1431648000).unwrap();
    assert_eq!(
        t,
        NaiveDateTime { year: 2015, month: 5, day: 15, hour: 0, minute: 0, second: 0 }
    );
    let t = calendar(1672583445).unwrap();
    assert_eq!(
        t,
        NaiveDateTime { year: 2023, month: 1, day: 1, hour: 14, minute: 30, second: 45 }
    );
    let t = calendar(-1).unwrap();
    assert_eq!(
        t,
        NaiveDateTime { year: 1969, month: 12, day: 31, hour: 23, minute: 59, second: 59 }
    );
}

#[test]
fn seconds_out_of_range_are_no_time() {
    assert!(calendar(i64::MAX).is_none());
    assert!(calendar(i64::MIN).is_none());
    let last = NaiveDate::from_ymd_opt(262142, 12, 31).unwrap().midnight_utc() + 86399;
    assert_eq!(
        calendar(last).unwrap(),
        NaiveDateTime { year: 262142, month: 12, day: 31, hour: 23, minute: 59, second: 59 }
    );
    assert!(calendar(last + 1).is_none());
    let first = NaiveDate::from_ymd_opt(-262143, 1, 1).unwrap().midnight_utc();
    assert_eq!(
        calendar(first).unwrap(),
        NaiveDateTime { year: -262143, month: 1, day: 1, hour: 0, minute: 0, second: 0 }
    );
    assert!(calendar(first - 1).is_none());
}
