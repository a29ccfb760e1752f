use korea_investment_api::error::Error;
use korea_investment_api::time::Time;

fn at(year: i32, month: u32, day: u32, hour: u32, minute: u32, second: u32) -> Time {
    Time { year, month, day, hour, minute, second, nanosecond: 0 }
}

#[test]
fn a_stamp_of_fourteen_digits_is_read() {
    assert_eq!(Time::parse("20240102093000", "%Y%m%d%H%M%S"), Ok(at(2024, 1, 2, 9, 30, 0)));
    assert_eq!(Time::parse_stamp(b"20231231235959"), Ok(at(2023, 12, 31, 23, 59, 59)));
}

#[test]
fn a_stamp_that_does_not_follow_the_format_is_a_format_error() {
    assert_eq!(Time::parse("20240102", "%Y%m%d%H%M%S"), Err(Error::ChronoError));
    assert_eq!(Time::parse("20240102093000x", "%Y%m%d%H%M%S"), Err(Error::ChronoError));
    assert_eq!(Time::parse("20241302093000", "%Y%m%d%H%M%S"), Err(Error::ChronoError));
    assert_eq!(Time::parse("20240102250000", "%Y%m%d%H%M%S"), Err(Error::ChronoError));
    assert_eq!(Time::parse("20240230000000", "%Y%m%d%H%M%S"), Err(Error::ChronoError));
    assert_eq!(Time::parse("", "%Y%m%d%H%M%S"), Err(Error::ChronoError));
    assert_eq!(Time::parse_stamp(b"2024-01-02 09:30"), Err(Error::ChronoError));
}

#[test]
fn a_date_alone_is_not_a_point_in_time() {
    assert_eq!(Time::parse("20240102", "%Y%m%d"), Err(Error::ChronoError));
}

#[test]
fn a_time_that_the_clock_of_seoul_skipped_is_invalid() {
    // Daylight saving time began in Seoul on 8 May 1988 at two in the morning.
    assert_eq!(Time::parse("19880508023000", "%Y%m%d%H%M%S"), Err(Error::InvalidData));
    assert_eq!(Time::parse("19880508013000", "%Y%m%d%H%M%S"), Ok(at(1988, 5, 8, 1, 30, 0)));
}

#[test]
fn a_time_that_the_clock_of_seoul_showed_twice_is_invalid() {
    // It ended on 9 October 1988 at three in the morning.
    assert_eq!(Time::parse("19881009023000", "%Y%m%d%H%M%S"), Err(Error::InvalidData));
}

#[test]
fn a_stamp_that_is_not_utf8_is_refused() {
    assert_eq!(Time::parse_stamp(&[0xff, 0x32, 0x30]), Err(Error::Utf8Error));
}

#[test]
fn resolve_keeps_a_single_time() {
    assert_eq!(Time::resolve(at(2024, 1, 2, 9, 30, 0), true), Ok(at(2024, 1, 2, 9, 30, 0)));
    assert_eq!(Time::resolve(at(2024, 1, 2, 9, 30, 0), false), Err(Error::InvalidData));
}

#[test]
fn the_date_is_eight_digits() {
    assert_eq!(at(2024, 1, 2, 9, 30, 0).date(), "20240102");
    assert_eq!(at(2023, 12, 31, 0, 0, 0).date(), "20231231");
    assert_eq!(at(987, 6, 5, 0, 0, 0).date(), "09870605");
    assert_eq!(at(0, 1, 1, 0, 0, 0).date(), "00000101");
    assert_eq!(at(9999, 12, 31, 0, 0, 0).date(), "99991231");
}

#[test]
fn a_year_beyond_four_digits_carries_its_sign() {
    assert_eq!(at(10000, 1, 1, 0, 0, 0).date(), "+100000101");
    assert_eq!(at(-1, 1, 1, 0, 0, 0).date(), "-00010101");
    assert_eq!(at(-12345, 2, 3, 0, 0, 0).date(), "-123450203");
}

#[test]
fn the_date_agrees_with_chrono() {
    for (y, m, d) in [(2024, 1, 2), (1, 1, 1), (0, 12, 31), (9999, 12, 31), (10000, 1, 1), (-1, 6, 30), (-9999, 1, 1), (123456, 7, 8)] {
        let expected = chrono::NaiveDate::from_ymd_opt(y, m, d).unwrap().format("%Y%m%d").to_string();
        assert_eq!(at(y, m, d, 0, 0, 0).date(), expected);
    }
}

#[test]
fn now_is_a_time_of_day() {
    let now = Time::now();
    assert!(now.year >= 2024);
    assert!((1..=12).contains(&now.month));
    assert!((1..=31).contains(&now.day));
    assert!(now.hour < 24 && now.minute < 60 && now.second < 60);
    assert_eq!(now.date().len(), 8);
    let again = Time::parse(&(now.date() + "000000"), "%Y%m%d%H%M%S").unwrap();
    assert_eq!((again.year, again.month, again.day), (now.year, now.month, now.day));
}
