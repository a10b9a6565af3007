use weather_cli::date::{
    add_days, date_from_ymd, date_le, date_to_string, leap_year, month_len, next_day, parse_date,
    u8_to_string, Date,
};
use weather_cli::error::Error;

fn date(year: u16, month: u8, day: u8) -> Date {
    Date { year, month, day }
}

#[test]
fn parses_plain_date() {
    assert_eq!(parse_date("2015-01-01").unwrap(), date(2015, 1, 1));
    assert_eq!(parse_date("2026-10-11").unwrap(), date(2026, 10, 11));
    assert_eq!(parse_date("0007-03-04").unwrap(), date(7, 3, 4));
    assert_eq!(parse_date("9999-12-31").unwrap(), date(9999, 12, 31));
}

#[test]
fn parses_leap_day_only_in_leap_years() {
    assert_eq!(parse_date("2024-02-29").unwrap(), date(2024, 2, 29));
    assert_eq!(parse_date("2000-02-29").unwrap(), date(2000, 2, 29));
    assert!(matches!(parse_date("2023-02-29"), Err(Error::InvalidDate)));
    assert!(matches!(parse_date("1900-02-29"), Err(Error::InvalidDate)));
}

#[test]
fn rejects_malformed_text() {
    assert!(matches!(parse_date("01-01-2020"), Err(Error::InvalidDate)));
    assert!(matches!(parse_date("2020/01/01"), Err(Error::InvalidDate)));
    assert!(matches!(parse_date("2020-1-1"), Err(Error::InvalidDate)));
    assert!(matches!(parse_date(""), Err(Error::InvalidDate)));
    assert!(matches!(parse_date("20200101"), Err(Error::InvalidDate)));
    assert!(matches!(parse_date("2020-01-011"), Err(Error::InvalidDate)));
}

#[test]
fn rejects_impossible_calendar_dates() {
    assert!(matches!(parse_date("2020-13-01"), Err(Error::InvalidDate)));
    assert!(matches!(parse_date("2020-00-10"), Err(Error::InvalidDate)));
    assert!(matches!(parse_date("2020-04-31"), Err(Error::InvalidDate)));
    assert!(matches!(parse_date("2020-01-00"), Err(Error::InvalidDate)));
    assert!(matches!(parse_date("2020-01-32"), Err(Error::InvalidDate)));
}

#[test]
fn formats_with_zero_padding() {
    assert_eq!(date_to_string(date(2015, 1, 1)), "2015-01-01");
    assert_eq!(date_to_string(date(7, 3, 4)), "0007-03-04");
    assert_eq!(date_to_string(date(2026, 10, 11)), "2026-10-11");
}

#[test]
fn format_then_parse_gives_the_date_back() {
    let d = date(2024, 2, 29);
    assert_eq!(parse_date(&date_to_string(d)).unwrap(), d);
    let d = date(1, 12, 31);
    assert_eq!(parse_date(&date_to_string(d)).unwrap(), d);
}

#[test]
fn add_days_crosses_month_and_year_boundaries() {
    assert_eq!(add_days(date(2023, 12, 31), 1), date(2024, 1, 1));
    assert_eq!(add_days(date(2024, 2, 28), 1), date(2024, 2, 29));
    assert_eq!(add_days(date(2024, 2, 28), 2), date(2024, 3, 1));
    assert_eq!(add_days(date(2023, 2, 28), 1), date(2023, 3, 1));
    assert_eq!(add_days(date(2015, 1, 1), 30), date(2015, 1, 31));
    assert_eq!(add_days(date(2015, 1, 1), 31), date(2015, 2, 1));
    assert_eq!(add_days(date(2026, 10, 11), 0), date(2026, 10, 11));
    assert_eq!(add_days(date(2026, 10, 11), 300), date(2027, 8, 7));
}

#[test]
fn packs_triples_with_four_digit_years_only() {
    assert_eq!(date_from_ymd(2026, 10, 11), Some(date(2026, 10, 11)));
    assert_eq!(date_from_ymd(0, 1, 1), Some(date(0, 1, 1)));
    assert_eq!(date_from_ymd(9999, 12, 31), Some(date(9999, 12, 31)));
    assert_eq!(date_from_ymd(-5, 3, 10), None);
    assert_eq!(date_from_ymd(10000, 1, 1), None);
}

#[test]
fn leap_years_follow_the_gregorian_rule() {
    assert!(leap_year(2024));
    assert!(leap_year(2000));
    assert!(!leap_year(2023));
    assert!(!leap_year(1900));
}

#[test]
fn month_lengths_match_the_calendar() {
    assert_eq!(month_len(2015, 1), 31);
    assert_eq!(month_len(2015, 2), 28);
    assert_eq!(month_len(2016, 2), 29);
    assert_eq!(month_len(2015, 4), 30);
    assert_eq!(month_len(2015, 12), 31);
}

#[test]
fn next_day_steps_over_each_kind_of_boundary() {
    assert_eq!(next_day(date(2015, 6, 14)), date(2015, 6, 15));
    assert_eq!(next_day(date(2015, 6, 30)), date(2015, 7, 1));
    assert_eq!(next_day(date(2015, 12, 31)), date(2016, 1, 1));
    assert_eq!(next_day(date(2016, 2, 28)), date(2016, 2, 29));
    assert_eq!(next_day(date(2016, 2, 29)), date(2016, 3, 1));
}

#[test]
fn orders_dates_chronologically() {
    assert!(date_le(date(2015, 1, 1), date(2015, 1, 1)));
    assert!(date_le(date(2014, 12, 31), date(2015, 1, 1)));
    assert!(!date_le(date(2015, 1, 1), date(2014, 12, 31)));
    assert!(date_le(date(2026, 9, 30), date(2026, 10, 1)));
    assert!(date_le(date(2026, 10, 10), date(2026, 10, 11)));
    assert!(!date_le(date(2026, 10, 12), date(2026, 10, 11)));
}

#[test]
fn renders_numbers_without_padding() {
    assert_eq!(u8_to_string(0), "0");
    assert_eq!(u8_to_string(6), "6");
    assert_eq!(u8_to_string(14), "14");
    assert_eq!(u8_to_string(24), "24");
    assert_eq!(u8_to_string(255), "255");
}

#[test]
fn error_messages_match_the_reported_text() {
    let e = Error::DateOutOfRange("1".to_string(), "14".to_string());
    assert_eq!(e.message(), "Date provided is out of range. Valid range: 1 - 14");
    assert_eq!(Error::HourOutOfRange.message(), "Hour is out of range. Valid range: 0 - 24");
    assert_eq!(Error::InvalidDate.message(), "Invalid date format, must be in YYYY-MM-DD");
}
