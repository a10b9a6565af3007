use weather_cli::clock::today;
use weather_cli::date::{date_le, date_to_string, Date};

#[test]
fn today_is_a_real_calendar_date() {
    let d = today().expect("the clock lies inside the four-digit years");
    assert!(1 <= d.month && d.month <= 12);
    assert!(1 <= d.day && d.day <= 31);
    assert!(date_le(Date { year: 2000, month: 1, day: 1 }, d));
    let text = date_to_string(d);
    assert_eq!(text.len(), 10);
    assert_eq!(&text[4..5], "-");
    assert_eq!(&text[7..8], "-");
}
