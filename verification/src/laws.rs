//! The validator's guarantees, stated once over all inputs: which day
//! counts, hours and dates each mode accepts, and what each rejection
//! reports.

use vstd::prelude::*;
use crate::date::{
    Date, date_in_range, date_le_spec, date_lt_spec, date_seq, lemma_date_seq_parse,
    lemma_next_day_gt, lemma_plus_days, next_day_spec, parse_date_spec, plus_days_spec,
};
use crate::error::ErrorView;
use crate::request::{forecast_result, history_min, history_result};

verus! {

/// A forecast day count off 1..=14 is rejected with the range error
/// citing "1" and "14", whatever the other parameters hold.
pub proof fn lemma_forecast_days_range(
    token: Seq<char>,
    query: Seq<char>,
    days: u8,
    date: Option<Seq<char>>,
    hour: Option<u8>,
    aqi: Option<bool>,
    today: Date,
)
    requires
        days < 1 || days > 14,
    ensures
        forecast_result(token, query, days, date, hour, aqi, today) == Err::<Seq<char>, ErrorView>(
            ErrorView::DateOutOfRange("1"@, "14"@),
        ),
{
}

/// With the day count in range and any date either absent or inside its
/// window, an hour above 24 is rejected with the hour-range error, and
/// an hour in 0..=24 is accepted.
pub proof fn lemma_forecast_hour_range(
    token: Seq<char>,
    query: Seq<char>,
    days: u8,
    date: Option<Date>,
    hour: u8,
    aqi: Option<bool>,
    today: Date,
)
    requires
        1 <= days <= 14,
        date matches Some(d) ==> date_in_range(d) && date_le_spec(today, d) && date_le_spec(
            d,
            plus_days_spec(today, 14),
        ),
    ensures
        ({
            let text = match date {
                Some(d) => Some(date_seq(d)),
                None => None,
            };
            &&& hour > 24 ==> forecast_result(token, query, days, text, Some(hour), aqi, today)
                == Err::<Seq<char>, ErrorView>(ErrorView::HourOutOfRange)
            &&& hour <= 24 ==> forecast_result(token, query, days, text, Some(hour), aqi, today)
                is Ok
        }),
{
    if let Some(d) = date {
        lemma_date_seq_parse(d);
    }
}

/// With an accepted history date, an hour above 24 is rejected with the
/// hour-range error, and an hour in 0..=24 is accepted.
pub proof fn lemma_history_hour_range(
    token: Seq<char>,
    query: Seq<char>,
    d: Date,
    hour: u8,
    today: Date,
)
    requires
        date_in_range(d),
        date_le_spec(history_min(), d),
        date_le_spec(d, today),
    ensures
        hour > 24 ==> history_result(token, query, date_seq(d), None, Some(hour), today) == Err::<
            Seq<char>,
            ErrorView,
        >(ErrorView::HourOutOfRange),
        hour <= 24 ==> history_result(token, query, date_seq(d), None, Some(hour), today) is Ok,
{
    lemma_date_seq_parse(d);
}

/// The forecast date window is inclusive at both ends: today and
/// today + 14 days are accepted, and today + 15 days is rejected with the
/// range error naming the two bounds. Dates past year 9999 have no
/// `YYYY-MM-DD` form, so the window's upper end must still lie this side
/// of it.
pub proof fn lemma_forecast_date_window_high(
    token: Seq<char>,
    query: Seq<char>,
    days: u8,
    aqi: Option<bool>,
    today: Date,
)
    requires
        1 <= days <= 14,
        date_in_range(today),
        plus_days_spec(today, 15).year <= 9999,
    ensures
        forecast_result(token, query, days, Some(date_seq(today)), None, aqi, today) is Ok,
        forecast_result(
            token,
            query,
            days,
            Some(date_seq(plus_days_spec(today, 14))),
            None,
            aqi,
            today,
        ) is Ok,
        forecast_result(
            token,
            query,
            days,
            Some(date_seq(plus_days_spec(today, 15))),
            None,
            aqi,
            today,
        ) == Err::<Seq<char>, ErrorView>(
            ErrorView::DateOutOfRange(date_seq(today), date_seq(plus_days_spec(today, 14))),
        ),
{
    let hi = plus_days_spec(today, 14);
    let past = plus_days_spec(today, 15);
    lemma_plus_days(today, 14);
    lemma_plus_days(today, 15);
    assert(past == next_day_spec(hi));
    lemma_next_day_gt(hi);
    assert(hi.year <= past.year);
    lemma_date_seq_parse(today);
    lemma_date_seq_parse(hi);
    lemma_date_seq_parse(past);
}

/// The day before today is rejected by the forecast mode, with the range
/// error naming the two bounds of the window.
pub proof fn lemma_forecast_date_window_low(
    token: Seq<char>,
    query: Seq<char>,
    days: u8,
    aqi: Option<bool>,
    today: Date,
    yesterday: Date,
)
    requires
        1 <= days <= 14,
        date_in_range(today),
        date_in_range(yesterday),
        next_day_spec(yesterday) == today,
    ensures
        forecast_result(token, query, days, Some(date_seq(yesterday)), None, aqi, today) == Err::<
            Seq<char>,
            ErrorView,
        >(ErrorView::DateOutOfRange(date_seq(today), date_seq(plus_days_spec(today, 14)))),
{
    lemma_next_day_gt(yesterday);
    lemma_date_seq_parse(yesterday);
    assert(date_lt_spec(yesterday, today));
}

/// A date string that is not well-formed `YYYY-MM-DD` text naming a real
/// calendar date draws the invalid-format error from the forecast mode,
/// never a range error.
pub proof fn lemma_malformed_forecast_date(
    token: Seq<char>,
    query: Seq<char>,
    days: u8,
    s: Seq<char>,
    hour: Option<u8>,
    aqi: Option<bool>,
    today: Date,
)
    requires
        1 <= days <= 14,
        parse_date_spec(s) is None,
    ensures
        forecast_result(token, query, days, Some(s), hour, aqi, today) == Err::<
            Seq<char>,
            ErrorView,
        >(ErrorView::InvalidDate),
{
}

/// A malformed history date draws the invalid-format error, never a
/// range error.
pub proof fn lemma_malformed_history_date(
    token: Seq<char>,
    query: Seq<char>,
    s: Seq<char>,
    end_date: Option<Seq<char>>,
    hour: Option<u8>,
    today: Date,
)
    requires
        parse_date_spec(s) is None,
    ensures
        history_result(token, query, s, end_date, hour, today) == Err::<Seq<char>, ErrorView>(
            ErrorView::InvalidDate,
        ),
{
}

} // verus!
