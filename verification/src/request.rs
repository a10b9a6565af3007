//! The query validator and request builder: turns the parameters of each
//! mode into the exact request URL, or into the error the mode reports,
//! checking the documented date and hour windows first so that a bad input
//! never reaches the network.

use vstd::prelude::*;
use crate::date::{
    Date, add_days, date_in_range, date_le, date_le_spec, date_seq, date_to_string, dec_seq,
    parse_date, parse_date_spec, plus_days_spec, u8_to_string,
};
use crate::error::{Error, ErrorView};

verus! {

/// The view of an optional borrowed string.
pub open spec fn opt_str_view(o: Option<&str>) -> Option<Seq<char>> {
    match o {
        Some(s) => Some(s@),
        None => None,
    }
}

/// Whether the executable outcome `r` denotes the specification-level
/// outcome `m`.
pub open spec fn result_matches(r: Result<String, Error>, m: Result<
    Seq<char>,
    ErrorView,
>) -> bool {
    match r {
        Ok(s) => m == Ok::<Seq<char>, ErrorView>(s@),
        Err(e) => m == Err::<Seq<char>, ErrorView>(e@),
    }
}

/// The current-conditions URL.
pub open spec fn current_url_seq(token: Seq<char>, query: Seq<char>) -> Seq<char> {
    "https://api.weatherapi.com/v1/current.json?q="@ + query + "&key="@ + token
}

/// The forecast URL for validated parameters.
pub open spec fn forecast_url_seq(
    token: Seq<char>,
    query: Seq<char>,
    days: u8,
    date: Option<Date>,
    hour: Option<u8>,
    aqi: Option<bool>,
) -> Seq<char> {
    let base = "https://api.weatherapi.com/v1/forecast.json?key="@ + token + "&q="@ + query
        + "&days="@ + dec_seq(days as int);
    let with_date = match date {
        Some(d) => base + "&dt="@ + date_seq(d),
        None => base,
    };
    let with_hour = match hour {
        Some(h) => with_date + "&hour="@ + dec_seq(h as int),
        None => with_date,
    };
    match aqi {
        Some(true) => with_hour + "&aqi=yes"@,
        Some(false) => with_hour + "&aqi=no"@,
        None => with_hour,
    }
}

/// The hour check shared by the forecast and history modes, followed by
/// the finished URL.
pub open spec fn forecast_tail(
    token: Seq<char>,
    query: Seq<char>,
    days: u8,
    date: Option<Date>,
    hour: Option<u8>,
    aqi: Option<bool>,
) -> Result<Seq<char>, ErrorView> {
    match hour {
        Some(h) => if h > 24 {
            Err(ErrorView::HourOutOfRange)
        } else {
            Ok(forecast_url_seq(token, query, days, date, Some(h), aqi))
        },
        None => Ok(forecast_url_seq(token, query, days, date, None, aqi)),
    }
}

/// What forecast validation yields: the first failed check in the order
/// day count, date format, date window, hour; else the URL.
pub open spec fn forecast_result(
    token: Seq<char>,
    query: Seq<char>,
    days: u8,
    date: Option<Seq<char>>,
    hour: Option<u8>,
    aqi: Option<bool>,
    today: Date,
) -> Result<Seq<char>, ErrorView> {
    if days < 1 || days > 14 {
        Err(ErrorView::DateOutOfRange("1"@, "14"@))
    } else {
        match date {
            Some(ds) => match parse_date_spec(ds) {
                None => Err(ErrorView::InvalidDate),
                Some(d) => {
                    let hi = plus_days_spec(today, 14);
                    if !date_le_spec(today, d) || !date_le_spec(d, hi) {
                        Err(ErrorView::DateOutOfRange(date_seq(today), date_seq(hi)))
                    } else {
                        forecast_tail(token, query, days, Some(d), hour, aqi)
                    }
                },
            },
            None => forecast_tail(token, query, days, None, hour, aqi),
        }
    }
}

/// The far-future URL for validated parameters.
pub open spec fn future_url_seq(token: Seq<char>, query: Seq<char>, date: Option<
    Date,
>) -> Seq<char> {
    let base = "https://api.weatherapi.com/v1/future.json?key="@ + token + "&query="@ + query;
    match date {
        Some(d) => base + "&dt="@ + date_seq(d),
        None => base,
    }
}

/// What future-mode validation yields: the date, if given, must lie in
/// [today + 14 days, today + 300 days].
pub open spec fn future_result(
    token: Seq<char>,
    query: Seq<char>,
    date: Option<Seq<char>>,
    today: Date,
) -> Result<Seq<char>, ErrorView> {
    match date {
        None => Ok(future_url_seq(token, query, None)),
        Some(ds) => match parse_date_spec(ds) {
            None => Err(ErrorView::InvalidDate),
            Some(d) => {
                let lo = plus_days_spec(today, 14);
                let hi = plus_days_spec(today, 300);
                if !date_le_spec(lo, d) || !date_le_spec(d, hi) {
                    Err(ErrorView::DateOutOfRange("14 days after now"@, "300 days after now"@))
                } else {
                    Ok(future_url_seq(token, query, Some(d)))
                }
            },
        },
    }
}

/// The earliest date the history mode accepts.
pub open spec fn history_min() -> Date {
    Date { year: 2015, month: 1, day: 1 }
}

/// The history URL for validated parameters.
pub open spec fn history_url_seq(
    token: Seq<char>,
    query: Seq<char>,
    date: Date,
    end_date: Option<Date>,
    hour: Option<u8>,
) -> Seq<char> {
    let base = "https://api.weatherapi.com/v1/history.json?key="@ + token + "&query="@ + query
        + "&dt="@ + date_seq(date);
    let with_end = match end_date {
        Some(e) => base + "&end_dt="@ + date_seq(e),
        None => base,
    };
    match hour {
        Some(h) => with_end + "&hour="@ + dec_seq(h as int),
        None => with_end,
    }
}

/// The hour check of the history mode, followed by the finished URL.
pub open spec fn history_tail(
    token: Seq<char>,
    query: Seq<char>,
    date: Date,
    end_date: Option<Date>,
    hour: Option<u8>,
) -> Result<Seq<char>, ErrorView> {
    match hour {
        Some(h) => if h > 24 {
            Err(ErrorView::HourOutOfRange)
        } else {
            Ok(history_url_seq(token, query, date, end_date, Some(h)))
        },
        None => Ok(history_url_seq(token, query, date, end_date, None)),
    }
}

/// What history validation yields: the date must parse and lie in
/// [2015-01-01, today]; an end date must parse and lie in
/// [date + 30 days, today]; an hour must lie in 0..=24.
pub open spec fn history_result(
    token: Seq<char>,
    query: Seq<char>,
    date: Seq<char>,
    end_date: Option<Seq<char>>,
    hour: Option<u8>,
    today: Date,
) -> Result<Seq<char>, ErrorView> {
    match parse_date_spec(date) {
        None => Err(ErrorView::InvalidDate),
        Some(d) => if !date_le_spec(history_min(), d) || !date_le_spec(d, today) {
            Err(ErrorView::DateOutOfRange("2015-01-01"@, date_seq(today)))
        } else {
            match end_date {
                Some(es) => match parse_date_spec(es) {
                    None => Err(ErrorView::InvalidDate),
                    Some(e) => {
                        let lo = plus_days_spec(d, 30);
                        if !date_le_spec(lo, e) || !date_le_spec(e, today) {
                            Err(ErrorView::DateOutOfRange(date_seq(lo), date_seq(today)))
                        } else {
                            history_tail(token, query, d, Some(e), hour)
                        }
                    },
                },
                None => history_tail(token, query, d, None, hour),
            }
        },
    }
}

/// Builds the current-conditions URL; the mode takes no other parameter,
/// so nothing can fail.
pub fn current_url(token: &str, query: &str) -> (r: String)
    ensures
        r@ == current_url_seq(token@, query@),
{
    let mut url = String::from_str("https://api.weatherapi.com/v1/current.json?q=");
    url.append(query);
    url.append("&key=");
    url.append(token);
    proof {
        assert(url@ =~= current_url_seq(token@, query@));
    }
    url
}

/// Validates the forecast parameters and builds the forecast URL.
pub fn forecast_url(
    token: &str,
    query: &str,
    days: u8,
    date: Option<&str>,
    hour: Option<u8>,
    aqi: Option<bool>,
    today: Date,
) -> (r: Result<String, Error>)
    requires
        date_in_range(today),
    ensures
        result_matches(r, forecast_result(token@, query@, days, opt_str_view(date), hour, aqi, today)),
{
    if days < 1 || days > 14 {
        return Err(Error::DateOutOfRange(String::from_str("1"), String::from_str("14")));
    }
    let mut url = String::from_str("https://api.weatherapi.com/v1/forecast.json?key=");
    url.append(token);
    url.append("&q=");
    url.append(query);
    url.append("&days=");
    let days_text = u8_to_string(days);
    url.append(days_text.as_str());
    let ghost mut parsed: Option<Date> = None;
    if let Some(ds) = date {
        let d = match parse_date(ds) {
            Ok(d) => d,
            Err(e) => { return Err(e) },
        };
        let hi = add_days(today, 14);
        if !date_le(today, d) || !date_le(d, hi) {
            return Err(Error::DateOutOfRange(date_to_string(today), date_to_string(hi)));
        }
        url.append("&dt=");
        let date_text = date_to_string(d);
        url.append(date_text.as_str());
        proof {
            parsed = Some(d);
        }
    }
    if let Some(h) = hour {
        if h > 24 {
            return Err(Error::HourOutOfRange);
        }
        url.append("&hour=");
        let hour_text = u8_to_string(h);
        url.append(hour_text.as_str());
    }
    if let Some(a) = aqi {
        if a {
            url.append("&aqi=yes");
        } else {
            url.append("&aqi=no");
        }
    }
    proof {
        assert(url@ =~= forecast_url_seq(token@, query@, days, parsed, hour, aqi));
    }
    Ok(url)
}

/// Validates the future-mode parameters and builds the future URL.
pub fn future_url(token: &str, query: &str, date: Option<&str>, today: Date) -> (r: Result<
    String,
    Error,
>)
    requires
        date_in_range(today),
    ensures
        result_matches(r, future_result(token@, query@, opt_str_view(date), today)),
{
    let mut url = String::from_str("https://api.weatherapi.com/v1/future.json?key=");
    url.append(token);
    url.append("&query=");
    url.append(query);
    let ghost mut parsed: Option<Date> = None;
    if let Some(ds) = date {
        let d = match parse_date(ds) {
            Ok(d) => d,
            Err(e) => { return Err(e) },
        };
        let lo = add_days(today, 14);
        let hi = add_days(today, 300);
        if !date_le(lo, d) || !date_le(d, hi) {
            return Err(Error::DateOutOfRange(
                String::from_str("14 days after now"),
                String::from_str("300 days after now"),
            ));
        }
        url.append("&dt=");
        let date_text = date_to_string(d);
        url.append(date_text.as_str());
        proof {
            parsed = Some(d);
        }
    }
    proof {
        assert(url@ =~= future_url_seq(token@, query@, parsed));
    }
    Ok(url)
}

/// Validates the history parameters and builds the history URL.
pub fn history_url(
    token: &str,
    query: &str,
    date: &str,
    end_date: Option<&str>,
    hour: Option<u8>,
    today: Date,
) -> (r: Result<String, Error>)
    requires
        date_in_range(today),
    ensures
        result_matches(
            r,
            history_result(token@, query@, date@, opt_str_view(end_date), hour, today),
        ),
{
    let d = match parse_date(date) {
        Ok(d) => d,
        Err(e) => { return Err(e) },
    };
    let min_allowed = Date { year: 2015, month: 1, day: 1 };
    if !date_le(min_allowed, d) || !date_le(d, today) {
        return Err(Error::DateOutOfRange(String::from_str("2015-01-01"), date_to_string(today)));
    }
    let mut url = String::from_str("https://api.weatherapi.com/v1/history.json?key=");
    url.append(token);
    url.append("&query=");
    url.append(query);
    url.append("&dt=");
    let date_text = date_to_string(d);
    url.append(date_text.as_str());
    let ghost mut parsed_end: Option<Date> = None;
    if let Some(es) = end_date {
        let e = match parse_date(es) {
            Ok(e) => e,
            Err(err) => { return Err(err) },
        };
        let lo = add_days(d, 30);
        if !date_le(lo, e) || !date_le(e, today) {
            return Err(Error::DateOutOfRange(date_to_string(lo), date_to_string(today)));
        }
        url.append("&end_dt=");
        let end_text = date_to_string(e);
        url.append(end_text.as_str());
        proof {
            parsed_end = Some(e);
        }
    }
    if let Some(h) = hour {
        if h > 24 {
            return Err(Error::HourOutOfRange);
        }
        url.append("&hour=");
        let hour_text = u8_to_string(h);
        url.append(hour_text.as_str());
    }
    proof {
        assert(url@ =~= history_url_seq(token@, query@, d, parsed_end, hour));
    }
    Ok(url)
}

} // verus!
