//! The one impure input of the validator: the current UTC date.

use vstd::prelude::*;
use crate::date::{Date, date_from_ymd, date_in_range, valid_ymd};

verus! {

/// Relies on chrono's `Utc::now` and the `Datelike` accessors: a
/// `NaiveDate` always names a real calendar date, with the month in
/// 1..=12 and the day one the month has. Nothing is promised about
/// which date comes back.
#[verifier::external_body]
fn now_ymd() -> (r: (i32, u32, u32))
    ensures
        valid_ymd(r.0 as int, r.1 as int, r.2 as int),
{
    let d = chrono::Utc::now().date_naive();
    (chrono::Datelike::year(&d), chrono::Datelike::month(&d), chrono::Datelike::day(&d))
}

/// The current UTC date, if it has a four-digit year; `None` only when
/// the system clock lies outside the years 0..=9999. Which `Date` each
/// drawn triple becomes is fixed by [`date_from_ymd`]'s contract.
pub fn today() -> (r: Option<Date>)
    ensures
        r matches Some(d) ==> date_in_range(d),
{
    let (y, m, d) = now_ymd();
    date_from_ymd(y, m, d)
}

} // verus!
