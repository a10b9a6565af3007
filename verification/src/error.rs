//! The failures the query validator reports, and their message text.

use vstd::prelude::*;

verus! {

/// Specification-level value of an [`Error`]: the same variants, over
/// sequences of characters instead of heap strings.
pub enum ErrorView {
    DateOutOfRange(Seq<char>, Seq<char>),
    HourOutOfRange,
    InvalidDate,
}

/// A validation failure. `DateOutOfRange` carries the two bounds of the
/// valid window, already rendered as text; `HourOutOfRange` and
/// `InvalidDate` have fixed messages.
#[derive(Debug)]
pub enum Error {
    DateOutOfRange(String, String),
    HourOutOfRange,
    InvalidDate,
}

impl View for Error {
    type V = ErrorView;

    open spec fn view(&self) -> ErrorView {
        match self {
            Error::DateOutOfRange(lo, hi) => ErrorView::DateOutOfRange(lo@, hi@),
            Error::HourOutOfRange => ErrorView::HourOutOfRange,
            Error::InvalidDate => ErrorView::InvalidDate,
        }
    }
}

/// The message text of each error, as the top level prints it.
pub open spec fn message_seq(e: ErrorView) -> Seq<char> {
    match e {
        ErrorView::DateOutOfRange(lo, hi) => "Date provided is out of range. Valid range: "@ + lo
            + " - "@ + hi,
        ErrorView::HourOutOfRange => "Hour is out of range. Valid range: 0 - 24"@,
        ErrorView::InvalidDate => "Invalid date format, must be in YYYY-MM-DD"@,
    }
}

impl Error {
    /// The human-readable message of this error.
    pub fn message(&self) -> (r: String)
        ensures
            r@ == message_seq(self@),
    {
        match self {
            Error::DateOutOfRange(lo, hi) => {
                let mut s = String::from_str("Date provided is out of range. Valid range: ");
                s.append(lo.as_str());
                s.append(" - ");
                s.append(hi.as_str());
                proof {
                    assert(s@ =~= message_seq(self@));
                }
                s
            },
            Error::HourOutOfRange => String::from_str("Hour is out of range. Valid range: 0 - 24"),
            Error::InvalidDate => String::from_str("Invalid date format, must be in YYYY-MM-DD"),
        }
    }
}

} // verus!
