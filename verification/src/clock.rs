//! The wall clock. Reading the time is the one thing the core cannot do
//! itself; everything computed from a time value takes it as an argument.

use vstd::prelude::*;
use crate::text::digits_val;
use crate::utils::all_digits;

verus! {

/// Relies on `chrono::Utc::now` and `chrono::DateTime::timestamp`: the
/// current moment as seconds since the Unix epoch. Nothing can be promised
/// of a clock reading.
#[verifier::external_body]
pub fn now_unix() -> (r: i64) {
    chrono::Utc::now().timestamp()
}

/// Relies on `chrono::Utc::now` and `chrono::Datelike::{month, year}`:
/// the current month, zero-padded to two digits (`month` is documented to
/// return 1 through 12), and the current year as decimal text.
#[verifier::external_body]
pub fn current_period() -> (r: (String, String))
    ensures
        r.0@.len() == 2,
        all_digits(r.0@),
        1 <= digits_val(r.0@) <= 12,
{
    let now = chrono::Utc::now();
    let month = format!("{:02}", chrono::Datelike::month(&now));
    let year = chrono::Datelike::year(&now).to_string();
    (month, year)
}

} // verus!
