//! Calendar dates and kickoff times, read through chrono.
use vstd::prelude::*;
use chrono::{Datelike, Timelike};

verus! {

/// A day of the proleptic Gregorian calendar.
pub struct CalendarDate {
    pub year: i32,
    pub month: u32,
    pub day: u32,
}

impl CalendarDate {
    /// Month and day are in their calendar ranges.
    pub open spec fn wf(&self) -> bool {
        1 <= self.month <= 12 && 1 <= self.day <= 31
    }
}

/// The UTC hour and minute of the instant that `s` denotes, when `s` is an
/// RFC 3339 timestamp; `None` when it is not one.
pub uninterp spec fn rfc3339_utc_clock(s: Seq<char>) -> Option<(u32, u32)>;

/// Relies on chrono's `DateTime::parse_from_rfc3339`, converted to UTC with
/// `with_timezone(&Utc)` and read with `Timelike::hour` and `minute`
/// (documented as 0 to 23 and 0 to 59).
#[verifier::external_body]
pub(crate) fn utc_clock_of(s: &str) -> (r: Option<(u32, u32)>)
    ensures
        r == rfc3339_utc_clock(s@),
        r matches Some((h, m)) ==> h < 24 && m < 60,
{
    match chrono::DateTime::parse_from_rfc3339(s) {
        Ok(t) => {
            let u = t.with_timezone(&chrono::Utc);
            Some((u.hour(), u.minute()))
        },
        Err(_) => None,
    }
}

/// Relies on chrono's `Utc::now` and `date_naive`, read with `Datelike::year`,
/// `month` (documented as 1 to 12) and `day` (1 to 31).
#[verifier::external_body]
pub(crate) fn utc_today() -> (r: CalendarDate)
    ensures
        r.wf(),
{
    let d = chrono::Utc::now().date_naive();
    CalendarDate { year: d.year(), month: d.month(), day: d.day() }
}

} // verus!
