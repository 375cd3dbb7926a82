//! The wall clock, read through chrono and held as plain calendar fields.
use vstd::prelude::*;
use crate::line::Timestamp;
use chrono::{Datelike, Timelike};

verus! {

/// Relies on chrono::Local::now and its Datelike/Timelike accessors: the
/// month is 1 to 12, the day 1 to 31, the hour 0 to 23, the minute and the
/// second 0 to 59. The year is whatever the local clock says.
#[verifier::external_body]
fn now_parts() -> (r: (i64, u64, u64, u64, u64, u64))
    ensures
        1 <= r.1 <= 12,
        1 <= r.2 <= 31,
        r.3 < 24,
        r.4 < 60,
        r.5 < 60,
{
    let now = chrono::Local::now();
    (
        now.year() as i64,
        now.month() as u64,
        now.day() as u64,
        now.hour() as u64,
        now.minute() as u64,
        now.second() as u64,
    )
}

/// Reads the local clock. `None` only when the local year does not fit the
/// four-digit rendering; any timestamp returned is well-formed.
pub fn current_timestamp() -> (r: Option<Timestamp>)
    ensures
        r matches Some(t) ==> t.wf(),
{
    let (year, month, day, hour, minute, second) = now_parts();
    Timestamp::from_parts(year, month, day, hour, minute, second)
}

} // verus!
