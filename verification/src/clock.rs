//! Trusted access to `chrono`: reading a timestamp string and converting it
//! to a local wall-clock time.

use vstd::prelude::*;
use chrono::Timelike;
use crate::record::TimeOfDay;

verus! {

/// Whether `chrono::DateTime::parse_from_rfc3339` accepts the text: whether
/// it is a valid RFC 3339 date-time with an offset, a deterministic property
/// of the text.
pub uninterp spec fn rfc3339_ok(s: Seq<char>) -> bool;

/// Relies on `chrono::DateTime::parse_from_rfc3339`, which succeeds exactly
/// on valid RFC 3339 date-times, on `DateTime::with_timezone` to `Local`
/// (whose result depends on the machine's timezone, so nothing more is said
/// of it), and on `chrono::Timelike::{hour, minute, second}`, documented to
/// return values in `0..24`, `0..60` and `0..60`. A leap-second timestamp
/// (`...:60`) parses, but chrono carries the leap second in the nanosecond
/// field and `second()` stays 59, so such a time reads as `:59` here.
#[verifier::external_body]
pub fn local_time_of(s: &str) -> (r: Option<TimeOfDay>)
    ensures
        r is Some <==> rfc3339_ok(s@),
        r matches Some(t) ==> t.wf(),
{
    match chrono::DateTime::parse_from_rfc3339(s) {
        Ok(dt) => {
            let local = dt.with_timezone(&chrono::Local);
            Some(TimeOfDay {
                hour: local.hour() as u8,
                minute: local.minute() as u8,
                second: local.second() as u8,
            })
        },
        Err(_) => None,
    }
}

} // verus!
