//! The time of a log entry, and where it comes from.

use vstd::prelude::*;
use chrono::Utc;

verus! {

/// A moment in UTC: whole seconds since 1970-01-01 00:00:00 and the
/// nanoseconds into that second, the two numbers from which chrono builds a
/// `DateTime<Utc>` with `DateTime::from_timestamp`.
#[derive(Clone, Copy, Debug, PartialEq, Eq, Structural)]
pub struct Timestamp {
    pub secs: i64,
    pub nanos: u32,
}

/// The current moment, read with chrono's `Utc::now` and split by
/// `DateTime::timestamp` and `DateTime::timestamp_subsec_nanos`. The contract
/// claims nothing about the value: it is whatever the system clock says.
/// chrono panics here if the clock is set before 1970.
#[verifier::external_body]
pub(crate) fn utc_now() -> Timestamp {
    let now = Utc::now();
    Timestamp { secs: now.timestamp(), nanos: now.timestamp_subsec_nanos() }
}

} // verus!
