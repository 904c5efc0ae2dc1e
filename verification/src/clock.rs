//! The wall clock, read once per operation.

use vstd::prelude::*;

verus! {

/// An instant in UTC.
#[derive(Clone, Copy, Debug, PartialEq, Eq, Structural)]
pub struct Instant {
    /// Whole seconds since the Unix epoch.
    pub secs: i64,
    /// Nanoseconds since the last second boundary.
    pub nanos: u32,
}

/// A reading of the wall clock: the instant, and the same instant as RFC 3339 text.
#[derive(Clone, Debug, PartialEq, Eq)]
pub struct Moment {
    pub at: Instant,
    pub text: String,
}

/// Reads the clock through `chrono::Utc::now`, and takes from that one reading
/// `DateTime::timestamp`, `DateTime::timestamp_subsec_nanos` and
/// `DateTime::to_rfc3339`. Nothing is claimed of the reading: it is whatever the
/// machine's clock says. `Utc::now` stops the process where the system time lies
/// before the Unix epoch.
#[verifier::external_body]
pub(crate) fn read_clock() -> (now: Moment) {
    let now = chrono::Utc::now();
    Moment {
        at: Instant { secs: now.timestamp(), nanos: now.timestamp_subsec_nanos() },
        text: now.to_rfc3339(),
    }
}

} // verus!
