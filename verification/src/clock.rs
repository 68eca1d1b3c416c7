//! Points in time, and the one place where the wall clock is read.

use vstd::prelude::*;

verus! {

/// A point in time on the UTC time line: whole seconds since the start of
/// 1970 and the nanoseconds into that second.
#[derive(Debug, Clone, Copy, PartialEq, Eq, Structural)]
pub struct Timestamp {
    pub secs: i64,
    pub nanos: u32,
}

/// Reads the wall clock.
///
/// Trusted: calls `chrono::Utc::now` and takes the reading apart with
/// `DateTime::timestamp` and `DateTime::timestamp_subsec_nanos`. The reading
/// itself is whatever the machine's clock says, so nothing is claimed of it
/// beyond what chrono builds every reading from: a sub-second part below one
/// second. chrono panics if the machine's clock stands before 1970.
#[verifier::external_body]
pub(crate) fn now() -> (at: Timestamp)
    ensures
        at.nanos < 1_000_000_000,
{
    let at = chrono::Utc::now().naive_utc().and_utc();
    Timestamp { secs: at.timestamp(), nanos: at.timestamp_subsec_nanos() }
}

} // verus!
