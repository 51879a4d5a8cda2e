//! Instants, and the clock they are read from.

use vstd::prelude::*;

verus! {

/// An instant in UTC: the whole seconds since 1970-01-01 00:00:00, and the
/// nanoseconds since the last of them.
#[derive(Clone, Copy, Debug, PartialEq, Eq, Structural)]
pub struct Timestamp {
    pub secs: i64,
    pub nanos: u32,
}

/// The seconds of the last instant that `chrono` can hold: the end of the
/// year 262142.
pub const LAST_SECOND: i64 = 8_210_266_876_799;

impl Timestamp {
    /// Whether the instant is one that the clock can give: not before 1970,
    /// not after the last instant that `chrono` can hold, and with less than
    /// a second's worth of nanoseconds.
    pub open spec fn is_clock_reading(self) -> bool {
        0 <= self.secs <= LAST_SECOND && self.nanos < 1_000_000_000
    }
}

/// `chrono::Utc::now`, taken apart by `DateTime::timestamp` and
/// `DateTime::timestamp_subsec_nanos`. Which instant comes back is the
/// system clock's matter. `Utc::now` makes it from the time that has passed
/// since 1970, whose sub-second part is below a second, with
/// `DateTime::from_timestamp`, which gives no instant after
/// `DateTime::MAX_UTC`. It does not return where the clock stands before 1970
/// or after that instant.
#[verifier::external_body]
pub(crate) fn utc_now() -> (now: Timestamp)
    ensures
        now.is_clock_reading(),
{
    let now = chrono::Utc::now();
    Timestamp { secs: now.timestamp(), nanos: now.timestamp_subsec_nanos() }
}

} // verus!
