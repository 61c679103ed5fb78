//! Instants on the UTC time line, as the records of a todo list carry them.

use vstd::prelude::*;

verus! {

/// An instant: whole seconds since 1970-01-01T00:00:00Z and the nanoseconds
/// past that second.
///
/// `nanos` may reach 1_999_999_999 while a leap second is being counted, so
/// two instants are ordered by `secs` first and by `nanos` second.
#[derive(Clone, Copy, Debug, PartialEq, Eq, Structural)]
pub struct Timestamp {
    pub secs: i64,
    pub nanos: u32,
}

impl Timestamp {
    /// `self` is not later than `other`.
    pub open spec fn le(self, other: Timestamp) -> bool {
        self.secs < other.secs || (self.secs == other.secs && self.nanos <= other.nanos)
    }

    /// The instant `nanos` nanoseconds past the second `secs`.
    pub fn new(secs: i64, nanos: u32) -> (t: Timestamp)
        ensures
            t == (Timestamp { secs, nanos }),
    {
        Timestamp { secs, nanos }
    }

    /// Whether `self` is not later than `other`.
    pub fn is_le(&self, other: &Timestamp) -> (b: bool)
        ensures
            b == self.le(*other),
    {
        self.secs < other.secs || (self.secs == other.secs && self.nanos <= other.nanos)
    }

    /// The instant counts no leap second: its nanoseconds stay below one
    /// second.
    pub open spec fn within_second(self) -> bool {
        self.nanos < 1_000_000_000
    }

    /// The present instant by the system clock. The clock may be set to any
    /// time, so two readings need not be in order; but a reading never
    /// counts a leap second.
    pub fn now() -> (now: Timestamp)
        ensures
            now.within_second(),
    {
        system_time()
    }
}

/// Calls `chrono::Local::now` and keeps the instant it returns: the value of
/// its `timestamp()` and of its `timestamp_subsec_nanos()`.
///
/// chrono makes that instant from the time that has passed since the start
/// of 1970, as whole seconds and a fraction of a second in nanoseconds, and
/// the change to local time leaves the instant as it is: so `nanos` is below
/// 1_000_000_000. Nothing else is claimed, since the system clock can be set
/// to any time. Like `Local::now` itself, the call panics if the clock is
/// set before 1970.
#[verifier::external_body]
fn system_time() -> (now: Timestamp)
    ensures
        now.nanos < 1_000_000_000,
{
    let now = chrono::Local::now();
    Timestamp { secs: now.timestamp(), nanos: now.timestamp_subsec_nanos() }
}

} // verus!
