use vstd::prelude::*;

verus! {

/// An instant in UTC: seconds since the Unix epoch and the nanoseconds past that second.
#[derive(Debug, Clone, Copy, PartialEq, Eq, Structural)]
pub struct Timestamp {
    seconds: i64,
    nanos: u32,
}

/// Reads the system clock through `chrono::Utc::now` and returns the instant as
/// (seconds since the epoch, nanoseconds past the second). The instant depends on
/// the clock alone; the source builds it from `SystemTime::now()`'s duration since
/// the epoch, whose sub-second part is below one second. (chrono panics if the clock
/// reads earlier than 1970, which no argument here controls.)
#[verifier::external_body]
fn utc_now_parts() -> (r: (i64, u32))
    ensures
        r.1 < 1_000_000_000,
{
    let now = chrono::Utc::now();
    (now.timestamp(), now.timestamp_subsec_nanos())
}

impl Timestamp {
    /// Seconds since the Unix epoch.
    pub closed spec fn seconds_spec(&self) -> i64 {
        self.seconds
    }

    /// Nanoseconds past the second.
    pub closed spec fn nanos_spec(&self) -> u32 {
        self.nanos
    }

    /// The current instant.
    pub fn now() -> (r: Timestamp)
        ensures
            r.nanos_spec() < 1_000_000_000,
    {
        let (seconds, nanos) = utc_now_parts();
        Timestamp { seconds, nanos }
    }

    /// Rebuilds an instant from its seconds and nanoseconds.
    pub fn from_parts(seconds: i64, nanos: u32) -> (r: Timestamp)
        ensures
            r.seconds_spec() == seconds,
            r.nanos_spec() == nanos,
    {
        Timestamp { seconds, nanos }
    }

    /// Seconds since the Unix epoch.
    pub fn seconds(&self) -> (r: i64)
        ensures
            r == self.seconds_spec(),
    {
        self.seconds
    }

    /// Nanoseconds past the second.
    pub fn nanos(&self) -> (r: u32)
        ensures
            r == self.nanos_spec(),
    {
        self.nanos
    }
}

} // verus!
