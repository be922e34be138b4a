//! Instants on the UTC time line, at nanosecond resolution.

use vstd::prelude::*;

verus! {

/// Nanoseconds in one second.
pub const NANOS_PER_SECOND: u32 = 1_000_000_000;

/// An instant: whole seconds since the Unix epoch and the nanoseconds into
/// that second.
#[derive(Clone, Copy, Debug, PartialEq, Eq, Structural)]
pub struct Timestamp {
    seconds: i64,
    nanos: u32,
}

impl Timestamp {
    #[verifier::type_invariant]
    spec fn subsecond_in_range(self) -> bool {
        self.nanos < NANOS_PER_SECOND
    }

    /// Whole seconds since the Unix epoch, rounded towards the past.
    pub closed spec fn spec_unix_timestamp(&self) -> i64 {
        self.seconds
    }

    /// Nanoseconds into the current second.
    pub closed spec fn spec_nanosecond(&self) -> u32 {
        self.nanos
    }

    /// Nanoseconds since the Unix epoch.
    pub open spec fn as_nanos(&self) -> int {
        self.spec_unix_timestamp() * 1_000_000_000 + self.spec_nanosecond()
    }

    /// The instant `nanos` nanoseconds after the whole second `seconds`;
    /// nothing when `nanos` does not lie within one second.
    pub fn new(seconds: i64, nanos: u32) -> (r: Option<Timestamp>)
        ensures
            r is Some <==> nanos < NANOS_PER_SECOND,
            r matches Some(t) ==> t.spec_unix_timestamp() == seconds && t.spec_nanosecond()
                == nanos,
    {
        if nanos < NANOS_PER_SECOND {
            Some(Timestamp { seconds, nanos })
        } else {
            None
        }
    }

    /// The instant at the start of the whole second `seconds`.
    pub fn from_unix_timestamp(seconds: i64) -> (t: Timestamp)
        ensures
            t.spec_unix_timestamp() == seconds,
            t.spec_nanosecond() == 0,
    {
        Timestamp { seconds, nanos: 0 }
    }

    /// Whole seconds since the Unix epoch, rounded towards the past.
    #[verifier::when_used_as_spec(spec_unix_timestamp)]
    pub fn unix_timestamp(&self) -> (s: i64)
        ensures
            s == self.spec_unix_timestamp(),
    {
        self.seconds
    }

    /// Nanoseconds into the current second, always less than a second.
    #[verifier::when_used_as_spec(spec_nanosecond)]
    pub fn nanosecond(&self) -> (n: u32)
        ensures
            n == self.spec_nanosecond(),
            n < NANOS_PER_SECOND,
    {
        proof {
            use_type_invariant(self);
        }
        self.nanos
    }

    /// Nanoseconds since the Unix epoch. No instant is out of its range.
    pub fn unix_timestamp_nanos(&self) -> (n: i128)
        ensures
            n == self.as_nanos(),
    {
        self.seconds as i128 * 1_000_000_000 + self.nanos as i128
    }
}

/// Two instants with the same parts are the same instant.
pub proof fn lemma_timestamp_parts(a: Timestamp, b: Timestamp)
    requires
        a.unix_timestamp() == b.unix_timestamp(),
        a.nanosecond() == b.nanosecond(),
    ensures
        a == b,
{
}

/// Reads the system clock with `time::OffsetDateTime::now_utc` and hands the
/// reading back as seconds since the Unix epoch and nanoseconds into the
/// second. Nothing is claimed of the instant itself; of its parts, that the
/// nanoseconds lie within one second, as `OffsetDateTime::nanosecond`
/// documents. The call panics where the machine's clock is set to a year
/// that `time` cannot hold, beyond 9999.
#[verifier::external_body]
pub(crate) fn now_utc() -> (now: Timestamp)
    ensures
        now.nanosecond() < NANOS_PER_SECOND,
{
    let reading = time::OffsetDateTime::now_utc();
    Timestamp { seconds: reading.unix_timestamp(), nanos: reading.nanosecond() }
}

} // verus!
