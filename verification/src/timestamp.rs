//! The 64-bit fixed-point timestamp of the NTP header.

use vstd::prelude::*;

verus! {

/// Seconds from the NTP epoch (1900-01-01T00:00:00Z) to the Unix epoch
/// (1970-01-01T00:00:00Z).
pub const NTP_UNIX_OFFSET: i64 = 2_208_988_800;

/// A point in time as a server reports it: whole seconds since the NTP epoch
/// and a binary fraction of a second, in units of 2^-32 s.
///
/// Both fields are the raw values of the wire; every pair is a valid timestamp.
#[derive(Clone, Copy, Debug, PartialEq, Eq)]
pub struct Timestamp {
    pub seconds: u32,
    pub fraction: u32,
}

impl Timestamp {
    /// The timestamp's whole seconds counted from the Unix epoch.
    pub open spec fn unix_seconds(self) -> int {
        self.seconds - NTP_UNIX_OFFSET
    }

    /// Converts the whole seconds to Unix time. A timestamp before 1970 gives
    /// a negative number; the fraction plays no part.
    pub fn unix_time(self) -> (unix: i64)
        ensures
            unix == self.unix_seconds(),
            unix == self.seconds - 2_208_988_800,
    {
        self.seconds as i64 - NTP_UNIX_OFFSET
    }
}

/// Unix time is negative exactly for timestamps before the Unix epoch, zero at
/// it, and grows by one with each second; it never leaves the range of `i64`.
pub proof fn lemma_unix_time_sign(t: Timestamp)
    ensures
        t.seconds < NTP_UNIX_OFFSET <==> t.unix_seconds() < 0,
        t.seconds == NTP_UNIX_OFFSET <==> t.unix_seconds() == 0,
        -NTP_UNIX_OFFSET <= t.unix_seconds() <= u32::MAX - NTP_UNIX_OFFSET,
{
}

/// Unix time depends on the seconds alone and keeps their order and distance.
pub proof fn lemma_unix_time_is_shift(a: Timestamp, b: Timestamp)
    ensures
        a.unix_seconds() - b.unix_seconds() == a.seconds - b.seconds,
{
}

} // verus!
