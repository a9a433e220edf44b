//! Readings of the wall clock.

use vstd::prelude::*;

verus! {

/// A reading of the wall clock: seconds and nanoseconds since the Unix
/// epoch. Its fields are private and only `clock_now` makes one, so a
/// reading in hand is one that the clock gave.
#[derive(Clone, Copy, Debug)]
pub struct ClockReading {
    secs: u64,
    nanos: u32,
}

impl ClockReading {
    /// The whole seconds since the Unix epoch.
    pub closed spec fn seconds(self) -> u64 {
        self.secs
    }

    /// The nanoseconds past those seconds.
    pub closed spec fn nanoseconds(self) -> u32 {
        self.nanos
    }

    /// The whole seconds since the Unix epoch.
    pub fn secs(&self) -> (res: u64)
        ensures
            res == self.seconds(),
    {
        self.secs
    }

    /// The nanoseconds past those seconds.
    pub fn nanos(&self) -> (res: u32)
        ensures
            res == self.nanoseconds(),
    {
        self.nanos
    }
}

/// Reads the clock: seconds and nanoseconds since the Unix epoch (zero
/// before it). Nothing is claimed of the values: they depend on the time.
#[verifier::external_body]
pub(crate) fn clock_now() -> (res: ClockReading) {
    match std::time::SystemTime::now().duration_since(std::time::UNIX_EPOCH) {
        Ok(d) => ClockReading { secs: d.as_secs(), nanos: d.subsec_nanos() },
        Err(_) => ClockReading { secs: 0, nanos: 0 },
    }
}

} // verus!
