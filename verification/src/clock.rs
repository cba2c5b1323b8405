//! Wall-clock readings: the plain triple the rest of the library works on,
//! and the one trusted call that obtains it from the local clock.

use vstd::prelude::*;
use chrono::Timelike;

verus! {

/// One reading of the local wall clock.
#[derive(Clone, Copy, Debug, PartialEq, Eq, Structural)]
pub struct TimeReading {
    pub hour: u32,
    pub minute: u32,
    pub second: u32,
}

impl TimeReading {
    /// A reading denotes a real time of day.
    pub open spec fn valid(self) -> bool {
        self.hour < 24 && self.minute < 60 && self.second < 60
    }
}

/// Relies on chrono's `Local::now` together with the `Timelike` accessors:
/// `hour` is documented to return the hour number from 0 to 23, and `minute`
/// and `second` the minute and second numbers from 0 to 59. The reading
/// itself depends on the wall clock, so nothing more is promised of it.
#[verifier::external_body]
pub(crate) fn read_local_time() -> (t: TimeReading)
    ensures
        t.valid(),
{
    let now = chrono::Local::now();
    TimeReading { hour: now.hour(), minute: now.minute(), second: now.second() }
}

} // verus!
