//! Points in time on the device's second counter, and the distance between
//! two of them.

use vstd::prelude::*;

verus! {

/// One reading of the second counter.
///
/// Two readings are only ever compared through [`Instant::checked_duration_since`],
/// so that a reading which lies ahead of the other one gives no duration at
/// all instead of a huge one.
#[derive(Clone, Copy, Debug, PartialEq, Eq, Structural, Hash)]
pub struct Instant {
    pub ticks: u32,
}

impl Instant {
    /// The whole seconds from `earlier` to `self`, or `None` when `earlier`
    /// lies ahead of `self`.
    pub open spec fn elapsed_since(self, earlier: Instant) -> Option<u32> {
        if earlier.ticks <= self.ticks {
            Some((self.ticks - earlier.ticks) as u32)
        } else {
            None
        }
    }

    /// Whether at least `secs` seconds lie between `earlier` and `self`.
    pub open spec fn at_least_since(self, earlier: Instant, secs: u32) -> bool {
        earlier.ticks + secs <= self.ticks
    }

    pub fn new(ticks: u32) -> (t: Instant)
        ensures
            t.ticks == ticks,
    {
        Instant { ticks }
    }

    pub fn ticks(&self) -> (n: u32)
        ensures
            n == self.ticks,
    {
        self.ticks
    }

    /// The time that passed from `earlier` to `self`, in seconds.
    pub fn checked_duration_since(&self, earlier: &Instant) -> (d: Option<u32>)
        ensures
            d == self.elapsed_since(*earlier),
            d is Some <==> earlier.ticks <= self.ticks,
            d matches Some(secs) ==> secs == self.ticks - earlier.ticks,
    {
        self.ticks.checked_sub(earlier.ticks)
    }

    /// Whether `self` lies `secs` seconds or more after `earlier`.
    pub fn has_elapsed_since(&self, earlier: &Instant, secs: u32) -> (r: bool)
        ensures
            r == self.at_least_since(*earlier, secs),
            r <==> (self.elapsed_since(*earlier) matches Some(d) && d >= secs),
    {
        match self.checked_duration_since(earlier) {
            Some(d) => d >= secs,
            None => false,
        }
    }
}

} // verus!
