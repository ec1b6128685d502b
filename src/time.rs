//! Wall-clock times of day and weekdays, held as plain values.

use vstd::prelude::*;

verus! {

/// Seconds in one day.
pub const SECONDS_PER_DAY: u32 = 86400;

/// Bound on the sub-second part; values from one billion on stand for a leap second.
pub const FRACTION_LIMIT: u32 = 2_000_000_000;

/// Sub-second parts from this value on stand for a leap second.
pub const LEAP_FRACTION: u32 = 1_000_000_000;

/// A time of day: whole seconds since midnight and the nanoseconds past them.
///
/// Times are ordered by `secs`, then by `frac`.
#[derive(Clone, Copy, Debug, PartialEq, Eq, Structural)]
pub struct TimeOfDay {
    pub secs: u32,
    pub frac: u32,
}

impl TimeOfDay {
    /// The value is a real time of day: a leap second follows only the last
    /// second of a minute.
    pub open spec fn wf(self) -> bool {
        &&& self.secs < SECONDS_PER_DAY
        &&& self.frac < FRACTION_LIMIT
        &&& (self.frac >= LEAP_FRACTION ==> self.secs % 60 == 59)
    }

    pub open spec fn spec_lt(self, other: TimeOfDay) -> bool {
        self.secs < other.secs || (self.secs == other.secs && self.frac < other.frac)
    }

    pub open spec fn spec_le(self, other: TimeOfDay) -> bool {
        self.secs < other.secs || (self.secs == other.secs && self.frac <= other.frac)
    }

    /// `self` comes strictly before `other`.
    pub fn is_before(&self, other: &TimeOfDay) -> (r: bool)
        ensures
            r == self.spec_lt(*other),
    {
        self.secs < other.secs || (self.secs == other.secs && self.frac < other.frac)
    }

    /// `self` comes before `other` or equals it.
    pub fn is_at_or_before(&self, other: &TimeOfDay) -> (r: bool)
        ensures
            r == self.spec_le(*other),
    {
        self.secs < other.secs || (self.secs == other.secs && self.frac <= other.frac)
    }

    /// The time `hour:minute:second`, or `None` when a component is out of range.
    pub fn from_hms(hour: u32, minute: u32, second: u32) -> (r: Option<TimeOfDay>)
        ensures
            r.is_some() <==> (hour < 24 && minute < 60 && second < 60),
            r.is_some() ==> r.unwrap().wf() && r.unwrap().frac == 0 && r.unwrap().secs == hour
                * 3600 + minute * 60 + second,
    {
        if hour < 24 && minute < 60 && second < 60 {
            Some(TimeOfDay { secs: hour * 3600 + minute * 60 + second, frac: 0 })
        } else {
            None
        }
    }

    /// Midnight, the start of the day.
    pub fn midnight() -> (r: TimeOfDay)
        ensures
            r.wf(),
            r.secs == 0 && r.frac == 0,
    {
        TimeOfDay { secs: 0, frac: 0 }
    }
}

/// A day of the week.
#[derive(Clone, Copy, Debug, PartialEq, Eq, Structural)]
pub enum Weekday {
    Mon,
    Tue,
    Wed,
    Thu,
    Fri,
    Sat,
    Sun,
}

} // verus!
