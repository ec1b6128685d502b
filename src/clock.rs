//! The local wall clock.

use chrono::{Datelike, Timelike};
use vstd::prelude::*;

use crate::time::{TimeOfDay, Weekday};

verus! {

/// Relies on chrono::Local::now, read through `Timelike` and `Datelike`: the
/// current local time of day and weekday. chrono keeps seconds since midnight
/// below 86400 and the nanoseconds below two billion, and holds a leap second
/// only in the last second of a minute.
#[verifier::external_body]
pub(crate) fn local_now() -> (r: (TimeOfDay, Weekday))
    ensures
        r.0.wf(),
{
    let now = chrono::Local::now().naive_local();
    let day = match now.weekday() {
        chrono::Weekday::Mon => Weekday::Mon,
        chrono::Weekday::Tue => Weekday::Tue,
        chrono::Weekday::Wed => Weekday::Wed,
        chrono::Weekday::Thu => Weekday::Thu,
        chrono::Weekday::Fri => Weekday::Fri,
        chrono::Weekday::Sat => Weekday::Sat,
        chrono::Weekday::Sun => Weekday::Sun,
    };
    (TimeOfDay { secs: now.num_seconds_from_midnight(), frac: now.nanosecond() }, day)
}

} // verus!
