//! Time as the library sees it: moments counted from the Unix epoch.

use vstd::prelude::*;

pub mod time_formatting;

verus! {

/// A moment: the whole seconds since the Unix epoch, and the nanoseconds
/// beyond them.
#[derive(Clone, Copy, Debug, PartialEq, Eq, Structural)]
pub struct Moment {
    pub secs: i64,
    pub nanos: u32,
}

/// The present moment. Reads the clock with `std::time::SystemTime::now`,
/// has `chrono` make a `chrono::DateTime<chrono::Utc>` of it, and takes
/// `chrono::DateTime::timestamp` and
/// `chrono::DateTime::timestamp_subsec_nanos` of that; a clock that stands
/// before the epoch gives a negative count of seconds. Nothing is claimed
/// of the value, which a clock decides.
#[verifier::external_body]
pub(crate) fn unix_now() -> Moment {
    let now = chrono::DateTime::<chrono::Utc>::from(std::time::SystemTime::now());
    Moment { secs: now.timestamp(), nanos: now.timestamp_subsec_nanos() }
}

} // verus!
