//! Instants on the UTC time line, held as plain integers.

use vstd::prelude::*;

verus! {

/// Seconds in one day.
pub const SECONDS_PER_DAY: i64 = 86_400;

/// Nanoseconds in one second: the exclusive upper bound of a sub-second part.
pub const NANOS_PER_SECOND: u32 = 1_000_000_000;

/// An instant: whole seconds since the Unix epoch, and the nanoseconds into
/// that second.
#[derive(Clone, Copy, Debug, PartialEq, Eq, Structural)]
pub struct Timestamp {
    pub secs: i64,
    pub nanos: u32,
}

impl Timestamp {
    /// The sub-second part stays below one second.
    pub open spec fn well_formed(self) -> bool {
        self.nanos < NANOS_PER_SECOND
    }

    /// `self` lies strictly earlier than `other`.
    pub open spec fn precedes(self, other: Timestamp) -> bool {
        self.secs < other.secs || (self.secs == other.secs && self.nanos < other.nanos)
    }

    /// The instant `days` whole days after `self`, as long as its seconds fit
    /// in an `i64`.
    pub open spec fn shifted_by_days(self, days: int) -> Option<Timestamp> {
        let secs = self.secs + days * SECONDS_PER_DAY;
        if i64::MIN <= secs <= i64::MAX {
            Some(Timestamp { secs: secs as i64, nanos: self.nanos })
        } else {
            None
        }
    }

    /// Builds an instant, refusing a sub-second part of a second or more.
    pub fn new(secs: i64, nanos: u32) -> (made: Option<Timestamp>)
        ensures
            nanos < NANOS_PER_SECOND ==> made == Some(Timestamp { secs, nanos }),
            nanos >= NANOS_PER_SECOND ==> made is None,
    {
        if nanos < NANOS_PER_SECOND {
            Some(Timestamp { secs, nanos })
        } else {
            None
        }
    }

    /// Builds an instant from a sub-second part that may count a leap second
    /// on top of its second: such a part is read as the last nanosecond of
    /// the second.
    pub fn clamped(secs: i64, nanos: u32) -> (made: Timestamp)
        ensures
            made.well_formed(),
            made.secs == secs,
            nanos < NANOS_PER_SECOND ==> made.nanos == nanos,
            nanos >= NANOS_PER_SECOND ==> made.nanos == NANOS_PER_SECOND - 1,
    {
        if nanos < NANOS_PER_SECOND {
            Timestamp { secs, nanos }
        } else {
            Timestamp { secs, nanos: NANOS_PER_SECOND - 1 }
        }
    }

    /// Whether `self` lies strictly earlier than `other`.
    pub fn is_before(&self, other: &Timestamp) -> (earlier: bool)
        ensures
            earlier == self.precedes(*other),
    {
        self.secs < other.secs || (self.secs == other.secs && self.nanos < other.nanos)
    }

    /// The instant exactly one day later, or `None` where that instant's
    /// seconds would leave the range of `i64`.
    pub fn one_day_later(&self) -> (later: Option<Timestamp>)
        ensures
            later == self.shifted_by_days(1),
    {
        match self.secs.checked_add(SECONDS_PER_DAY) {
            Some(secs) => Some(Timestamp { secs, nanos: self.nanos }),
            None => None,
        }
    }
}

/// Reads the present instant from the system clock.
///
/// Trusted: the body reads `std::time::SystemTime::now`, turns it into a
/// `chrono::DateTime<Utc>` with chrono's `From<SystemTime>` and takes the
/// result apart with `DateTime::timestamp` and
/// `DateTime::timestamp_subsec_nanos`. That conversion counts a clock that
/// stands before the Unix epoch backwards from it, so such a clock is an
/// instant like any other. The contract claims only that the sub-second
/// part is below one second, as it is for every instant the conversion
/// builds.
#[verifier::external_body]
pub(crate) fn current_time() -> (now: Timestamp)
    ensures
        now.well_formed(),
{
    let now = chrono::DateTime::<chrono::Utc>::from(std::time::SystemTime::now());
    Timestamp { secs: now.timestamp(), nanos: now.timestamp_subsec_nanos() }
}

/// The order of instants is strict: nothing precedes itself, and of two
/// distinct instants exactly one precedes the other.
pub proof fn precedes_is_a_strict_total_order(a: Timestamp, b: Timestamp, c: Timestamp)
    ensures
        !a.precedes(a),
        a.precedes(b) && b.precedes(c) ==> a.precedes(c),
        a != b ==> (a.precedes(b) <==> !b.precedes(a)),
{
}

} // verus!
