//! Points in time, as seconds and nanoseconds since the Unix epoch, in UTC.
use chrono::{DateTime, Utc};
use vstd::prelude::*;

verus! {

/// The first second of the calendar: the start of 1 January of the year -262143.
pub const FIRST_SECOND: i64 = -8334601228800;

/// The last second of the calendar: the end of 31 December of the year 262142.
pub const LAST_SECOND: i64 = 8210266876799;

/// Nanoseconds in one second.
pub const NANOS_PER_SECOND: u32 = 1_000_000_000;

/// Whether seconds and nanoseconds denote a point of the calendar. The nanoseconds may run on
/// through a second second only where a leap second can stand, at the end of a minute.
pub open spec fn in_calendar(seconds: i64, nanos: u32) -> bool {
    &&& FIRST_SECOND <= seconds <= LAST_SECOND
    &&& nanos < NANOS_PER_SECOND || (nanos < 2 * NANOS_PER_SECOND && seconds as int % 60 == 59)
}

/// What `DateTime::<Utc>::to_rfc3339` writes for the point that `DateTime::from_timestamp` makes
/// of these seconds and nanoseconds.
pub uninterp spec fn rfc3339_utc(seconds: i64, nanos: u32) -> Seq<char>;

/// Whether `c` is one of the characters that an RFC 3339 date and time is made of.
pub open spec fn is_rfc3339_char(c: char) -> bool {
    ('0' <= c && c <= '9') || c == '+' || c == '-' || c == ':' || c == '.' || c == 'T'
}

/// Whether a text is made of these characters.
pub open spec fn is_time_notation(text: Seq<char>) -> bool {
    forall|i: int| 0 <= i < text.len() ==> is_rfc3339_char(#[trigger] text[i])
}

/// Calls `chrono::DateTime::to_rfc3339` on the point in time that `DateTime::from_timestamp` makes
/// of the seconds and nanoseconds.
///
/// Trusted: inside the calendar `from_timestamp` yields a point; the text is a function of the two
/// numbers, and is made of digits, signs, colons, the dot before a fraction and the letter `T`.
/// Which date and time of day the digits spell is not stated.
#[verifier::external_body]
fn to_rfc3339(seconds: i64, nanos: u32) -> (text: String)
    requires
        in_calendar(seconds, nanos),
    ensures
        text@ == rfc3339_utc(seconds, nanos),
        is_time_notation(text@),
{
    DateTime::from_timestamp(seconds, nanos).unwrap_or_default().to_rfc3339()
}

/// Reads the clock with `chrono::Utc::now`. Which time the clock shows is not stated.
///
/// Trusted: the reading lies in the calendar, not before the Unix epoch, and is never within a leap
/// second. A system clock that stands before the epoch makes `Utc::now` panic.
#[verifier::external_body]
fn utc_now() -> (reading: (i64, u32))
    ensures
        0 <= reading.0,
        in_calendar(reading.0, reading.1),
        reading.1 < NANOS_PER_SECOND,
{
    let now = Utc::now();
    (now.timestamp(), now.timestamp_subsec_nanos())
}

/// A point in time in UTC.
#[derive(Clone, Copy, Debug)]
pub struct Timestamp {
    seconds: i64,
    nanos: u32,
}

impl Timestamp {
    #[verifier::type_invariant]
    pub closed spec fn well_formed(self) -> bool {
        in_calendar(self.seconds, self.nanos)
    }

    /// Whole seconds since the Unix epoch.
    pub closed spec fn spec_seconds(self) -> i64 {
        self.seconds
    }

    /// Nanoseconds since the last whole second.
    pub closed spec fn spec_nanos(self) -> u32 {
        self.nanos
    }

    /// Whether the clock has been read, and this is what it showed.
    pub closed spec fn is_clock_reading(self) -> bool {
        call_ensures(utc_now, (), (self.seconds, self.nanos))
    }

    /// Nanoseconds since the Unix epoch.
    pub open spec fn total_nanos(self) -> int {
        self.spec_seconds() * NANOS_PER_SECOND + self.spec_nanos()
    }

    /// The RFC 3339 text of this point in time.
    pub open spec fn spec_rfc3339(self) -> Seq<char> {
        rfc3339_utc(self.spec_seconds(), self.spec_nanos())
    }

    /// The point in time at these seconds and nanoseconds, if the calendar has it.
    pub fn new(seconds: i64, nanos: u32) -> (point: Option<Timestamp>)
        ensures
            point is Some <==> in_calendar(seconds, nanos),
            point matches Some(t) ==> t.spec_seconds() == seconds && t.spec_nanos() == nanos,
    {
        if seconds < FIRST_SECOND || LAST_SECOND < seconds {
            return None;
        }
        if nanos >= NANOS_PER_SECOND {
            if nanos >= 2 * NANOS_PER_SECOND || (seconds - FIRST_SECOND) % 60 != 59 {
                return None;
            }
        }
        Some(Timestamp { seconds, nanos })
    }

    /// The current time.
    pub fn now() -> (point: Timestamp)
        ensures
            point.is_clock_reading(),
            0 <= point.spec_seconds(),
            in_calendar(point.spec_seconds(), point.spec_nanos()),
            point.spec_nanos() < NANOS_PER_SECOND,
    {
        let (seconds, nanos) = utc_now();
        Timestamp { seconds, nanos }
    }

    /// Whole seconds since the Unix epoch.
    pub fn seconds(&self) -> (r: i64)
        ensures
            r == self.spec_seconds(),
            FIRST_SECOND <= r <= LAST_SECOND,
    {
        proof {
            use_type_invariant(self);
        }
        self.seconds
    }

    /// Nanoseconds since the last whole second.
    pub fn nanos(&self) -> (r: u32)
        ensures
            r == self.spec_nanos(),
            in_calendar(self.spec_seconds(), r),
    {
        proof {
            use_type_invariant(self);
        }
        self.nanos
    }

    /// This point in time in the notation of RFC 3339.
    pub fn rfc3339(&self) -> (text: String)
        ensures
            text@ == self.spec_rfc3339(),
            is_time_notation(text@),
    {
        proof {
            use_type_invariant(self);
        }
        to_rfc3339(self.seconds, self.nanos)
    }

    /// Whole minutes from `earlier` to this point; none if `earlier` is later.
    pub fn minutes_since(&self, earlier: &Timestamp) -> (minutes: u64)
        ensures
            minutes == minutes_between(*earlier, *self),
    {
        proof {
            use_type_invariant(self);
            use_type_invariant(earlier);
        }
        let then: i128 = earlier.seconds as i128 * 1_000_000_000 + earlier.nanos as i128;
        let now: i128 = self.seconds as i128 * 1_000_000_000 + self.nanos as i128;
        if now <= then {
            0
        } else {
            ((now - then) / 60_000_000_000) as u64
        }
    }
}

/// The current time is the reading of the clock, to the nanosecond: nothing is rounded or shifted.
proof fn law_now_is_the_clock_reading(point: Timestamp)
    requires
        call_ensures(Timestamp::now, (), point),
    ensures
        call_ensures(utc_now, (), (point.spec_seconds(), point.spec_nanos())),
{
}

/// Whole minutes from `from` to `to`; none if `to` comes first.
pub open spec fn minutes_between(from: Timestamp, to: Timestamp) -> int {
    if to.total_nanos() <= from.total_nanos() {
        0
    } else {
        (to.total_nanos() - from.total_nanos()) / 60_000_000_000
    }
}

} // verus!
