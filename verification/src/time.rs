//! UTC instants with millisecond precision, and their RFC 3339 text.

use vstd::prelude::*;

verus! {

/// Milliseconds in one minute.
pub const MILLIS_PER_MINUTE: i64 = 60_000;

/// The first instant whose RFC 3339 text is promised to read back:
/// `0001-01-01T00:00:00Z`.
pub const FIRST_STORABLE_MILLIS: i64 = -62_135_596_800_000;

/// The last instant whose RFC 3339 text is promised to read back:
/// `9999-12-31T23:59:59.999Z`.
pub const LAST_STORABLE_MILLIS: i64 = 253_402_300_799_999;

/// The RFC 3339 text that `chrono` prints for an instant given in
/// milliseconds since the Unix epoch, `None` outside the range of `chrono`.
pub uninterp spec fn rfc3339_text(millis: i64) -> Option<Seq<char>>;

/// The instant, in milliseconds since the Unix epoch and in UTC, that `chrono`
/// reads from an RFC 3339 text; `None` where it reads none.
pub uninterp spec fn rfc3339_millis(text: Seq<char>) -> Option<i64>;

/// `x` brought into the range of `i64`.
pub open spec fn clip_i64(x: int) -> int {
    if x < i64::MIN {
        i64::MIN as int
    } else if x > i64::MAX {
        i64::MAX as int
    } else {
        x
    }
}

/// An instant in UTC: milliseconds since `1970-01-01T00:00:00Z`.
#[derive(Clone, Copy, Debug, PartialEq, Eq, Structural, PartialOrd, Ord, Hash)]
pub struct Timestamp {
    pub millis: i64,
}

impl Timestamp {
    /// Whether the instant lies in the years 1 to 9999, where its RFC 3339
    /// text has a four-digit year and reads back as the same instant.
    pub open spec fn storable(self) -> bool {
        FIRST_STORABLE_MILLIS <= self.millis <= LAST_STORABLE_MILLIS
    }

    /// The instant `millis` milliseconds after the epoch.
    pub fn from_millis(millis: i64) -> (r: Timestamp)
        ensures
            r.millis == millis,
    {
        Timestamp { millis }
    }

    /// The instant `seconds` whole seconds after the epoch, `None` where that
    /// is more milliseconds than an `i64` holds.
    pub fn from_unix_seconds(seconds: i64) -> (r: Option<Timestamp>)
        ensures
            r is Some <==> i64::MIN <= seconds * 1000 <= i64::MAX,
            r matches Some(t) ==> t.millis == seconds * 1000,
    {
        match seconds.checked_mul(1000) {
            Some(m) => Some(Timestamp { millis: m }),
            None => None,
        }
    }

    /// Whether `self` is before `other`.
    pub fn is_before(&self, other: &Timestamp) -> (r: bool)
        ensures
            r == (self.millis < other.millis),
    {
        self.millis < other.millis
    }

    /// Whether `self` is after `other`.
    pub fn is_after(&self, other: &Timestamp) -> (r: bool)
        ensures
            r == (self.millis > other.millis),
    {
        self.millis > other.millis
    }

    /// The instant `delta` milliseconds later, `None` on overflow.
    pub fn checked_add_millis(&self, delta: i64) -> (r: Option<Timestamp>)
        ensures
            r is Some <==> i64::MIN <= self.millis + delta <= i64::MAX,
            r matches Some(t) ==> t.millis == self.millis + delta,
    {
        match self.millis.checked_add(delta) {
            Some(m) => Some(Timestamp { millis: m }),
            None => None,
        }
    }

    /// The instant `minutes` minutes later, brought into the range of `i64`
    /// where the sum leaves it.
    pub fn plus_minutes_clipped(&self, minutes: i64) -> (r: Timestamp)
        ensures
            r.millis == clip_i64(self.millis + minutes * MILLIS_PER_MINUTE),
    {
        let wide: i128 = (self.millis as i128) + (minutes as i128) * (MILLIS_PER_MINUTE as i128);
        if wide < i64::MIN as i128 {
            Timestamp { millis: i64::MIN }
        } else if wide > i64::MAX as i128 {
            Timestamp { millis: i64::MAX }
        } else {
            Timestamp { millis: wide as i64 }
        }
    }

    /// Whether `self` is no earlier than `minutes` minutes before `now`: the
    /// test of a lookback window, computed without overflow.
    pub fn within_minutes_before(&self, now: &Timestamp, minutes: i64) -> (r: bool)
        ensures
            r == (self.millis >= now.millis - minutes * MILLIS_PER_MINUTE),
    {
        let start: i128 = (now.millis as i128) - (minutes as i128) * (MILLIS_PER_MINUTE as i128);
        (self.millis as i128) >= start
    }

    /// The instant that an RFC 3339 text stands for, `None` where it stands
    /// for none.
    pub open spec fn spec_parse_rfc3339(text: Seq<char>) -> Option<Timestamp> {
        match rfc3339_millis(text) {
            Some(m) => Some(Timestamp { millis: m }),
            None => None,
        }
    }

    /// The RFC 3339 text of the instant, `None` where `chrono` cannot hold
    /// it. A storable instant always has a text, and that text reads back as
    /// the same instant.
    pub fn to_rfc3339(&self) -> (r: Option<String>)
        ensures
            r is Some <==> rfc3339_text(self.millis) is Some,
            r matches Some(s) ==> rfc3339_text(self.millis) == Some(s@),
            self.storable() ==> r is Some && Timestamp::spec_parse_rfc3339(r.unwrap()@) == Some(
                *self,
            ),
    {
        outside_rfc3339_text(self.millis)
    }

    /// Reads an RFC 3339 text as an instant in UTC, `None` where `chrono`
    /// reads none.
    pub fn parse_rfc3339(text: &str) -> (r: Option<Timestamp>)
        ensures
            r == Timestamp::spec_parse_rfc3339(text@),
    {
        match outside_rfc3339_millis(text) {
            Some(m) => Some(Timestamp { millis: m }),
            None => None,
        }
    }
}

/// `chrono::DateTime::from_timestamp_millis` followed by
/// `chrono::DateTime::to_rfc3339`. The contract names the text, and claims
/// that for an instant in the years 1 to 9999 there is a text and
/// `parse_from_rfc3339` reads it back as the same millisecond.
#[verifier::external_body]
fn outside_rfc3339_text(millis: i64) -> (r: Option<String>)
    ensures
        r is Some <==> rfc3339_text(millis) is Some,
        r matches Some(s) ==> rfc3339_text(millis) == Some(s@),
        FIRST_STORABLE_MILLIS <= millis <= LAST_STORABLE_MILLIS ==> r is Some && rfc3339_millis(
            r.unwrap()@,
        ) == Some(millis),
{
    match chrono::DateTime::from_timestamp_millis(millis) {
        Some(t) => Some(t.to_rfc3339()),
        None => None,
    }
}

/// `chrono::DateTime::parse_from_rfc3339` followed by
/// `chrono::DateTime::timestamp_millis`, which gives the instant in UTC
/// whatever offset the text carries. The contract names the result and claims
/// nothing of its value.
#[verifier::external_body]
fn outside_rfc3339_millis(text: &str) -> (r: Option<i64>)
    ensures
        r == rfc3339_millis(text@),
{
    match chrono::DateTime::parse_from_rfc3339(text) {
        Ok(t) => Some(t.timestamp_millis()),
        Err(_) => None,
    }
}

} // verus!
