//! Points in time.

use vstd::prelude::*;
use vstd::string::*;

verus! {

/// A point in time: the seconds since 1970-01-01T00:00:00Z and the nanoseconds
/// since the last of them.
#[derive(Debug, Clone, Copy, PartialEq, Eq, Structural)]
pub struct Instant {
    pub secs: i64,
    pub nanos: u32,
}

impl Instant {
    /// Whether this point comes before the other.
    pub open spec fn earlier(self, other: Instant) -> bool {
        self.secs < other.secs || (self.secs == other.secs && self.nanos < other.nanos)
    }

    /// Whether this point comes before the other.
    pub fn is_before(&self, other: &Instant) -> (r: bool)
        ensures
            r == self.earlier(*other),
    {
        self.secs < other.secs || (self.secs == other.secs && self.nanos < other.nanos)
    }
}

/// The time now, with its RFC 3339 text.
pub struct Now {
    pub instant: Instant,
    pub text: String,
}

/// The point in time that `chrono` reads from an RFC 3339 text; `None` where it
/// reports an error.
pub uninterp spec fn rfc3339_instant(text: Seq<char>) -> Option<Instant>;

/// Whether a text is written as `chrono` writes the time of a clock in RFC 3339:
/// it can be read back as a point in time since 1970, or has the sign in front
/// that stands before a year of more than four digits.
pub open spec fn timestamp(text: Seq<char>) -> bool {
    ||| rfc3339_instant(text) matches Some(instant) && 0 <= instant.secs
    ||| text.len() > 0 && text[0] == '+'
}

/// The time now, from `chrono::Utc::now`; the text is that of `to_rfc3339`. It
/// is never before 1970, and the text can be read back, unless the year has more
/// than four digits; then it begins with a sign. What time it is is left unsaid:
/// that depends on the clock.
#[verifier::external_body]
pub(crate) fn utc_now() -> (r: Now)
    ensures
        0 <= r.instant.secs,
        rfc3339_instant(r.text@) == Some(r.instant) || (r.text@.len() > 0 && r.text@[0] == '+'),
{
    let now = chrono::Utc::now();
    Now {
        instant: Instant { secs: now.timestamp(), nanos: now.timestamp_subsec_nanos() },
        text: now.to_rfc3339(),
    }
}

/// The point in time of an RFC 3339 text, from
/// `chrono::DateTime::parse_from_rfc3339`. What the text denotes is left
/// unspecified beyond being a function of it; the error is dropped.
#[verifier::external_body]
pub(crate) fn parse_rfc3339(text: &str) -> (r: Option<Instant>)
    ensures
        r == rfc3339_instant(text@),
{
    chrono::DateTime::parse_from_rfc3339(text).ok().map(
        |t| Instant { secs: t.timestamp(), nanos: t.timestamp_subsec_nanos() },
    )
}

} // verus!
