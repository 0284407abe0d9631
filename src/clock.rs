//! Instants in time, as seconds and nanoseconds since the Unix epoch (UTC).

use vstd::prelude::*;

verus! {

/// A point in time: whole seconds since 1970-01-01T00:00:00Z and the
/// nanoseconds within that second (more than a second's worth during a
/// leap second).
#[derive(Clone, Copy, Debug, PartialEq, Eq, Structural)]
pub struct Instant {
    pub secs: i64,
    pub nanos: u32,
}

impl Instant {
    /// `self` comes strictly before `other`.
    pub open spec fn spec_before(self, other: Instant) -> bool {
        self.secs < other.secs || (self.secs == other.secs && self.nanos < other.nanos)
    }

    #[verifier::when_used_as_spec(spec_before)]
    pub fn before(self, other: Instant) -> (r: bool)
        ensures
            r == self.spec_before(other),
    {
        self.secs < other.secs || (self.secs == other.secs && self.nanos < other.nanos)
    }
}

/// The instant that an RFC 3339 date-time text names, if the text is one.
pub uninterp spec fn rfc3339_instant(text: Seq<char>) -> Option<Instant>;

/// Relies on chrono's `DateTime::parse_from_rfc3339`, read back through
/// `timestamp` and `timestamp_subsec_nanos`: the parsed instant depends on the
/// text alone, and `None` stands for a parse error.
#[verifier::external_body]
pub(crate) fn parse_rfc3339(text: &str) -> (r: Option<Instant>)
    ensures
        r == rfc3339_instant(text@),
{
    match chrono::DateTime::parse_from_rfc3339(text) {
        Ok(t) => Some(Instant { secs: t.timestamp(), nanos: t.timestamp_subsec_nanos() }),
        Err(_) => None,
    }
}

/// Relies on chrono's `Utc::now`: reads the system clock, so nothing is
/// promised of the value. chrono panics if the clock reads a time before
/// 1970, which no argument can rule out.
#[verifier::external_body]
pub(crate) fn now() -> (r: Instant) {
    let t = chrono::Utc::now();
    Instant { secs: t.timestamp(), nanos: t.timestamp_subsec_nanos() }
}

} // verus!
