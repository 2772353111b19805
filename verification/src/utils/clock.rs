//! Instants and their RFC 3339 text. The system clock and the calendar
//! arithmetic behind the text come from `chrono`; the arithmetic on instants
//! is done here.
use vstd::prelude::*;

verus! {

/// A point in time: whole seconds since 1970-01-01T00:00:00Z and the
/// nanoseconds since the last whole second.
#[derive(Debug, Clone, Copy, PartialEq, Eq, Structural)]
pub struct Instant {
    pub secs: i64,
    pub nanos: u32,
}

pub const NANOS_PER_SECOND: i64 = 1_000_000_000;

/// The RFC 3339 text that `chrono` writes for the UTC instant with the given
/// seconds and nanoseconds, or `None` for a pair that it cannot represent.
pub uninterp spec fn chrono_rfc3339(secs: i64, nanos: u32) -> Option<Seq<char>>;

/// The text that stands for an instant too far from now to be written as
/// a date: the latest date that can be written.
pub const LATEST_INSTANT_TEXT: &'static str = "+262142-12-31T23:59:59.999999999+00:00";

/// The text of the UTC instant with the given seconds and nanoseconds: its
/// RFC 3339 text, or the text of the latest date where it has none.
pub open spec fn rfc3339_text(secs: i64, nanos: u32) -> Seq<char> {
    match chrono_rfc3339(secs, nanos) {
        Some(text) => text,
        None => LATEST_INSTANT_TEXT@,
    }
}

/// The instant that `chrono` reads from an RFC 3339 text, as seconds and
/// nanoseconds, or `None` where the text is not valid RFC 3339.
pub uninterp spec fn rfc3339_instant(text: Seq<char>) -> Option<(i64, u32)>;

/// Nanoseconds from `earlier` to `later`; negative when `later` is the
/// earlier of the two.
pub open spec fn nanos_between(earlier: Instant, later: Instant) -> int {
    (later.secs - earlier.secs) * 1_000_000_000 + (later.nanos - earlier.nanos)
}

/// `a` is strictly earlier than `b`.
pub open spec fn instant_lt(a: Instant, b: Instant) -> bool {
    a.secs < b.secs || (a.secs == b.secs && a.nanos < b.nanos)
}

/// `t` moved forward by `seconds`, stopping at the ends of the `i64` range.
pub open spec fn shifted(t: Instant, seconds: i64) -> Instant {
    let s = t.secs + seconds;
    Instant {
        secs: if s > i64::MAX {
            i64::MAX
        } else if s < i64::MIN {
            i64::MIN
        } else {
            s as i64
        },
        nanos: t.nanos,
    }
}

/// The current time of the system clock.
///
/// Calls `chrono::Utc::now` and reads the instant with `timestamp` and
/// `timestamp_subsec_nanos`. Nothing is claimed of the value.
#[verifier::external_body]
pub(crate) fn system_now() -> Instant {
    let now = chrono::Utc::now();
    Instant { secs: now.timestamp(), nanos: now.timestamp_subsec_nanos() }
}

/// The RFC 3339 text of an instant, if it has one.
///
/// Calls `chrono::DateTime::from_timestamp` and, where that gives a date,
/// writes it with `to_rfc3339`; the result is the value named
/// [`chrono_rfc3339`].
#[verifier::external_body]
pub(crate) fn write_rfc3339(t: Instant) -> (r: Option<String>)
    ensures
        match r {
            Some(text) => chrono_rfc3339(t.secs, t.nanos) == Some(text@),
            None => chrono_rfc3339(t.secs, t.nanos) is None,
        },
{
    match chrono::DateTime::from_timestamp(t.secs, t.nanos) {
        Some(date) => Some(date.to_rfc3339()),
        None => None,
    }
}

/// The text of an instant: its RFC 3339 text, or the text of the latest
/// date for an instant that cannot be written as a date.
pub fn format_instant(t: Instant) -> (r: String)
    ensures
        r@ == rfc3339_text(t.secs, t.nanos),
{
    match write_rfc3339(t) {
        Some(text) => text,
        None => LATEST_INSTANT_TEXT.to_string(),
    }
}

/// The instant written in an RFC 3339 text.
///
/// Calls `chrono::DateTime::parse_from_rfc3339` and reads the instant with
/// `timestamp` and `timestamp_subsec_nanos`; the result is the value named
/// [`rfc3339_instant`].
#[verifier::external_body]
pub(crate) fn parse_instant(text: &str) -> (r: Option<Instant>)
    ensures
        match r {
            Some(t) => rfc3339_instant(text@) == Some((t.secs, t.nanos)),
            None => rfc3339_instant(text@) is None,
        },
{
    match chrono::DateTime::parse_from_rfc3339(text) {
        Ok(d) => Some(Instant { secs: d.timestamp(), nanos: d.timestamp_subsec_nanos() }),
        Err(_) => None,
    }
}

impl Instant {
    /// This instant moved forward by `seconds`.
    pub fn plus_seconds(&self, seconds: i64) -> (r: Instant)
        ensures
            r == shifted(*self, seconds),
    {
        let secs: i64 = if seconds >= 0 {
            if self.secs > i64::MAX - seconds {
                i64::MAX
            } else {
                self.secs + seconds
            }
        } else {
            if self.secs < i64::MIN - seconds {
                i64::MIN
            } else {
                self.secs + seconds
            }
        };
        Instant { secs, nanos: self.nanos }
    }

    /// Whether this instant is strictly earlier than `other`.
    pub fn is_before(&self, other: &Instant) -> (r: bool)
        ensures
            r == instant_lt(*self, *other),
    {
        self.secs < other.secs || (self.secs == other.secs && self.nanos < other.nanos)
    }

    /// Whether fewer than `seconds` whole seconds have passed from `earlier`
    /// to this instant.
    pub fn within_seconds_of(&self, earlier: &Instant, seconds: u32) -> (r: bool)
        ensures
            r == (nanos_between(*earlier, *self) < seconds * 1_000_000_000),
    {
        let ds: i128 = self.secs as i128 - earlier.secs as i128;
        let dn: i128 = self.nanos as i128 - earlier.nanos as i128;
        let d: i128 = ds * 1_000_000_000 + dn;
        d < (seconds as i128) * 1_000_000_000
    }
}

/// The current time as RFC 3339 text.
pub fn now_rfc3339() -> (r: String)
    ensures
        exists|t: Instant| r@ == rfc3339_text(t.secs, t.nanos),
{
    let t = system_now();
    format_instant(t)
}

} // verus!
