//! Instants on the UTC time line, held as plain integers, and the two
//! conversions between instants and text that `chrono` provides.

use vstd::prelude::*;

verus! {

/// An instant: whole seconds since the Unix epoch and the nanoseconds past
/// that second. Instants are ordered by seconds first, then by nanoseconds.
#[derive(Clone, Copy, Debug, PartialEq, Eq, Structural)]
pub struct Timestamp {
    pub secs: i64,
    pub nanos: u32,
}

impl Timestamp {
    /// `self` is the same instant as `other` or a later one.
    pub open spec fn at_or_after(self, other: Timestamp) -> bool {
        self.secs > other.secs || (self.secs == other.secs && self.nanos >= other.nanos)
    }

    /// `self` is strictly later than `other`.
    pub open spec fn after(self, other: Timestamp) -> bool {
        self.secs > other.secs || (self.secs == other.secs && self.nanos > other.nanos)
    }

    pub fn new(secs: i64, nanos: u32) -> (t: Timestamp)
        ensures
            t.secs == secs,
            t.nanos == nanos,
    {
        Timestamp { secs, nanos }
    }

    pub fn is_at_or_after(&self, other: &Timestamp) -> (r: bool)
        ensures
            r == self.at_or_after(*other),
    {
        self.secs > other.secs || (self.secs == other.secs && self.nanos >= other.nanos)
    }

    pub fn is_after(&self, other: &Timestamp) -> (r: bool)
        ensures
            r == self.after(*other),
    {
        self.secs > other.secs || (self.secs == other.secs && self.nanos > other.nanos)
    }
}

/// The instant that a text denotes when read as a UTC date and time, as
/// seconds and nanoseconds, if it denotes one.
pub uninterp spec fn timestamp_in(text: Seq<char>) -> Option<(i64, u32)>;

/// The text of an instant, given as seconds and nanoseconds, if the calendar
/// can represent it.
pub uninterp spec fn timestamp_text(secs: i64, nanos: u32) -> Option<Seq<char>>;

#[verifier::external_type_specification]
#[verifier::external_body]
pub struct ExParseError(chrono::ParseError);

/// Calls `str::parse::<chrono::DateTime<chrono::Utc>>`, which accepts a
/// relaxed RFC 3339 form. Trusted: the outcome depends on the text alone; on
/// success the instant is handed out as `timestamp()` and
/// `timestamp_subsec_nanos()`.
#[verifier::external_body]
pub(crate) fn parse_timestamp(text: &str) -> (parsed: Result<Timestamp, chrono::ParseError>)
    ensures
        match parsed {
            Ok(t) => timestamp_in(text@) == Some((t.secs, t.nanos)),
            Err(_) => timestamp_in(text@) is None,
        },
{
    let instant = text.parse::<chrono::DateTime<chrono::Utc>>()?;
    Ok(Timestamp { secs: instant.timestamp(), nanos: instant.timestamp_subsec_nanos() })
}

/// Calls `chrono::DateTime::from_timestamp` and then the `Display` of the
/// `DateTime<Utc>` it returns. Trusted: the outcome depends on the two
/// integers alone; it is `None` exactly when `from_timestamp` is.
#[verifier::external_body]
pub(crate) fn format_timestamp(t: Timestamp) -> (text: Option<String>)
    ensures
        match text {
            Some(s) => timestamp_text(t.secs, t.nanos) == Some(s@),
            None => timestamp_text(t.secs, t.nanos) is None,
        },
{
    chrono::DateTime::from_timestamp(t.secs, t.nanos).map(|instant| instant.to_string())
}

} // verus!
