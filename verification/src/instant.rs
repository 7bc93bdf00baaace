use vstd::prelude::*;
use chrono::{DateTime, SecondsFormat, Utc};

verus! {

/// An instant on the universal time scale: the whole seconds since the beginning of 1970,
/// leap seconds not counted, and the nanoseconds since the last whole second.
#[derive(Clone, Copy, Debug, PartialEq, Eq, Structural, PartialOrd, Ord, Hash)]
pub struct Timestamp {
    pub secs: i64,
    pub nanos: u32,
}

/// The instant that chrono reads in a text as a date and time with an offset, in seconds and
/// nanoseconds, where it reads one.
pub uninterp spec fn instant_of_text(text: Seq<char>) -> Option<(i64, u32)>;

/// The text that chrono writes for the instant of these seconds and nanoseconds, where it
/// can hold such an instant.
pub uninterp spec fn text_of_instant(secs: i64, nanos: u32) -> Option<Seq<char>>;

/// Calls `str::parse` for chrono's `DateTime<Utc>`. Trusted: whether a text is read as an
/// instant, and as which, depends on the text alone.
#[verifier::external_body]
fn read_instant(text: &str) -> (r: Option<(i64, u32)>)
    ensures
        r == instant_of_text(text@),
{
    text.parse::<DateTime<Utc>>().ok().map(|d| (d.timestamp(), d.timestamp_subsec_nanos()))
}

/// Calls chrono's `DateTime::from_timestamp` and then `DateTime::to_rfc3339_opts`, with
/// fractional seconds as far as they are not nought and `Z` for the offset. Trusted: whether
/// the instant can be held, and the text written for it, depend on the two numbers alone.
#[verifier::external_body]
fn write_instant(secs: i64, nanos: u32) -> (r: Option<String>)
    ensures
        r.is_some() == text_of_instant(secs, nanos).is_some(),
        r matches Some(text) ==> Some(text@) == text_of_instant(secs, nanos),
{
    DateTime::from_timestamp(secs, nanos).map(|d| d.to_rfc3339_opts(SecondsFormat::AutoSi, true))
}

/// The instant that a text denotes, where it denotes one.
pub open spec fn timestamp_of_text(text: Seq<char>) -> Option<Timestamp> {
    match instant_of_text(text) {
        Some((secs, nanos)) => Some(Timestamp { secs, nanos }),
        None => None,
    }
}

impl Timestamp {
    /// Whether this instant comes before the other.
    pub open spec fn is_before(self, other: Timestamp) -> bool {
        self.secs < other.secs || (self.secs == other.secs && self.nanos < other.nanos)
    }

    /// The text that is written for this instant, where it can be written.
    pub open spec fn text(self) -> Option<Seq<char>> {
        text_of_instant(self.secs, self.nanos)
    }

    /// Reads a date and time with an offset, as in `2024-05-01T09:30:00Z`.
    pub fn parse(text: &str) -> (r: Option<Timestamp>)
        ensures
            r == timestamp_of_text(text@),
    {
        match read_instant(text) {
            Some((secs, nanos)) => Some(Timestamp { secs, nanos }),
            None => None,
        }
    }

    /// Writes the instant as a date and time with the offset `Z`, or nothing where the
    /// instant lies outside of what can be written so.
    pub fn render(&self) -> (r: Option<String>)
        ensures
            r.is_some() == self.text().is_some(),
            r matches Some(text) ==> Some(text@) == self.text(),
    {
        write_instant(self.secs, self.nanos)
    }

    /// Whether this instant comes before the other.
    pub fn precedes(&self, other: &Timestamp) -> (r: bool)
        ensures
            r == self.is_before(*other),
    {
        self.secs < other.secs || (self.secs == other.secs && self.nanos < other.nanos)
    }
}

} // verus!
