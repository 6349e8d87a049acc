//! Points in time as the request builders and the resource models hold them.

use vstd::prelude::*;

verus! {

/// A point in time, in whole seconds since 1970-01-01T00:00:00Z.
#[derive(Clone, Copy, Debug, PartialEq, Eq, Structural)]
pub struct Timestamp {
    pub seconds: i64,
}

/// The RFC 3339 text, in UTC with a trailing `Z` and without fractional
/// seconds, of the instant `seconds` after the epoch; `None` for an instant
/// outside the range of dates that the calendar library represents.
pub uninterp spec fn rfc3339_text(seconds: int) -> Option<Seq<char>>;

/// The text of an optional string.
pub open spec fn text_of(value: Option<String>) -> Option<Seq<char>> {
    match value {
        Some(s) => Some(s@),
        None => None,
    }
}

/// Calls chrono's `DateTime::from_timestamp` with no nanoseconds and, where
/// that gives an instant, `DateTime::to_rfc3339_opts` with whole seconds and
/// `Z` for the offset. Both depend on the number of seconds alone; the
/// contract names what they give and claims nothing more of it.
#[verifier::external_body]
fn rfc3339(seconds: i64) -> (text: Option<String>)
    ensures
        text_of(text) == rfc3339_text(seconds as int),
{
    match chrono::DateTime::from_timestamp(seconds, 0) {
        Some(instant) => Some(instant.to_rfc3339_opts(chrono::SecondsFormat::Secs, true)),
        None => None,
    }
}

impl Timestamp {
    /// The instant `seconds` after the epoch.
    pub fn from_seconds(seconds: i64) -> (t: Timestamp)
        ensures
            t.seconds == seconds,
    {
        Timestamp { seconds }
    }

    /// The instant as RFC 3339 text in UTC, such as `2021-01-01T00:00:00Z`,
    /// where the calendar library can represent it.
    pub fn to_rfc3339(&self) -> (text: Option<String>)
        ensures
            text_of(text) == rfc3339_text(self.seconds as int),
    {
        rfc3339(self.seconds)
    }
}

} // verus!
