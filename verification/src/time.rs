//! Points in time (UTC), and the calendar computations done by `chrono`.
use vstd::prelude::*;

verus! {

/// A point in time: seconds since the Unix epoch and nanoseconds within the second.
#[derive(Clone, Copy, PartialEq, Eq, Structural, Debug)]
pub struct UtcTime {
    pub secs: i64,
    pub nanos: u32,
}

/// The first second chrono can represent: January 1 of the year -262143, 00:00:00 UTC.
pub const MIN_UTC_SECS: i64 = -8334601228800;

/// The last second chrono can represent: December 31 of the year 262142, 23:59:59 UTC.
pub const MAX_UTC_SECS: i64 = 8210266876799;

/// Whether `DateTime::<Utc>::from_timestamp(secs, nanos)` gives a time: the
/// seconds lie in chrono's range of dates, and the nanoseconds are below one
/// second, or below two in the last second of a minute (a leap second).
pub open spec fn utc_representable(secs: i64, nanos: u32) -> bool {
    &&& MIN_UTC_SECS <= secs <= MAX_UTC_SECS
    &&& (nanos < 1_000_000_000 || (nanos < 2_000_000_000 && secs % 60 == 59))
}

/// The time that `s.parse::<DateTime<Utc>>()` gives (chrono's relaxed RFC 3339 form).
pub uninterp spec fn parsed_utc(s: Seq<char>) -> Option<UtcTime>;

/// `DateTime::to_rfc3339` of the time, when it is representable.
pub uninterp spec fn rfc3339_text(t: UtcTime) -> Seq<char>;

/// `format("%Y-%m-%d")` of the time, when it is representable.
pub uninterp spec fn ymd_text(t: UtcTime) -> Seq<char>;

/// `DateTime::<Utc>::from_timestamp(secs, nanos).is_some()`.
#[verifier::external_body]
pub(crate) fn representable(secs: i64, nanos: u32) -> (r: bool)
    ensures
        r == utc_representable(secs, nanos),
{
    chrono::DateTime::<chrono::Utc>::from_timestamp(secs, nanos).is_some()
}

/// `s.parse::<DateTime<Utc>>().ok()`, as seconds and nanoseconds.
#[verifier::external_body]
pub(crate) fn parse_utc(s: &str) -> (r: Option<UtcTime>)
    ensures
        r == parsed_utc(s@),
{
    match s.parse::<chrono::DateTime<chrono::Utc>>() {
        Ok(d) => Some(UtcTime { secs: d.timestamp(), nanos: d.timestamp_subsec_nanos() }),
        Err(_) => None,
    }
}

/// `to_rfc3339` of a representable time.
#[verifier::external_body]
pub(crate) fn to_rfc3339(t: &UtcTime) -> (r: Option<String>)
    ensures
        r is Some == utc_representable(t.secs, t.nanos),
        r matches Some(s) ==> s@ == rfc3339_text(*t),
{
    match chrono::DateTime::<chrono::Utc>::from_timestamp(t.secs, t.nanos) {
        Some(d) => Some(d.to_rfc3339()),
        None => None,
    }
}

/// `format("%Y-%m-%d")` of a representable time.
#[verifier::external_body]
pub(crate) fn to_ymd(t: &UtcTime) -> (r: Option<String>)
    ensures
        r is Some == utc_representable(t.secs, t.nanos),
        r matches Some(s) ==> s@ == ymd_text(*t),
{
    match chrono::DateTime::<chrono::Utc>::from_timestamp(t.secs, t.nanos) {
        Some(d) => Some(d.format("%Y-%m-%d").to_string()),
        None => None,
    }
}

impl UtcTime {
    /// The time as an RFC 3339 string; `None` when chrono cannot represent it.
    pub fn rfc3339(&self) -> (r: Option<String>)
        ensures
            r is Some == utc_representable(self.secs, self.nanos),
            r matches Some(s) ==> s@ == rfc3339_text(*self),
    {
        to_rfc3339(self)
    }

    /// The calendar date (`YYYY-MM-DD`); `None` when chrono cannot represent the time.
    pub fn date_text(&self) -> (r: Option<String>)
        ensures
            r is Some == utc_representable(self.secs, self.nanos),
            r matches Some(s) ==> s@ == ymd_text(*self),
    {
        to_ymd(self)
    }
}

/// The time that a text names, or `fallback` when it names none
/// (`text.parse().unwrap_or_else(|_| Utc::now())` with the current time handed in).
pub open spec fn time_or(text: Seq<char>, fallback: UtcTime) -> UtcTime {
    match parsed_utc(text) {
        Some(t) => t,
        None => fallback,
    }
}

/// Parses a time, falling back to `fallback`.
pub fn parse_time_or(text: &str, fallback: UtcTime) -> (r: UtcTime)
    ensures
        r == time_or(text@, fallback),
{
    match parse_utc(text) {
        Some(t) => t,
        None => fallback,
    }
}

} // verus!
