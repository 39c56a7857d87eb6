//! Instants as whole Unix seconds, and their RFC 3339 text.
use vstd::prelude::*;

verus! {

/// 0000-01-01T00:00:00Z: the earliest instant with a four-digit year.
pub const MIN_UNIX_SECS: i64 = -62167219200;

/// 9999-12-31T23:59:59Z: the latest instant with a four-digit year.
pub const MAX_UNIX_SECS: i64 = 253402300799;

/// A day, in seconds: more than any RFC 3339 offset.
pub const DAY_SECS: i64 = 86400;

/// An instant RFC 3339 writes in UTC: one with a four-digit year.
pub open spec fn rfc3339_time(t: i64) -> bool {
    MIN_UNIX_SECS <= t <= MAX_UNIX_SECS
}

/// An instant a record holds: one that some RFC 3339 text names, that is
/// a four-digit year in UTC shifted by an offset of less than a day.
pub open spec fn valid_time(t: i64) -> bool {
    MIN_UNIX_SECS - DAY_SECS <= t <= MAX_UNIX_SECS + DAY_SECS
}

/// The RFC 3339 text that chrono writes for an instant.
pub uninterp spec fn rfc3339_of(secs: i64) -> Seq<char>;

/// The instant, in whole seconds, that chrono reads from an RFC 3339 text.
pub uninterp spec fn rfc3339_parsed(s: Seq<char>) -> Option<i64>;

/// Relies on chrono's `Utc::now` and `DateTime::timestamp`: the system
/// clock in whole seconds since the Unix epoch. Nothing is promised of it.
#[verifier::external_body]
fn clock_secs() -> i64 {
    chrono::Utc::now().timestamp()
}

/// The current time, held to the years 0000 to 9999.
pub fn now() -> (t: i64)
    ensures
        rfc3339_time(t),
        valid_time(t),
{
    let t = clock_secs();
    if t < MIN_UNIX_SECS {
        MIN_UNIX_SECS
    } else if t > MAX_UNIX_SECS {
        MAX_UNIX_SECS
    } else {
        t
    }
}

/// Relies on chrono's `DateTime::from_timestamp`, which gives an instant for
/// every second of this range, and `DateTime::to_rfc3339`, which writes a
/// UTC instant with a four-digit year as `YYYY-MM-DDTHH:MM:SS+00:00`, text
/// that `DateTime::parse_from_rfc3339` reads back as the same second.
#[verifier::external_body]
pub fn format_rfc3339(secs: i64) -> (r: String)
    requires
        valid_time(secs),
    ensures
        r@ == rfc3339_of(secs),
        rfc3339_time(secs) ==> rfc3339_parsed(r@) == Some(secs),
{
    chrono::DateTime::from_timestamp(secs, 0).expect("instant within range").to_rfc3339()
}

/// Relies on chrono's `DateTime::parse_from_rfc3339` and
/// `DateTime::timestamp`: the instant the text names, or `None` where the
/// text is no RFC 3339 date-time. The parser takes a four-digit year and an
/// offset within 23:59, so the instant lies within a day of the years 0000
/// to 9999.
#[verifier::external_body]
pub fn parse_rfc3339(s: &str) -> (r: Option<i64>)
    ensures
        r == rfc3339_parsed(s@),
        r matches Some(t) ==> valid_time(t),
{
    chrono::DateTime::parse_from_rfc3339(s).ok().map(|d| d.timestamp())
}

} // verus!
