use vstd::prelude::*;

verus! {

/// The instant, in milliseconds since the epoch, that an RFC3339 text
/// denotes, or nothing when the text is not a valid RFC3339 date-time.
/// The value is a function of the text alone.
pub uninterp spec fn rfc3339_millis_of(s: Seq<char>) -> Option<int>;

/// Relies on chrono's DateTime::parse_from_rfc3339 and
/// DateTime::timestamp_millis: whether the text parses, and the
/// instant it denotes, depend on the characters alone.
#[verifier::external_body]
pub(crate) fn parse_rfc3339_millis(s: &str) -> (r: Option<i64>)
    ensures
        match r {
            Some(v) => rfc3339_millis_of(s@) == Some(v as int),
            None => rfc3339_millis_of(s@) is None,
        },
{
    match chrono::DateTime::parse_from_rfc3339(s) {
        Ok(dt) => Some(dt.timestamp_millis()),
        Err(_) => None,
    }
}

/// Relies on chrono's Local::now and to_rfc3339_opts: the local time
/// now, printed with millisecond precision. The value depends on the
/// clock; all that is promised is that the text is RFC3339, which
/// chrono's own parser reads back.
#[verifier::external_body]
pub(crate) fn now_rfc3339_millis_local() -> (r: String)
    ensures
        rfc3339_millis_of(r@) is Some,
{
    chrono::Local::now().to_rfc3339_opts(chrono::SecondsFormat::Millis, false)
}

/// Relies on chrono's Utc::now, Duration::hours and to_rfc3339_opts:
/// the time now shifted by a configured whole-hour offset, printed
/// with millisecond precision. The value depends on the clock; all
/// that is promised is that the text is RFC3339, which chrono's own
/// parser reads back. The offset bound keeps chrono's Duration::hours
/// within its documented range.
#[verifier::external_body]
pub(crate) fn now_rfc3339_millis_utc_offset(hours: i64) -> (r: String)
    requires
        -876000 <= hours <= 876000,
    ensures
        rfc3339_millis_of(r@) is Some,
{
    (chrono::Utc::now() + chrono::Duration::hours(hours)).to_rfc3339_opts(
        chrono::SecondsFormat::Millis,
        false,
    )
}

/// Relies on chrono's Utc::now and timestamp_millis: the instant now in
/// milliseconds since the epoch. The value depends on the clock;
/// nothing is promised of it.
#[verifier::external_body]
pub(crate) fn now_unix_millis() -> i64 {
    chrono::Utc::now().timestamp_millis()
}

} // verus!
