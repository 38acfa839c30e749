use vstd::prelude::*;
use crate::strings::opt_view;

verus! {

/// How long an issued code stays valid, in milliseconds.
pub const CODE_VALIDITY_MILLIS: i64 = 60_000;

/// A code issued at `issued_at` has expired at instant `now` (both in
/// milliseconds since the Unix epoch).
pub open spec fn expired_at(issued_at: int, now: int) -> bool {
    now >= issued_at + CODE_VALIDITY_MILLIS
}

/// Whether a code issued at `issued_at` has expired at `now`.
pub fn code_expired(issued_at: i64, now: i64) -> (r: bool)
    ensures
        r == expired_at(issued_at as int, now as int),
{
    if issued_at > i64::MAX - CODE_VALIDITY_MILLIS {
        false
    } else {
        now >= issued_at + CODE_VALIDITY_MILLIS
    }
}

} // verus!

verus! {

/// The instant, in milliseconds since the Unix epoch, that an RFC 3339 text
/// denotes, or `None` where the text is not RFC 3339.
pub uninterp spec fn rfc3339_millis(s: Seq<char>) -> Option<i64>;

/// The RFC 3339 text (UTC) of an instant in milliseconds since the Unix
/// epoch, or `None` where the instant is out of chrono's range.
pub uninterp spec fn rfc3339_text(ms: i64) -> Option<Seq<char>>;

/// Relies on chrono's `DateTime::parse_from_rfc3339` (with `timestamp_millis`
/// on its result): what instant a text denotes depends on the text alone.
#[verifier::external_body]
pub(crate) fn parse_rfc3339_millis(s: &str) -> (r: Option<i64>)
    ensures
        r == rfc3339_millis(s@),
{
    chrono::DateTime::parse_from_rfc3339(s).ok().map(|d| d.timestamp_millis())
}

/// Relies on chrono's `DateTime::from_timestamp_millis` (with `to_rfc3339` on
/// its result): the text depends on the instant alone.
#[verifier::external_body]
pub(crate) fn format_rfc3339_millis(ms: i64) -> (r: Option<String>)
    ensures
        opt_view(r) == rfc3339_text(ms),
{
    chrono::DateTime::from_timestamp_millis(ms).map(|d| d.to_rfc3339())
}

} // verus!
