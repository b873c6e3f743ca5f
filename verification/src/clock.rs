//! Points in time, as the records carry them.

use vstd::prelude::*;

verus! {

/// A point in time: whole seconds since 1970-01-01T00:00:00Z and the
/// nanoseconds past that second.
#[derive(Debug, Clone, Copy, PartialEq, Eq, Structural)]
pub struct Timestamp {
    pub secs: i64,
    pub nanos: u32,
}

/// What `chrono::DateTime::to_rfc3339` writes for the UTC time that
/// `chrono::DateTime::from_timestamp` makes of `secs` and `nanos`; `None` where
/// the latter makes none.
pub uninterp spec fn rfc3339_text(secs: i64, nanos: u32) -> Option<Seq<char>>;

/// What `chrono::DateTime::parse_from_rfc3339` reads from `text`, as seconds and
/// nanoseconds in UTC; `None` where it reports an error.
pub uninterp spec fn rfc3339_parse(text: Seq<char>) -> Option<Timestamp>;

/// The current time, from `chrono::Utc::now`. Nothing is claimed of its value.
#[verifier::external_body]
pub(crate) fn now() -> (t: Timestamp) {
    let t = chrono::Utc::now();
    Timestamp { secs: t.timestamp(), nanos: t.timestamp_subsec_nanos() }
}

/// Writes a time in RFC 3339 with `chrono::DateTime::to_rfc3339`, after
/// `chrono::DateTime::from_timestamp`, which refuses seconds and nanoseconds
/// out of its range. The result is `rfc3339_text` of the two numbers.
#[verifier::external_body]
pub(crate) fn format_rfc3339(t: Timestamp) -> (r: Option<String>)
    ensures
        r matches Some(s) ==> rfc3339_text(t.secs, t.nanos) == Some(s@),
        r is None ==> rfc3339_text(t.secs, t.nanos) is None,
{
    chrono::DateTime::from_timestamp(t.secs, t.nanos).map(|d| d.to_rfc3339())
}

/// Reads a time in RFC 3339 with `chrono::DateTime::parse_from_rfc3339` and
/// takes it to UTC. The result is `rfc3339_parse` of the text.
#[verifier::external_body]
pub(crate) fn parse_rfc3339(text: &str) -> (r: Option<Timestamp>)
    ensures
        r == rfc3339_parse(text@),
{
    match chrono::DateTime::parse_from_rfc3339(text) {
        Ok(d) => Some(Timestamp { secs: d.timestamp(), nanos: d.timestamp_subsec_nanos() }),
        Err(_) => None,
    }
}

} // verus!
