use vstd::prelude::*;

verus! {

/// The timestamp that the RFC 2822 date parser assigns to a date string:
/// `Some` of the seconds since the Unix epoch when the string parses, `None`
/// otherwise. The result depends on the characters of the string alone.
pub uninterp spec fn rfc2822_timestamp_of(s: Seq<char>) -> Option<i64>;

/// Relies on chrono's `DateTime::parse_from_rfc2822` and
/// `DateTime::<FixedOffset>::timestamp`: both are deterministic functions of
/// the date string, so their composition is named by `rfc2822_timestamp_of`.
#[verifier::external_body]
pub(crate) fn parse_rfc2822_timestamp(s: &str) -> (r: Option<i64>)
    ensures
        r == rfc2822_timestamp_of(s@),
{
    match chrono::DateTime::parse_from_rfc2822(s) {
        Ok(dt) => Some(dt.timestamp()),
        Err(_) => None,
    }
}

/// Relies on std's `SystemTime::now`: the wall-clock reading in seconds
/// since the Unix epoch at the moment of the call, total on every clock
/// state (a clock before the epoch reads as 0, one beyond `i64` saturates).
/// Nothing is promised of a clock reading.
#[verifier::external_body]
pub(crate) fn now_timestamp() -> i64 {
    match std::time::SystemTime::now().duration_since(std::time::UNIX_EPOCH) {
        Ok(elapsed) => i64::try_from(elapsed.as_secs()).unwrap_or(i64::MAX),
        Err(_) => 0,
    }
}

} // verus!
