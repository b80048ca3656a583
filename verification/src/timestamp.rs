//! Timestamp parsing and the retention window.
//!
//! Heartbeat times arrive as RFC 3339 strings.  Whether an entry is kept
//! depends on the instant the string denotes, obtained from the `chrono`
//! crate; the parse result is a function of the string alone, so it is given
//! a name that the contracts downstream speak of.

use vstd::prelude::*;

verus! {

/// How many seconds of heartbeat history are kept in memory (one hour).
pub const HEARTBEAT_WINDOW_SECS: i64 = 3600;

/// The instant, in milliseconds since the Unix epoch, that an RFC 3339
/// date-and-time string denotes; `None` when the string is not a valid
/// RFC 3339 value.
pub uninterp spec fn rfc3339_millis(s: Seq<char>) -> Option<i64>;

/// Relies on `chrono::DateTime::parse_from_rfc3339` and
/// `chrono::DateTime::timestamp_millis`: both are deterministic functions of
/// the string, so together they compute `rfc3339_millis`.
#[verifier::external_body]
pub fn parse_rfc3339_millis(s: &str) -> (r: Option<i64>)
    ensures
        r == rfc3339_millis(s@),
{
    chrono::DateTime::parse_from_rfc3339(s).ok().map(|t| t.timestamp_millis())
}

/// The retention rule for one stored time string: an entry stays when its
/// time parses to an instant after the cutoff, and also when its time does
/// not parse at all (retention-biased: unreadable times are kept).
pub open spec fn within_window(time: Seq<char>, cutoff_ms: i64) -> bool {
    match rfc3339_millis(time) {
        Some(t) => t > cutoff_ms,
        None => true,
    }
}

/// Decides `within_window` for one time string.
pub fn check_within_window(time: &str, cutoff_ms: i64) -> (r: bool)
    ensures
        r == within_window(time@, cutoff_ms),
{
    match parse_rfc3339_millis(time) {
        Some(t) => t > cutoff_ms,
        None => true,
    }
}

/// The cutoff instant for a given current time: entries at or before it are
/// outside the retention window.
pub fn window_cutoff_ms(now_ms: i64) -> (r: i64)
    ensures
        r == now_ms - HEARTBEAT_WINDOW_SECS * 1000 || (r == i64::MIN && now_ms
            - HEARTBEAT_WINDOW_SECS * 1000 < i64::MIN),
{
    let window_ms: i64 = HEARTBEAT_WINDOW_SECS * 1000;
    if now_ms >= i64::MIN + window_ms {
        now_ms - window_ms
    } else {
        i64::MIN
    }
}

} // verus!
