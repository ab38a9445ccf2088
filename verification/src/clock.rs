//! The time, as the record writes it and as it is read back.
//!
//! Timestamps are texts in the form of RFC 3339, written and read by
//! `chrono`.

use vstd::prelude::*;

verus! {

/// Whether a text reads as a timestamp: whether `chrono` parses it as a
/// date and time with an offset from UTC, in its relaxed form of RFC 3339.
pub uninterp spec fn reads_as_time(text: Seq<char>) -> bool;

/// The whole seconds from the time that `earlier` holds to the time that
/// `later` holds, negative where `later` comes first; `None` unless both
/// read as timestamps.
pub uninterp spec fn elapsed_seconds(earlier: Seq<char>, later: Seq<char>) -> Option<i64>;

/// The current time in UTC as an RFC 3339 text, from `chrono::Utc::now`
/// and `chrono::DateTime::to_rfc3339`. The result depends on when the call
/// is made; all that is promised is that it reads as a timestamp, the form
/// that `to_rfc3339` writes being one that `chrono` parses. `Utc::now`
/// gives up on a machine whose clock is set before 1970.
#[verifier::external_body]
pub(crate) fn now_rfc3339() -> (stamp: String)
    ensures
        reads_as_time(stamp@),
{
    chrono::Utc::now().to_rfc3339()
}

/// The whole seconds between two timestamps, by
/// `chrono::DateTime::signed_duration_since` and
/// `chrono::TimeDelta::num_seconds` on what `str::parse` makes of the two
/// texts as `chrono::DateTime<chrono::FixedOffset>`. The contract names
/// the result, which depends on the two texts alone, and says that there
/// is one exactly if both texts parse.
#[verifier::external_body]
pub(crate) fn seconds_between(earlier: &str, later: &str) -> (seconds: Option<i64>)
    ensures
        seconds == elapsed_seconds(earlier@, later@),
        (seconds is Some) == (reads_as_time(earlier@) && reads_as_time(later@)),
{
    match (
        earlier.parse::<chrono::DateTime<chrono::FixedOffset>>(),
        later.parse::<chrono::DateTime<chrono::FixedOffset>>(),
    ) {
        (Ok(from), Ok(to)) => Some(to.signed_duration_since(from).num_seconds()),
        _ => None,
    }
}

/// The whole seconds that have passed at the time `now` since the time
/// that `started_at` holds.
pub fn elapsed_at(started_at: &str, now: &str) -> (elapsed: Option<i64>)
    ensures
        elapsed == elapsed_seconds(started_at@, now@),
        reads_as_time(now@) ==> (elapsed is Some <==> reads_as_time(started_at@)),
{
    seconds_between(started_at, now)
}

/// The whole seconds that have passed since the time that `started_at`
/// holds, or `None` where it does not read as a timestamp.
pub fn since_running(started_at: &str) -> (elapsed: Option<i64>)
    ensures
        elapsed is Some <==> reads_as_time(started_at@),
        exists|now: Seq<char>|
            reads_as_time(now) && elapsed == #[trigger] elapsed_seconds(started_at@, now),
{
    let now = now_rfc3339();
    elapsed_at(started_at, now.as_str())
}

} // verus!
