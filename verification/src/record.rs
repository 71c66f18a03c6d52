//! The log record: one line of text for each idle episode, stamped with
//! the UTC calendar time at which the episode was detected.

use vstd::prelude::*;
use crate::clock::Timestamp;

verus! {

/// The text that chrono renders for the instant `millis` milliseconds after
/// the Unix epoch, in UTC, under the strftime pattern `pattern`; `None`
/// where chrono cannot represent the instant or rejects the pattern.
pub uninterp spec fn utc_text(millis: int, pattern: Seq<char>) -> Option<Seq<char>>;

/// Calls `chrono::DateTime::<Utc>::from_timestamp_millis` and renders the
/// result with `DateTime::format`, written out through
/// `DelayedFormat::write_to`.
///
/// Trusted, not proved: the text depends on the two arguments alone (UTC has
/// no offset and no locale is consulted), so it is named `utc_text`. An
/// instant out of chrono's range and a pattern that chrono reports as
/// invalid both give `None`; neither panics.
#[verifier::external_body]
fn format_utc(millis: i64, pattern: &str) -> (text: Option<String>)
    ensures
        text is Some <==> utc_text(millis as int, pattern@) is Some,
        text matches Some(t) ==> utc_text(millis as int, pattern@) == Some(t@),
{
    match chrono::DateTime::<chrono::Utc>::from_timestamp_millis(millis) {
        Some(moment) => {
            let mut text = String::new();
            match moment.format(pattern).write_to(&mut text) {
                Ok(()) => Some(text),
                Err(_) => None,
            }
        },
        None => None,
    }
}

/// The pattern of the time stamp: day/month/year, then hours, minutes and
/// seconds.
pub open spec fn stamp_pattern() -> Seq<char> {
    "%d/%m/%Y %T"@
}

/// The line for an episode detected at the time that `stamp` spells out.
pub open spec fn record_line(stamp: Seq<char>) -> Seq<char> {
    "idle threshold reached: "@ + stamp + "\n"@
}

/// The time stamp for an episode detected at `now`, where one exists: `now`
/// must fit the signed 64-bit milliseconds that the calendar takes.
pub open spec fn stamp_at(now: int) -> Option<Seq<char>> {
    if now <= i64::MAX {
        utc_text(now, stamp_pattern())
    } else {
        None
    }
}

/// The whole line for an episode detected at `now`.
pub open spec fn record_at(now: int) -> Option<Seq<char>> {
    match stamp_at(now) {
        Some(stamp) => Some(record_line(stamp)),
        None => None,
    }
}

/// Builds the log line around an already rendered time stamp.
pub fn log_record(stamp: &str) -> (line: String)
    ensures
        line@ == record_line(stamp@),
{
    let mut line = String::from_str("idle threshold reached: ");
    line.append(stamp);
    line.append("\n");
    line
}

/// Renders `now` as a UTC calendar time stamp.
pub fn utc_stamp(now: Timestamp) -> (stamp: Option<String>)
    ensures
        stamp is Some <==> stamp_at(now as int) is Some,
        stamp matches Some(s) ==> stamp_at(now as int) == Some(s@),
{
    if now <= i64::MAX as u128 {
        format_utc(now as i64, "%d/%m/%Y %T")
    } else {
        None
    }
}

/// The log line for an idle episode detected at `now`, or `None` when no
/// calendar time stamp exists for `now`.
pub fn record_for(now: Timestamp) -> (line: Option<String>)
    ensures
        line is Some <==> record_at(now as int) is Some,
        line matches Some(l) ==> record_at(now as int) == Some(l@),
{
    match utc_stamp(now) {
        Some(stamp) => Some(log_record(stamp.as_str())),
        None => None,
    }
}

} // verus!
