//! The writing of instants, done by the `chrono` and `chrono-tz` crates.

use std::fmt::Write;
use vstd::prelude::*;

verus! {

/// What `chrono::DateTime::to_rfc3339_opts` writes, with milliseconds and
/// `Z` for the offset, for the instant that lies `unix_millis`
/// milliseconds after the start of 1970 in UTC. Nothing where
/// `chrono::DateTime::from_timestamp_millis` holds the instant out of
/// range.
pub uninterp spec fn utc_rfc3339_millis(unix_millis: int) -> Option<Seq<char>>;

/// What `chrono::DateTime::format` writes for `format` and the instant that
/// lies `unix_millis` milliseconds after the start of 1970 in UTC, seen
/// from the time zone `America/Los_Angeles` of `chrono-tz`. Nothing where
/// `chrono::DateTime::from_timestamp_millis` holds the instant out of
/// range, or the writing of the format fails.
pub uninterp spec fn los_angeles_time(unix_millis: int, format: Seq<char>) -> Option<Seq<char>>;

/// Makes the instant with `chrono::DateTime::from_timestamp_millis` and
/// writes it with `chrono::DateTime::to_rfc3339_opts`, with milliseconds
/// and `Z`. The contract gives the text a name and claims nothing else of
/// it.
#[verifier::external_body]
pub(crate) fn format_utc(unix_millis: i64) -> (r: Option<String>)
    ensures
        r.deep_view() == utc_rfc3339_millis(unix_millis as int),
{
    let instant = chrono::DateTime::from_timestamp_millis(unix_millis)?;
    Some(instant.to_rfc3339_opts(chrono::SecondsFormat::Millis, true))
}

/// Makes the instant with `chrono::DateTime::from_timestamp_millis`, moves
/// it to `chrono_tz::America::Los_Angeles` with
/// `chrono::DateTime::with_timezone` and writes it with
/// `chrono::DateTime::format`. The contract gives the text a name and
/// claims nothing else of it.
#[verifier::external_body]
pub(crate) fn format_los_angeles(unix_millis: i64, format: &str) -> (r: Option<String>)
    ensures
        r.deep_view() == los_angeles_time(unix_millis as int, format@),
{
    let instant = chrono::DateTime::from_timestamp_millis(unix_millis)?;
    let local = instant.with_timezone(&chrono_tz::America::Los_Angeles);
    let mut out = String::new();
    write!(out, "{}", local.format(format)).ok()?;
    Some(out)
}

} // verus!
