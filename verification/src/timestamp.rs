//! Timestamps of transcript records: an RFC 3339 string or an integer, read as a count of
//! seconds or of milliseconds since the Unix epoch.
//!
//! The two units serve two different readers and are never mixed: a caller names the unit it
//! wants. An integer is taken as it stands, in whichever unit was asked for.

use vstd::prelude::*;
use crate::json::{i64_of, json_contents, text_of, Json};

verus! {

/// A point in time, counted from the Unix epoch in both units.
#[derive(Clone, Copy, Debug)]
pub struct EpochTime {
    /// Whole seconds since the epoch.
    pub seconds: i64,
    /// Whole milliseconds since the epoch.
    pub millis: i64,
}

/// The unit in which a timestamp is counted.
#[derive(Clone, Copy, Debug)]
pub enum TimeUnit {
    Seconds,
    Milliseconds,
}

impl EpochTime {
    /// The count in `unit`.
    pub open spec fn spec_count(self, unit: TimeUnit) -> i64 {
        match unit {
            TimeUnit::Seconds => self.seconds,
            TimeUnit::Milliseconds => self.millis,
        }
    }

    /// The count in `unit`.
    #[verifier::when_used_as_spec(spec_count)]
    pub fn count(self, unit: TimeUnit) -> (n: i64)
        ensures
            n == self.spec_count(unit),
    {
        match unit {
            TimeUnit::Seconds => self.seconds,
            TimeUnit::Milliseconds => self.millis,
        }
    }
}

/// The point in time that `chrono` reads from an RFC 3339 date and time, or `None` where it
/// refuses the text.
pub uninterp spec fn rfc3339_time(text: Seq<char>) -> Option<EpochTime>;

/// Calls `chrono::DateTime::parse_from_rfc3339` and, on the date and time that it returns,
/// `timestamp` and `timestamp_millis`. The result depends on the text alone and is `None`
/// exactly where the parser returns an error.
#[verifier::external_body]
pub(crate) fn parse_rfc3339(text: &str) -> (time: Option<EpochTime>)
    ensures
        time == rfc3339_time(text@),
{
    match chrono::DateTime::parse_from_rfc3339(text) {
        Ok(t) => Some(EpochTime { seconds: t.timestamp(), millis: t.timestamp_millis() }),
        Err(_) => None,
    }
}

/// The timestamp that a JSON value gives in `unit`: a string is read as RFC 3339, an integer
/// that fits `i64` is the count itself, and any other value gives none.
pub open spec fn timestamp_in(value: Json, unit: TimeUnit) -> Option<i64> {
    match value {
        Json::Text(t) => match rfc3339_time(t) {
            Some(time) => Some(time.count(unit)),
            None => None,
        },
        _ => value.as_i64(),
    }
}

/// Reads a timestamp in `unit`.
pub fn parse_timestamp_in(timestamp: &serde_json::Value, unit: TimeUnit) -> (count: Option<i64>)
    ensures
        count == timestamp_in(json_contents(*timestamp), unit),
{
    match text_of(timestamp) {
        Some(text) => match parse_rfc3339(text) {
            Some(time) => Some(time.count(unit)),
            None => None,
        },
        None => i64_of(timestamp),
    }
}

/// Reads a timestamp in milliseconds.
pub fn parse_timestamp(timestamp: &serde_json::Value) -> (millis: Option<i64>)
    ensures
        millis == timestamp_in(json_contents(*timestamp), TimeUnit::Milliseconds),
{
    parse_timestamp_in(timestamp, TimeUnit::Milliseconds)
}

} // verus!
