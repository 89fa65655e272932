//! Session duration: the time between the first and the last timestamp of a transcript, in
//! the short form that the status line shows.

use vstd::prelude::*;
use crate::json::{json_contents, json_parse, member, parse_json, Json};
use crate::number::{decimal, push_decimal};
use crate::text::{blank, chars_of, is_blank, lines, split_lines, string_of, text_view, texts};
use crate::timestamp::{parse_timestamp, timestamp_in, TimeUnit};

verus! {

/// Milliseconds in one minute.
pub const MINUTE_MILLIS: i128 = 60_000;

/// Milliseconds in one hour.
pub const HOUR_MILLIS: i128 = 3_600_000;

/// What a transcript line says of time.
#[derive(Clone, Copy, Debug, PartialEq, Eq)]
pub enum Stamp {
    /// The line is blank, is no JSON value, or is a record without a timestamp.
    Absent,
    /// The record has a timestamp that cannot be read.
    Unreadable,
    /// The record's timestamp, in milliseconds since the epoch.
    At(i64),
}

/// What a record says of time.
pub open spec fn record_stamp(record: Json) -> Stamp {
    match record.member("timestamp"@) {
        Some(timestamp) => match timestamp_in(timestamp, TimeUnit::Milliseconds) {
            Some(millis) => Stamp::At(millis),
            None => Stamp::Unreadable,
        },
        None => Stamp::Absent,
    }
}

/// What a line says of time.
pub open spec fn line_stamp(line: Seq<char>) -> Stamp {
    if is_blank(line) {
        Stamp::Absent
    } else {
        match json_parse(line) {
            Some(record) => record_stamp(record),
            None => Stamp::Absent,
        }
    }
}

/// The stamps of some lines, line by line.
pub open spec fn line_stamps(lines: Seq<Seq<char>>) -> Seq<Stamp> {
    lines.map_values(|line: Seq<char>| line_stamp(line))
}

/// The first stamp that is not absent, or `Absent` where all are.
pub open spec fn first_stamp(stamps: Seq<Stamp>) -> Stamp
    decreases stamps.len(),
{
    if stamps.len() == 0 {
        Stamp::Absent
    } else if stamps.first() is Absent {
        first_stamp(stamps.drop_first())
    } else {
        stamps.first()
    }
}

/// The last stamp that is not absent, or `Absent` where all are.
pub open spec fn last_stamp(stamps: Seq<Stamp>) -> Stamp
    decreases stamps.len(),
{
    if stamps.len() == 0 {
        Stamp::Absent
    } else if stamps.last() is Absent {
        last_stamp(stamps.drop_last())
    } else {
        stamps.last()
    }
}

/// The number of lines that are not blank.
pub open spec fn count_records(lines: Seq<Seq<char>>) -> nat
    decreases lines.len(),
{
    if lines.len() == 0 {
        0
    } else if is_blank(lines.last()) {
        count_records(lines.drop_last())
    } else {
        count_records(lines.drop_last()) + 1
    }
}

/// The short form of an elapsed time in milliseconds: hours and minutes from one hour on,
/// minutes from one minute on, and `<1m` below that, which includes zero and negative times.
/// Minutes are cut off, not rounded.
pub open spec fn duration_text(elapsed: int) -> Seq<char> {
    if elapsed >= HOUR_MILLIS {
        decimal((elapsed / HOUR_MILLIS as int) as nat) + seq!['h'] + decimal(
            (elapsed % HOUR_MILLIS as int / MINUTE_MILLIS as int) as nat,
        ) + seq!['m']
    } else if elapsed >= MINUTE_MILLIS {
        decimal((elapsed / MINUTE_MILLIS as int) as nat) + seq!['m']
    } else {
        "<1m"@
    }
}

/// The duration that a transcript's lines give: none with fewer than two lines that are not
/// blank, none unless both the first and the last timestamp can be read, and else the time
/// from the first to the last.
pub open spec fn lines_duration(lines: Seq<Seq<char>>) -> Option<Seq<char>> {
    if count_records(lines) < 2 {
        None
    } else {
        match (first_stamp(line_stamps(lines)), last_stamp(line_stamps(lines))) {
            (Stamp::At(first), Stamp::At(last)) => Some(duration_text(last - first)),
            _ => None,
        }
    }
}

/// The duration of the session that a transcript records; none without a transcript.
pub open spec fn session_duration(transcript: Option<Seq<char>>) -> Option<Seq<char>> {
    match transcript {
        Some(text) => lines_duration(lines(text)),
        None => None,
    }
}

/// The short form of the time from `first` to `last`, both in milliseconds since the epoch.
pub fn format_duration(first: i64, last: i64) -> (text: String)
    ensures
        text@ == duration_text(last - first),
{
    let elapsed: i128 = last as i128 - first as i128;
    let mut text = String::new();
    if elapsed >= HOUR_MILLIS {
        push_decimal(&mut text, (elapsed / HOUR_MILLIS) as u128);
        text.push('h');
        push_decimal(&mut text, (elapsed % HOUR_MILLIS / MINUTE_MILLIS) as u128);
        text.push('m');
    } else if elapsed >= MINUTE_MILLIS {
        push_decimal(&mut text, (elapsed / MINUTE_MILLIS) as u128);
        text.push('m');
    } else {
        text.append("<1m");
    }
    text
}

/// What a parsed record says of time.
pub fn stamp_of(record: &serde_json::Value) -> (stamp: Stamp)
    ensures
        stamp == record_stamp(json_contents(*record)),
{
    match member(record, "timestamp") {
        Some(timestamp) => match parse_timestamp(timestamp) {
            Some(millis) => Stamp::At(millis),
            None => Stamp::Unreadable,
        },
        None => Stamp::Absent,
    }
}

/// What a line says of time.
pub fn read_stamp(line: &[char]) -> (stamp: Stamp)
    ensures
        stamp == line_stamp(line@),
{
    if blank(line) {
        return Stamp::Absent;
    }
    let text = string_of(line);
    match parse_json(text.as_str()) {
        Some(record) => stamp_of(&record),
        None => Stamp::Absent,
    }
}

/// Counts the lines that are not blank.
pub fn count_record_lines(transcript: &[Vec<char>]) -> (count: usize)
    ensures
        count == count_records(texts(transcript@)),
{
    let mut count: usize = 0;
    let mut i: usize = 0;
    let ghost all = texts(transcript@);
    while i < transcript.len()
        invariant
            i <= transcript.len(),
            all == texts(transcript@),
            count == count_records(all.take(i as int)),
            count <= i,
        decreases transcript.len() - i,
    {
        assert(all.take(i + 1).drop_last() == all.take(i as int));
        if !blank(transcript[i].as_slice()) {
            count += 1;
        }
        i += 1;
    }
    assert(all.take(i as int) == all);
    count
}

/// Scans forward for the first stamp that is not absent.
pub fn find_first_stamp(transcript: &[Vec<char>]) -> (stamp: Stamp)
    ensures
        stamp == first_stamp(line_stamps(texts(transcript@))),
{
    let ghost stamps = line_stamps(texts(transcript@));
    let mut i: usize = 0;
    assert(stamps.skip(0) == stamps);
    while i < transcript.len()
        invariant
            i <= transcript.len(),
            stamps == line_stamps(texts(transcript@)),
            first_stamp(stamps) == first_stamp(stamps.skip(i as int)),
        decreases transcript.len() - i,
    {
        let stamp = read_stamp(transcript[i].as_slice());
        assert(stamps.skip(i as int).first() == stamp);
        match stamp {
            Stamp::Absent => {},
            _ => {
                return stamp;
            },
        }
        assert(stamps.skip(i as int).drop_first() == stamps.skip(i + 1));
        i += 1;
    }
    Stamp::Absent
}

/// Scans backward for the last stamp that is not absent.
pub fn find_last_stamp(transcript: &[Vec<char>]) -> (stamp: Stamp)
    ensures
        stamp == last_stamp(line_stamps(texts(transcript@))),
{
    let ghost stamps = line_stamps(texts(transcript@));
    let mut end: usize = transcript.len();
    assert(stamps.take(end as int) == stamps);
    while end > 0
        invariant
            end <= transcript.len(),
            stamps == line_stamps(texts(transcript@)),
            last_stamp(stamps) == last_stamp(stamps.take(end as int)),
        decreases end,
    {
        let stamp = read_stamp(transcript[end - 1].as_slice());
        assert(stamps.take(end as int).last() == stamp);
        match stamp {
            Stamp::Absent => {},
            _ => {
                return stamp;
            },
        }
        assert(stamps.take(end as int).drop_last() == stamps.take(end - 1));
        end -= 1;
    }
    Stamp::Absent
}

/// The duration of the session that a transcript records, in short form. `transcript` is
/// what the transcript file holds, or `None` where there is no such file or it cannot be read.
pub fn get_session_duration(transcript: Option<&str>) -> (duration: Option<String>)
    ensures
        match duration {
            Some(text) => session_duration(text_view(transcript)) == Some(text@),
            None => session_duration(text_view(transcript)) is None,
        },
{
    let text = match transcript {
        Some(text) => text,
        None => {
            return None;
        },
    };
    let chars = chars_of(text);
    let found = split_lines(chars.as_slice());
    if count_record_lines(found.as_slice()) < 2 {
        return None;
    }
    match find_first_stamp(found.as_slice()) {
        Stamp::At(first) => match find_last_stamp(found.as_slice()) {
            Stamp::At(last) => Some(format_duration(first, last)),
            _ => None,
        },
        _ => None,
    }
}

} // verus!
