//! Context usage: the freshest usage record among the last lines of a transcript, and the
//! percentage of the context window that it fills.

use vstd::prelude::*;
use crate::json::{
    count_member, find_nested, json_contents, json_parse, member, nested_member, parse_json,
    read_count, text_of, Json,
};
use crate::percent::{format_percent, percent_text};
use crate::text::{
    blank, chars_of, is_blank, lines, same_str, split_lines, string_of, text_view, texts,
};
use crate::timestamp::{parse_timestamp_in, timestamp_in, TimeUnit};

verus! {

/// The number of lines at the end of a transcript that are scanned for usage records. Blank
/// lines count among them.
pub const SCAN_WINDOW: usize = 50;

/// The token counts of one assistant record.
#[derive(Clone, Copy, Debug, PartialEq, Eq)]
pub struct UsageSnapshot {
    pub input_tokens: u64,
    pub output_tokens: u64,
    pub cache_read_input_tokens: u64,
    pub cache_creation_input_tokens: u64,
}

impl UsageSnapshot {
    /// The sum of the four counts.
    pub open spec fn total(self) -> nat {
        (self.input_tokens + self.output_tokens + self.cache_read_input_tokens
            + self.cache_creation_input_tokens) as nat
    }

    /// The sum of the four counts.
    pub fn total_tokens(&self) -> (sum: u128)
        ensures
            sum == self.total(),
    {
        self.input_tokens as u128 + self.output_tokens as u128
            + self.cache_read_input_tokens as u128 + self.cache_creation_input_tokens as u128
    }
}

/// A usage record that stands for selection: its time in seconds since the epoch, and its
/// counts.
#[derive(Clone, Copy, Debug, PartialEq, Eq)]
pub struct UsageCandidate {
    pub seconds: i64,
    pub usage: UsageSnapshot,
}

/// The counts that a usage block holds; a count that is missing or is no such number is zero.
pub open spec fn usage_of(usage: Json) -> UsageSnapshot {
    UsageSnapshot {
        input_tokens: count_member(usage, "input_tokens"@),
        output_tokens: count_member(usage, "output_tokens"@),
        cache_read_input_tokens: count_member(usage, "cache_read_input_tokens"@),
        cache_creation_input_tokens: count_member(usage, "cache_creation_input_tokens"@),
    }
}

/// The time by which a usage record is ranked: its timestamp in seconds, and zero where the
/// timestamp cannot be read.
pub open spec fn ranking_seconds(timestamp: Json) -> i64 {
    match timestamp_in(timestamp, TimeUnit::Seconds) {
        Some(seconds) => seconds,
        None => 0,
    }
}

/// The candidate that a record gives: it has a timestamp, a usage block under `message`, and
/// under `message` the role `assistant`. Any other record gives none.
pub open spec fn record_candidate(record: Json) -> Option<UsageCandidate> {
    match (
        record.member("timestamp"@),
        nested_member(record, "message"@, "usage"@),
        nested_member(record, "message"@, "role"@),
    ) {
        (Some(timestamp), Some(usage), Some(role)) => if role.text() == Some("assistant"@) {
            Some(UsageCandidate { seconds: ranking_seconds(timestamp), usage: usage_of(usage) })
        } else {
            None
        },
        _ => None,
    }
}

/// The candidate that a line gives: that of the record it denotes. A blank line and a line
/// that is no JSON value give none.
pub open spec fn line_candidate(line: Seq<char>) -> Option<UsageCandidate> {
    if is_blank(line) {
        None
    } else {
        match json_parse(line) {
            Some(record) => record_candidate(record),
            None => None,
        }
    }
}

/// Of a candidate held so far and the next one in scan order, the one to hold on: the next
/// one unless it is older. With equal times the later one wins.
pub open spec fn fresher(held: Option<UsageCandidate>, next: Option<UsageCandidate>) -> Option<
    UsageCandidate,
> {
    match (held, next) {
        (_, None) => held,
        (None, Some(_)) => next,
        (Some(h), Some(n)) => if n.seconds >= h.seconds {
            next
        } else {
            held
        },
    }
}

/// The freshest candidate of a scan: the one with the greatest time, and of several with that
/// time the last. `None` where there is no candidate.
pub open spec fn freshest(candidates: Seq<Option<UsageCandidate>>) -> Option<UsageCandidate>
    decreases candidates.len(),
{
    if candidates.len() == 0 {
        None
    } else {
        fresher(freshest(candidates.drop_last()), candidates.last())
    }
}

/// The lines that are scanned: the last [`SCAN_WINDOW`] of them, or all where there are fewer.
pub open spec fn scan_window(lines: Seq<Seq<char>>) -> Seq<Seq<char>> {
    if lines.len() > SCAN_WINDOW {
        lines.skip(lines.len() - SCAN_WINDOW)
    } else {
        lines
    }
}

/// The candidates of some lines, line by line.
pub open spec fn line_candidates(lines: Seq<Seq<char>>) -> Seq<Option<UsageCandidate>> {
    lines.map_values(|line: Seq<char>| line_candidate(line))
}

/// The usage record that a scan of `lines` selects.
pub open spec fn scanned_usage(lines: Seq<Seq<char>>) -> Option<UsageCandidate> {
    freshest(line_candidates(scan_window(lines)))
}

/// The freshest candidate is one of the candidates, and there is none only where no line gave
/// a candidate.
pub proof fn lemma_freshest_is_candidate(candidates: Seq<Option<UsageCandidate>>)
    ensures
        freshest(candidates) is None <==> forall|k: int|
            0 <= k < candidates.len() ==> candidates[k] is None,
        freshest(candidates) is Some ==> exists|k: int|
            0 <= k < candidates.len() && candidates[k] == freshest(candidates),
    decreases candidates.len(),
{
    if candidates.len() > 0 {
        let before = candidates.drop_last();
        lemma_freshest_is_candidate(before);
        let last = candidates.len() - 1;
        assert(forall|k: int| 0 <= k < before.len() ==> before[k] == candidates[k]);
        if freshest(candidates) is Some {
            if freshest(candidates) == candidates[last] {
            } else {
                let k = choose|k: int| 0 <= k < before.len() && before[k] == freshest(before);
                assert(candidates[k] == freshest(candidates));
            }
        }
    }
}

/// The selection rule: a candidate is selected where no candidate has a greater time and
/// every candidate after it in scan order has a smaller one. So of several candidates with the
/// greatest time, the last in scan order is selected.
pub proof fn lemma_freshest_is_last_of_latest(candidates: Seq<Option<UsageCandidate>>, at: int)
    requires
        0 <= at < candidates.len(),
        candidates[at] is Some,
        forall|k: int|
            0 <= k < candidates.len() && candidates[k] is Some ==> candidates[k].unwrap().seconds
                <= candidates[at].unwrap().seconds,
        forall|k: int|
            at < k < candidates.len() && candidates[k] is Some ==> candidates[k].unwrap().seconds
                < candidates[at].unwrap().seconds,
    ensures
        freshest(candidates) == candidates[at],
    decreases candidates.len(),
{
    let before = candidates.drop_last();
    let last = candidates.len() - 1;
    assert(forall|k: int| 0 <= k < before.len() ==> before[k] == candidates[k]);
    if at == last {
        lemma_freshest_is_candidate(before);
        if freshest(before) is Some {
            let k = choose|k: int| 0 <= k < before.len() && before[k] == freshest(before);
            assert(candidates[k] is Some);
        }
    } else {
        lemma_freshest_is_last_of_latest(before, at);
    }
}

/// Of two records with the same time, the later one in scan order is selected.
pub proof fn lemma_later_wins_tie(earlier: UsageCandidate, later: UsageCandidate)
    requires
        earlier.seconds == later.seconds,
    ensures
        freshest(seq![Some(earlier), Some(later)]) == Some(later),
{
    lemma_freshest_is_last_of_latest(seq![Some(earlier), Some(later)], 1);
}

/// A scan reads the last [`SCAN_WINDOW`] lines and nothing else: the lines that stand before
/// them have no part in the selection, whatever they hold.
pub proof fn lemma_scan_reads_window_only(older: Seq<Seq<char>>, recent: Seq<Seq<char>>)
    requires
        recent.len() == SCAN_WINDOW,
    ensures
        scanned_usage(older + recent) == scanned_usage(recent),
{
    assert(scan_window(older + recent) == recent);
}

/// The tokens in use according to a transcript: the sum of the counts of the selected record,
/// and zero where there is no transcript or no record is selected.
pub open spec fn context_used(transcript: Option<Seq<char>>) -> nat {
    match transcript {
        Some(text) => match scanned_usage(lines(text)) {
            Some(selected) => selected.usage.total(),
            None => 0,
        },
        None => 0,
    }
}

/// The percentage text for a transcript.
pub open spec fn context_pct(transcript: Option<Seq<char>>) -> Seq<char> {
    percent_text(context_used(transcript))
}

/// Reads the counts of a usage block.
pub fn read_usage(usage: &serde_json::Value) -> (counts: UsageSnapshot)
    ensures
        counts == usage_of(json_contents(*usage)),
{
    UsageSnapshot {
        input_tokens: read_count(usage, "input_tokens"),
        output_tokens: read_count(usage, "output_tokens"),
        cache_read_input_tokens: read_count(usage, "cache_read_input_tokens"),
        cache_creation_input_tokens: read_count(usage, "cache_creation_input_tokens"),
    }
}

/// The candidate that a parsed record gives.
pub fn candidate_of(record: &serde_json::Value) -> (candidate: Option<UsageCandidate>)
    ensures
        candidate == record_candidate(json_contents(*record)),
{
    let timestamp = member(record, "timestamp");
    let usage = find_nested(record, "message", "usage");
    let role = find_nested(record, "message", "role");
    match (timestamp, usage, role) {
        (Some(timestamp), Some(usage), Some(role)) => {
            let assistant = match text_of(role) {
                Some(name) => same_str(name, "assistant"),
                None => false,
            };
            if assistant {
                let seconds = match parse_timestamp_in(timestamp, TimeUnit::Seconds) {
                    Some(s) => s,
                    None => 0,
                };
                Some(UsageCandidate { seconds, usage: read_usage(usage) })
            } else {
                None
            }
        },
        _ => None,
    }
}

/// The candidate that a line gives.
pub fn read_candidate(line: &[char]) -> (candidate: Option<UsageCandidate>)
    ensures
        candidate == line_candidate(line@),
{
    if blank(line) {
        return None;
    }
    let text = string_of(line);
    match parse_json(text.as_str()) {
        Some(record) => candidate_of(&record),
        None => None,
    }
}

/// Of a candidate held so far and the next one in scan order, the one to hold on.
pub fn keep_fresher(held: Option<UsageCandidate>, next: Option<UsageCandidate>) -> (kept: Option<
    UsageCandidate,
>)
    ensures
        kept == fresher(held, next),
{
    match (held, next) {
        (_, None) => held,
        (None, Some(_)) => next,
        (Some(h), Some(n)) => if n.seconds >= h.seconds {
            next
        } else {
            held
        },
    }
}

/// The freshest of some candidates, given in scan order.
pub fn select_freshest(candidates: &[Option<UsageCandidate>]) -> (selected: Option<UsageCandidate>)
    ensures
        selected == freshest(candidates@),
{
    let mut selected: Option<UsageCandidate> = None;
    let mut i: usize = 0;
    while i < candidates.len()
        invariant
            i <= candidates.len(),
            selected == freshest(candidates@.take(i as int)),
        decreases candidates.len() - i,
    {
        assert(candidates@.take(i + 1).drop_last() == candidates@.take(i as int));
        selected = keep_fresher(selected, candidates[i]);
        i += 1;
    }
    assert(candidates@.take(i as int) == candidates@);
    selected
}

/// Scans the last lines of a transcript and selects the freshest usage record.
pub fn scan_usage(transcript: &[Vec<char>]) -> (selected: Option<UsageCandidate>)
    ensures
        selected == scanned_usage(texts(transcript@)),
{
    let start: usize = if transcript.len() > SCAN_WINDOW {
        transcript.len() - SCAN_WINDOW
    } else {
        0
    };
    let ghost window = scan_window(texts(transcript@));
    assert(window == texts(transcript@).skip(start as int));
    let mut candidates: Vec<Option<UsageCandidate>> = Vec::new();
    let mut i: usize = start;
    while i < transcript.len()
        invariant
            start <= i <= transcript.len(),
            window == texts(transcript@).skip(start as int),
            candidates@ == line_candidates(window.take(i - start)),
        decreases transcript.len() - i,
    {
        let candidate = read_candidate(transcript[i].as_slice());
        candidates.push(candidate);
        assert(window.take(i - start + 1) == window.take(i - start).push(transcript@[i as int]@));
        i += 1;
    }
    assert(window.take(i - start) == window);
    select_freshest(candidates.as_slice())
}

/// The tokens in use according to a transcript.
pub fn context_tokens(transcript: Option<&str>) -> (used: u128)
    ensures
        used == context_used(text_view(transcript)),
{
    match transcript {
        Some(text) => {
            let chars = chars_of(text);
            let found = split_lines(chars.as_slice());
            match scan_usage(found.as_slice()) {
                Some(selected) => selected.usage.total_tokens(),
                None => 0,
            }
        },
        None => 0,
    }
}

/// The percentage of the context window in use, as the text that is shown for it. `transcript`
/// is what the transcript file holds, or `None` where there is no such file or it cannot be
/// read.
pub fn get_context_pct(transcript: Option<&str>) -> (text: String)
    ensures
        text@ == context_pct(text_view(transcript)),
{
    format_percent(context_tokens(transcript))
}

} // verus!
