//! The session descriptor: what one invocation is told about the session it describes.

use vstd::prelude::*;
use crate::json::{
    count_member, find_nested, json_contents, member, nested_member, read_count, read_text,
    text_member, Json,
};
use crate::text::string_view;

verus! {

/// How high the running cost is. The cost itself is a fraction of dollars, which the caller
/// holds; the status line needs the band it falls in.
#[derive(Clone, Copy, Debug, PartialEq, Eq)]
pub enum CostLevel {
    /// No cost so far.
    Zero,
    /// Below five dollars.
    UnderFive,
    /// Five dollars or more, and below twenty.
    UnderTwenty,
    /// Twenty dollars or more.
    TwentyOrMore,
}

/// The running cost as the status line takes it: its band, and the text that shows it.
#[derive(Clone, Debug, PartialEq, Eq)]
pub struct CostReading {
    pub level: CostLevel,
    pub text: String,
}

/// A [`CostReading`] in contracts.
pub struct CostView {
    pub level: CostLevel,
    pub text: Seq<char>,
}

impl View for CostReading {
    type V = CostView;

    open spec fn view(&self) -> CostView {
        CostView { level: self.level, text: self.text@ }
    }
}

/// What an invocation is told about the session.
#[derive(Clone, Debug, PartialEq, Eq)]
pub struct SessionDescriptor {
    /// The working directory.
    pub current_dir: Option<String>,
    /// The display name of the model in use.
    pub model: Option<String>,
    /// The path of the transcript file, which the caller reads.
    pub transcript_path: Option<String>,
    /// Lines added in the session so far.
    pub lines_added: u64,
    /// Lines removed in the session so far.
    pub lines_removed: u64,
    /// The running cost.
    pub cost: Option<CostReading>,
}

/// A [`SessionDescriptor`] in contracts.
pub struct SessionView {
    pub current_dir: Option<Seq<char>>,
    pub model: Option<Seq<char>>,
    pub transcript_path: Option<Seq<char>>,
    pub lines_added: nat,
    pub lines_removed: nat,
    pub cost: Option<CostView>,
}

/// The view of a cost that may be missing.
pub open spec fn cost_view(cost: Option<CostReading>) -> Option<CostView> {
    match cost {
        Some(c) => Some(c@),
        None => None,
    }
}

impl View for SessionDescriptor {
    type V = SessionView;

    open spec fn view(&self) -> SessionView {
        SessionView {
            current_dir: string_view(self.current_dir),
            model: string_view(self.model),
            transcript_path: string_view(self.transcript_path),
            lines_added: self.lines_added as nat,
            lines_removed: self.lines_removed as nat,
            cost: cost_view(self.cost),
        }
    }
}

/// One of the two line counts of a descriptor: the count under `key` in the member `cost`,
/// and zero where there is no such member.
pub open spec fn session_lines(document: Json, key: Seq<char>) -> nat {
    match document.member("cost"@) {
        Some(cost) => count_member(cost, key) as nat,
        None => 0,
    }
}

/// The descriptor that a JSON document denotes, with the cost as the caller read it. Every
/// field may be missing; a field of another type than expected counts as missing.
pub open spec fn described_session(document: Json, cost: Option<CostView>) -> SessionView {
    SessionView {
        current_dir: text_member(nested_member(document, "workspace"@, "current_dir"@)),
        model: text_member(nested_member(document, "model"@, "display_name"@)),
        transcript_path: text_member(document.member("transcript_path"@)),
        lines_added: session_lines(document, "total_lines_added"@),
        lines_removed: session_lines(document, "total_lines_removed"@),
        cost,
    }
}

impl SessionDescriptor {
    /// Reads a descriptor from a JSON document. The cost is a fraction, so the caller reads
    /// it from the document and hands it over as a [`CostReading`].
    pub fn from_json(document: &serde_json::Value, cost: Option<CostReading>) -> (session: Self)
        ensures
            session@ == described_session(json_contents(*document), cost_view(cost)),
    {
        let current_dir = read_text(find_nested(document, "workspace", "current_dir"));
        let model = read_text(find_nested(document, "model", "display_name"));
        let transcript_path = read_text(member(document, "transcript_path"));
        let (lines_added, lines_removed) = match member(document, "cost") {
            Some(totals) => (
                read_count(totals, "total_lines_added"),
                read_count(totals, "total_lines_removed"),
            ),
            None => (0, 0),
        };
        SessionDescriptor { current_dir, model, transcript_path, lines_added, lines_removed, cost }
    }
}

} // verus!
