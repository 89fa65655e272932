//! The status line: which segments it shows, in which colours, and how they are put together.

use vstd::prelude::*;
use vstd::slice::slice_subrange;
use crate::duration::{get_session_duration, session_duration};
use crate::git::{
    branch_name, changes_text, diff_display, get_git_branch, get_git_diff_lines, in_repository,
    is_git_repo, push_changes,
};
use crate::path::{last_component, last_component_start, shorten_home, tilde_path};
use crate::percent::{format_percent, percent_text, shown_percent_tenths, shown_tenths};
use crate::session::{
    cost_view, CostLevel, CostReading, CostView, SessionDescriptor, SessionView,
};
use crate::style::{
    BULLET, CONTEXT_GLYPH, COST_GLYPH, CYAN, DURATION_GLYPH, FOLDER_GLYPH, GRAY, GREEN,
    MODEL_GLYPH, ORANGE, PLACEHOLDER, RED, REPO_GLYPH, RESET, SILVER, YELLOW,
};
use crate::text::{
    as_text, chars_of, push_all, push_chars, same_text, string_view, text_view, trim_end,
    trimmed_end,
};
use crate::usage::{context_tokens, context_used};

verus! {

/// What the three version-control queries wrote to their standard output, each `None` where
/// the query was not run or failed.
#[derive(Clone, Debug, PartialEq, Eq)]
pub struct RepoOutputs {
    /// Of the query whether the directory is inside a work tree.
    pub work_tree: Option<String>,
    /// Of the query for the current branch.
    pub branch: Option<String>,
    /// Of the query for the lines changed, file by file.
    pub diff: Option<String>,
}

/// [`RepoOutputs`] in contracts.
pub struct RepoView {
    pub work_tree: Option<Seq<char>>,
    pub branch: Option<Seq<char>>,
    pub diff: Option<Seq<char>>,
}

impl View for RepoOutputs {
    type V = RepoView;

    open spec fn view(&self) -> RepoView {
        RepoView {
            work_tree: string_view(self.work_tree),
            branch: string_view(self.branch),
            diff: string_view(self.diff),
        }
    }
}

/// The segment for the model: present where the model has a name.
pub open spec fn model_segment(model: Option<Seq<char>>) -> Seq<char> {
    match model {
        Some(name) => MODEL_GLYPH@ + seq![' '] + ORANGE@ + name,
        None => Seq::empty(),
    }
}

/// The colour of a percentage that is shown as `tenths` tenths of a percent: red from ninety
/// percent on, orange from seventy, yellow from fifty, gray below.
pub open spec fn percent_colour(tenths: nat) -> Seq<char> {
    if tenths >= 900 {
        RED@
    } else if tenths >= 700 {
        ORANGE@
    } else if tenths >= 500 {
        YELLOW@
    } else {
        GRAY@
    }
}

/// The segment for the context window, which is always present. Its colour goes by the
/// number that is shown.
pub open spec fn context_segment(used: nat) -> Seq<char> {
    CONTEXT_GLYPH@ + seq![' '] + percent_colour(shown_tenths(used)) + percent_text(used)
        + seq!['%'] + RESET@
}

/// The segment for the session duration: present where there is a duration.
pub open spec fn duration_segment(duration: Option<Seq<char>>) -> Seq<char> {
    match duration {
        Some(text) => DURATION_GLYPH@ + seq![' '] + SILVER@ + text + RESET@,
        None => Seq::empty(),
    }
}

/// The segment for the lines changed in the session: present where any line changed.
pub open spec fn lines_segment(added: nat, removed: nat) -> Seq<char> {
    if added > 0 || removed > 0 {
        changes_text(added, removed)
    } else {
        Seq::empty()
    }
}

/// The colour of a cost: green below five dollars, yellow below twenty, red from twenty on.
pub open spec fn cost_colour(level: CostLevel) -> Seq<char> {
    match level {
        CostLevel::Zero => GREEN@,
        CostLevel::UnderFive => GREEN@,
        CostLevel::UnderTwenty => YELLOW@,
        CostLevel::TwentyOrMore => RED@,
    }
}

/// The segment for the running cost: present where there is a cost and it is not zero.
pub open spec fn cost_segment(cost: Option<CostView>) -> Seq<char> {
    match cost {
        Some(reading) => if reading.level is Zero {
            Seq::empty()
        } else {
            COST_GLYPH@ + seq![' '] + cost_colour(reading.level) + reading.text + RESET@
        },
        None => Seq::empty(),
    }
}

/// What stands before every segment that is shown: a space, a gray bullet and a space.
pub open spec fn separator() -> Seq<char> {
    seq![' '] + GRAY@ + BULLET@ + seq![' '] + RESET@
}

/// A segment as it is joined to the line: after a separator, and not at all where it is
/// empty.
pub open spec fn joined(segment: Seq<char>) -> Seq<char> {
    if segment.len() > 0 {
        separator() + segment
    } else {
        Seq::empty()
    }
}

/// The working directory as it is shown: the home directory at its start replaced by a tilde,
/// and a space after it.
pub open spec fn shown_path(dir: Seq<char>, home: Seq<char>) -> Seq<char> {
    tilde_path(dir, home) + seq![' ']
}

/// Whether the working directory is hidden: in short mode, on a branch, where the directory
/// lies directly in `Projects` under the home directory.
pub open spec fn hides_path(short_mode: bool, branch: Seq<char>, dir: Seq<char>, home: Seq<char>)
    -> bool {
    short_mode && branch.len() > 0 && dir == home + "/Projects/"@ + last_component(dir)
}

/// The branch that is shown: the one that the query names where the directory is in a
/// repository, else none.
pub open spec fn shown_branch(repo: RepoView) -> Seq<char> {
    if in_repository(repo.work_tree) {
        branch_name(repo.branch)
    } else {
        Seq::empty()
    }
}

/// The segment for the lines changed in the working tree: that of the diff query where the
/// directory is in a repository, else none.
pub open spec fn shown_diff(repo: RepoView) -> Seq<char> {
    if in_repository(repo.work_tree) {
        diff_display(repo.diff)
    } else {
        Seq::empty()
    }
}

/// The segments of the line in their fixed order: model, context, duration, lines changed in
/// the session, cost, lines changed in the working tree; each one joined.
pub open spec fn segments_text(
    session: SessionView,
    transcript: Option<Seq<char>>,
    diff: Seq<char>,
) -> Seq<char> {
    joined(model_segment(session.model)) + joined(context_segment(context_used(transcript)))
        + joined(duration_segment(session_duration(transcript))) + joined(
        lines_segment(session.lines_added, session.lines_removed),
    ) + joined(cost_segment(session.cost)) + joined(diff)
}

/// What stands between the glyph and the segments where the directory is `dir`: on a branch
/// the path, unless hidden, and the branch in brackets; else the path alone, without the
/// white space at its end.
pub open spec fn place_text(short_mode: bool, dir: Seq<char>, branch: Seq<char>, home: Seq<char>)
    -> Seq<char> {
    if branch.len() > 0 {
        (if hides_path(short_mode, branch, dir, home) {
            Seq::empty()
        } else {
            CYAN@ + shown_path(dir, home) + RESET@
        }) + GREEN@ + seq!['['] + branch + seq![']'] + RESET@
    } else {
        CYAN@ + trim_end(shown_path(dir, home)) + RESET@
    }
}

/// The glyph that starts the line.
pub open spec fn leading_glyph(repo: RepoView) -> Seq<char> {
    if in_repository(repo.work_tree) {
        REPO_GLYPH@
    } else {
        FOLDER_GLYPH@
    }
}

/// The status line. Without a working directory it is the placeholder and nothing else.
pub open spec fn status_text(
    short_mode: bool,
    session: SessionView,
    transcript: Option<Seq<char>>,
    repo: RepoView,
    home: Seq<char>,
) -> Seq<char> {
    match session.current_dir {
        Some(dir) => leading_glyph(repo) + seq![' '] + place_text(
            short_mode,
            dir,
            shown_branch(repo),
            home,
        ) + segments_text(session, transcript, shown_diff(repo)),
        None => PLACEHOLDER@,
    }
}

/// Appends a segment to `out` as it is joined to the line.
pub fn push_joined(out: &mut String, segment: &str)
    ensures
        final(out)@ == old(out)@ + joined(segment@),
{
    if !segment.is_empty() {
        out.push(' ');
        out.append(GRAY);
        out.append(BULLET);
        out.push(' ');
        out.append(RESET);
        out.append(segment);
        assert(out@ == old(out)@ + (separator() + segment@));
    } else {
        assert(old(out)@ + joined(segment@) == old(out)@);
    }
}

/// The segment for the model.
pub fn model_display(model: Option<&str>) -> (text: String)
    ensures
        text@ == model_segment(text_view(model)),
{
    let mut text = String::new();
    match model {
        Some(name) => {
            text.append(MODEL_GLYPH);
            text.push(' ');
            text.append(ORANGE);
            text.append(name);
        },
        None => {},
    }
    text
}

/// The segment for the context window, for `used` tokens in use.
pub fn context_display(used: u128) -> (text: String)
    ensures
        text@ == context_segment(used as nat),
{
    let tenths = shown_percent_tenths(used);
    let shown = format_percent(used);
    let mut text = String::new();
    text.append(CONTEXT_GLYPH);
    text.push(' ');
    if tenths >= 900 {
        text.append(RED);
    } else if tenths >= 700 {
        text.append(ORANGE);
    } else if tenths >= 500 {
        text.append(YELLOW);
    } else {
        text.append(GRAY);
    }
    text.append(shown.as_str());
    text.push('%');
    text.append(RESET);
    text
}

/// The segment for the session duration.
pub fn duration_display(duration: Option<&str>) -> (text: String)
    ensures
        text@ == duration_segment(text_view(duration)),
{
    let mut text = String::new();
    match duration {
        Some(shown) => {
            text.append(DURATION_GLYPH);
            text.push(' ');
            text.append(SILVER);
            text.append(shown);
            text.append(RESET);
        },
        None => {},
    }
    text
}

/// The segment for the lines changed in the session.
pub fn lines_display(added: u64, removed: u64) -> (text: String)
    ensures
        text@ == lines_segment(added as nat, removed as nat),
{
    let mut text = String::new();
    if added > 0 || removed > 0 {
        push_changes(&mut text, added as u128, removed as u128);
    }
    text
}

/// The segment for the running cost.
pub fn cost_display(cost: &Option<CostReading>) -> (text: String)
    ensures
        text@ == cost_segment(cost_view(*cost)),
{
    let mut text = String::new();
    match cost {
        Some(reading) => {
            match reading.level {
                CostLevel::Zero => {
                    return text;
                },
                CostLevel::UnderFive => {
                    text.append(COST_GLYPH);
                    text.push(' ');
                    text.append(GREEN);
                },
                CostLevel::UnderTwenty => {
                    text.append(COST_GLYPH);
                    text.push(' ');
                    text.append(YELLOW);
                },
                CostLevel::TwentyOrMore => {
                    text.append(COST_GLYPH);
                    text.push(' ');
                    text.append(RED);
                },
            }
            text.append(reading.text.as_str());
            text.append(RESET);
        },
        None => {},
    }
    text
}

/// Whether the working directory is hidden.
pub fn path_hidden(short_mode: bool, branch: &str, dir: &[char], home: &str) -> (hidden: bool)
    ensures
        hidden == hides_path(short_mode, branch@, dir@, home@),
{
    if !short_mode || branch.is_empty() {
        return false;
    }
    let mut standard: Vec<char> = chars_of(home);
    let middle = chars_of("/Projects/");
    push_all(&mut standard, middle.as_slice());
    let start = last_component_start(dir);
    push_all(&mut standard, slice_subrange(dir, start, dir.len()));
    assert(dir@.subrange(start as int, dir.len() as int) == dir@.skip(start as int));
    same_text(dir, standard.as_slice())
}

/// Appends to `out` what stands between the glyph and the segments.
pub fn push_place(out: &mut String, short_mode: bool, dir: &str, branch: &str, home: &str)
    ensures
        final(out)@ == old(out)@ + place_text(short_mode, dir@, branch@, home@),
{
    let chars = chars_of(dir);
    let home_chars = chars_of(home);
    let mut path = shorten_home(chars.as_slice(), home_chars.as_slice());
    path.push(' ');
    assert(path@ == shown_path(dir@, home@));
    if !branch.is_empty() {
        if !path_hidden(short_mode, branch, chars.as_slice(), home) {
            out.append(CYAN);
            push_chars(out, path.as_slice());
            out.append(RESET);
        }
        out.append(GREEN);
        out.push('[');
        out.append(branch);
        out.push(']');
        out.append(RESET);
        assert(out@ == old(out)@ + place_text(short_mode, dir@, branch@, home@));
    } else {
        let end = trimmed_end(path.as_slice());
        out.append(CYAN);
        push_chars(out, slice_subrange(path.as_slice(), 0, end));
        out.append(RESET);
        assert(path@.subrange(0, end as int) == path@.take(end as int));
        assert(out@ == old(out)@ + place_text(short_mode, dir@, branch@, home@));
    }
}

/// The segments of the line, each one joined; `diff` is the segment for the lines changed in
/// the working tree.
pub fn segments_display(session: &SessionDescriptor, transcript: Option<&str>, diff: &str) -> (text:
    String)
    ensures
        text@ == segments_text(session@, text_view(transcript), diff@),
{
    let model = model_display(as_text(&session.model));
    let context = context_display(context_tokens(transcript));
    let duration = duration_display(as_text(&get_session_duration(transcript)));
    let lines = lines_display(session.lines_added, session.lines_removed);
    let cost = cost_display(&session.cost);
    let mut text = String::new();
    push_joined(&mut text, model.as_str());
    push_joined(&mut text, context.as_str());
    push_joined(&mut text, duration.as_str());
    push_joined(&mut text, lines.as_str());
    push_joined(&mut text, cost.as_str());
    push_joined(&mut text, diff);
    text
}

/// The status line for one invocation.
///
/// `session` is the session descriptor, `transcript` what the transcript file holds (`None`
/// where there is none or it cannot be read), `repo` what the version-control queries wrote
/// for the working directory, and `home` the home directory. `short_mode` asks for the short
/// display of the path.
pub fn statusline(
    short_mode: bool,
    _show_pr_status: bool,
    session: &SessionDescriptor,
    transcript: Option<&str>,
    repo: &RepoOutputs,
    home: &str,
) -> (line: String)
    ensures
        line@ == status_text(short_mode, session@, text_view(transcript), repo@, home@),
        session.current_dir is None ==> line@ == PLACEHOLDER@,
{
    let mut line = String::new();
    let dir = match &session.current_dir {
        Some(dir) => dir,
        None => {
            line.append(PLACEHOLDER);
            return line;
        },
    };
    let in_repo = is_git_repo(as_text(&repo.work_tree));
    let branch = if in_repo {
        get_git_branch(as_text(&repo.branch))
    } else {
        String::new()
    };
    let diff = if in_repo {
        get_git_diff_lines(as_text(&repo.diff))
    } else {
        String::new()
    };
    let segments = segments_display(session, transcript, diff.as_str());
    if in_repo {
        line.append(REPO_GLYPH);
    } else {
        line.append(FOLDER_GLYPH);
    }
    line.push(' ');
    push_place(&mut line, short_mode, dir.as_str(), branch.as_str(), home);
    line.append(segments.as_str());
    line
}

} // verus!
