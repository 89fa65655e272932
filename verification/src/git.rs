//! What the version-control queries say: whether a directory is in a repository, the branch,
//! and the lines changed in the working tree.
//!
//! The queries themselves are run by the caller. Each function here takes what a query wrote
//! to its standard output, or `None` where the query could not be run or failed.

use vstd::prelude::*;
use vstd::slice::slice_subrange;
use crate::number::{decimal, parse_u32, push_decimal, read_u32};
use crate::style::{DIFF_GLYPH, GREEN, RED, RESET};
use crate::text::{
    chars_of, find_from, index_of, lines, same_text, split_lines, string_of, text_view, texts,
    trim, trimmed,
};

verus! {

/// Whether the answer to "is this inside a work tree" is yes: the query succeeded and wrote
/// `true`, white space around it aside.
pub open spec fn in_repository(output: Option<Seq<char>>) -> bool {
    match output {
        Some(written) => trim(written) == "true"@,
        None => false,
    }
}

/// Whether a directory is in a repository, from the output of the work-tree query.
pub fn is_git_repo(output: Option<&str>) -> (yes: bool)
    ensures
        yes == in_repository(text_view(output)),
{
    match output {
        Some(written) => {
            let chars = chars_of(written);
            let answer = chars_of("true");
            same_text(trimmed(chars.as_slice()), answer.as_slice())
        },
        None => false,
    }
}

/// The branch that the branch query names: what it wrote, without the white space around it,
/// and the empty text where it failed.
pub open spec fn branch_name(output: Option<Seq<char>>) -> Seq<char> {
    match output {
        Some(written) => trim(written),
        None => Seq::empty(),
    }
}

/// The current branch, from the output of the branch query.
pub fn get_git_branch(output: Option<&str>) -> (branch: String)
    ensures
        branch@ == branch_name(text_view(output)),
{
    match output {
        Some(written) => {
            let chars = chars_of(written);
            string_of(trimmed(chars.as_slice()))
        },
        None => String::new(),
    }
}

/// Lines added and lines removed.
#[derive(Clone, Copy, Debug, PartialEq, Eq)]
pub struct DiffStat {
    pub added: u128,
    pub removed: u128,
}

/// The number that a field of a diff line counts for: the number it denotes, and zero where
/// it denotes none, as for a binary file.
pub open spec fn field_count(field: Seq<char>) -> nat {
    match parse_u32(field) {
        Some(n) => n as nat,
        None => 0,
    }
}

/// The first field of a line whose fields are separated by tabs.
pub open spec fn first_field(line: Seq<char>) -> Seq<char> {
    line.take(index_of(line, '\t') as int)
}

/// What follows the first tab of a line that has one.
pub open spec fn after_first_field(line: Seq<char>) -> Seq<char> {
    line.skip(index_of(line, '\t') as int + 1)
}

/// The lines that one line of the diff query adds and removes: its first and its second field,
/// where it has two fields or more.
pub open spec fn line_changes(line: Seq<char>) -> (nat, nat) {
    if index_of(line, '\t') >= line.len() {
        (0, 0)
    } else {
        (field_count(first_field(line)), field_count(first_field(after_first_field(line))))
    }
}

/// The lines that all lines of the diff query add and remove.
pub open spec fn total_changes(lines: Seq<Seq<char>>) -> (nat, nat)
    decreases lines.len(),
{
    if lines.len() == 0 {
        (0, 0)
    } else {
        let before = total_changes(lines.drop_last());
        let last = line_changes(lines.last());
        (before.0 + last.0, before.1 + last.1)
    }
}

/// The lines changed in the working tree: the totals over the lines that the diff query
/// wrote, and nothing where it failed.
pub open spec fn diff_changes(output: Option<Seq<char>>) -> (nat, nat) {
    match output {
        Some(written) => total_changes(lines(written)),
        None => (0, 0),
    }
}

/// Lines added in green and lines removed in red.
pub open spec fn changes_text(added: nat, removed: nat) -> Seq<char> {
    GREEN@ + seq!['+'] + decimal(added) + RESET@ + seq![' '] + RED@ + seq!['-'] + decimal(removed)
        + RESET@
}

/// The segment for the lines changed in the working tree; empty where nothing changed.
pub open spec fn diff_text(added: nat, removed: nat) -> Seq<char> {
    if added > 0 || removed > 0 {
        DIFF_GLYPH@ + seq![' '] + changes_text(added, removed)
    } else {
        Seq::empty()
    }
}

/// The segment that the output of the diff query gives.
pub open spec fn diff_display(output: Option<Seq<char>>) -> Seq<char> {
    diff_text(diff_changes(output).0, diff_changes(output).1)
}

/// Appends lines added and lines removed, in their colours, to `out`.
pub fn push_changes(out: &mut String, added: u128, removed: u128)
    ensures
        final(out)@ == old(out)@ + changes_text(added as nat, removed as nat),
{
    out.append(GREEN);
    out.push('+');
    push_decimal(out, added);
    out.append(RESET);
    out.push(' ');
    out.append(RED);
    out.push('-');
    push_decimal(out, removed);
    out.append(RESET);
    assert(out@ == old(out)@ + changes_text(added as nat, removed as nat));
}

/// The lines that one line of the diff query adds and removes.
pub fn read_line_changes(line: &[char]) -> (changes: (u32, u32))
    ensures
        line_changes(line@) == (changes.0 as nat, changes.1 as nat),
{
    let first_end = find_from(line, 0, '\t');
    assert(line@.skip(0) == line@);
    if first_end == line.len() {
        return (0, 0);
    }
    let second_end = find_from(line, first_end + 1, '\t');
    let first = slice_subrange(line, 0, first_end);
    let second = slice_subrange(line, first_end + 1, second_end);
    assert(first@ == first_field(line@));
    assert(second@ == first_field(after_first_field(line@)));
    let added: u32 = match read_u32(first) {
        Some(n) => n,
        None => 0,
    };
    let removed: u32 = match read_u32(second) {
        Some(n) => n,
        None => 0,
    };
    (added, removed)
}

/// The lines that all lines of the diff query add and remove.
pub fn sum_changes(written: &[Vec<char>]) -> (stat: DiffStat)
    ensures
        total_changes(texts(written@)) == (stat.added as nat, stat.removed as nat),
{
    let ghost all = texts(written@);
    let mut added: u128 = 0;
    let mut removed: u128 = 0;
    let mut i: usize = 0;
    while i < written.len()
        invariant
            i <= written.len(),
            all == texts(written@),
            total_changes(all.take(i as int)) == (added as nat, removed as nat),
            added <= i * 0xFFFF_FFFF,
            removed <= i * 0xFFFF_FFFF,
        decreases written.len() - i,
    {
        assert(all.take(i + 1).drop_last() == all.take(i as int));
        let changes = read_line_changes(written[i].as_slice());
        added = added + changes.0 as u128;
        removed = removed + changes.1 as u128;
        i += 1;
    }
    assert(all.take(i as int) == all);
    DiffStat { added, removed }
}

/// The lines changed in the working tree, from the output of the diff query.
pub fn read_diff(output: Option<&str>) -> (stat: DiffStat)
    ensures
        diff_changes(text_view(output)) == (stat.added as nat, stat.removed as nat),
{
    match output {
        Some(written) => {
            let chars = chars_of(written);
            let found = split_lines(chars.as_slice());
            sum_changes(found.as_slice())
        },
        None => DiffStat { added: 0, removed: 0 },
    }
}

/// The segment for `stat`; empty where nothing changed.
pub fn format_diff(stat: DiffStat) -> (text: String)
    ensures
        text@ == diff_text(stat.added as nat, stat.removed as nat),
{
    let mut text = String::new();
    if stat.added > 0 || stat.removed > 0 {
        text.append(DIFF_GLYPH);
        text.push(' ');
        push_changes(&mut text, stat.added, stat.removed);
    }
    text
}

/// The segment for the lines changed in the working tree, from the output of the diff query.
pub fn get_git_diff_lines(output: Option<&str>) -> (text: String)
    ensures
        text@ == diff_display(text_view(output)),
{
    format_diff(read_diff(output))
}

} // verus!
