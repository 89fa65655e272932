//! Paths: the home directory, the last component of a path, and the tilde that stands for
//! the home directory at the start of a path.

use vstd::prelude::*;
use vstd::slice::slice_subrange;
use crate::text::{push_all, text_view};

verus! {

/// What follows the last `/` of a path; the whole path where it holds no `/`.
pub open spec fn last_component(path: Seq<char>) -> Seq<char>
    decreases path.len(),
{
    if path.len() == 0 || path.last() == '/' {
        Seq::empty()
    } else {
        last_component(path.drop_last()).push(path.last())
    }
}

/// A path with the home directory at its start shown as a tilde; a path that does not start
/// with the home directory stays as it is.
pub open spec fn tilde_path(path: Seq<char>, home: Seq<char>) -> Seq<char> {
    if home.len() <= path.len() && path.take(home.len() as int) == home {
        seq!['~'] + path.skip(home.len() as int)
    } else {
        path
    }
}

/// The index at which the last component of `path` begins.
pub fn last_component_start(path: &[char]) -> (start: usize)
    ensures
        start <= path.len(),
        last_component(path@) == path@.skip(start as int),
{
    let mut start: usize = path.len();
    assert(path@.take(start as int) == path@);
    assert(path@.skip(start as int) == Seq::<char>::empty());
    while start > 0 && path[start - 1] != '/'
        invariant
            start <= path.len(),
            last_component(path@) == last_component(path@.take(start as int)) + path@.skip(
                start as int,
            ),
        decreases start,
    {
        assert(path@.take(start as int).drop_last() == path@.take(start - 1));
        assert(last_component(path@.take(start as int)) == last_component(
            path@.take(start - 1),
        ).push(path@[start - 1]));
        assert(last_component(path@.take(start - 1)).push(path@[start - 1]) + path@.skip(
            start as int,
        ) == last_component(path@.take(start - 1)) + path@.skip(start - 1));
        start -= 1;
    }
    assert(last_component(path@.take(start as int)) == Seq::<char>::empty());
    start
}

/// Whether `pattern` stands in `s` at index `at`.
pub fn occurs_at(s: &[char], at: usize, pattern: &[char]) -> (yes: bool)
    requires
        at <= s.len(),
    ensures
        yes == (pattern.len() <= s.len() - at && s@.skip(at as int).take(pattern.len() as int)
            == pattern@),
{
    if pattern.len() > s.len() - at {
        return false;
    }
    let ghost here = s@.skip(at as int).take(pattern.len() as int);
    let mut i: usize = 0;
    while i < pattern.len()
        invariant
            i <= pattern.len(),
            pattern.len() <= s.len() - at,
            here == s@.skip(at as int).take(pattern.len() as int),
            forall|k: int| 0 <= k < i ==> here[k] == pattern@[k],
        decreases pattern.len() - i,
    {
        if s[at + i] != pattern[i] {
            assert(here[i as int] != pattern@[i as int]);
            return false;
        }
        i += 1;
    }
    assert(here == pattern@);
    true
}

/// `path` with the home directory at its start shown as a tilde.
pub fn shorten_home(path: &[char], home: &[char]) -> (shown: Vec<char>)
    ensures
        shown@ == tilde_path(path@, home@),
{
    let mut shown: Vec<char> = Vec::new();
    assert(path@.skip(0) == path@);
    if occurs_at(path, 0, home) {
        shown.push('~');
        push_all(&mut shown, slice_subrange(path, home.len(), path.len()));
        assert(path@.subrange(home.len() as int, path.len() as int) == path@.skip(
            home.len() as int,
        ));
    } else {
        push_all(&mut shown, path);
    }
    shown
}

/// The home directory: the value of the environment's variable for it, and `/` where the
/// variable is not set or is empty. It is never empty.
pub open spec fn home_or_root(home: Option<Seq<char>>) -> Seq<char> {
    match home {
        Some(path) => if path.len() > 0 {
            path
        } else {
            seq!['/']
        },
        None => seq!['/'],
    }
}

/// The home directory, from the value of the environment's variable for it.
pub fn home_dir(home: Option<&str>) -> (path: String)
    ensures
        path@ == home_or_root(text_view(home)),
        path@.len() > 0,
{
    let mut path = String::new();
    match home {
        Some(value) => {
            if value.is_empty() {
                path.push('/');
            } else {
                path.append(value);
            }
        },
        None => {
            path.push('/');
        },
    }
    path
}

} // verus!
