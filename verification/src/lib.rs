//! A one-line status summary for an interactive coding session: working directory, branch,
//! model, context-window use, session duration, lines changed and running cost.
//!
//! The library computes; it reads no file and runs no command. Its caller hands it the
//! session descriptor, the contents of the transcript file and the output of the
//! version-control queries, and prints the line that [`statusline`] returns.

pub mod compose;
pub mod duration;
pub mod git;
pub mod json;
pub mod number;
pub mod path;
pub mod percent;
pub mod session;
pub mod style;
pub mod text;
pub mod timestamp;
pub mod usage;

pub use crate::compose::{statusline, RepoOutputs};
pub use crate::duration::get_session_duration;
pub use crate::git::{get_git_branch, get_git_diff_lines, is_git_repo};
pub use crate::path::home_dir;
pub use crate::session::{CostLevel, CostReading, SessionDescriptor};
pub use crate::timestamp::parse_timestamp;
pub use crate::usage::get_context_pct;
