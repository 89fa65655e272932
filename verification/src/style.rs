//! The escape sequences and glyphs of the status line.

use vstd::prelude::*;

verus! {

/// Ends a colour.
pub const RESET: &'static str = "\x1b[0m";

pub const RED: &'static str = "\x1b[31m";

pub const GREEN: &'static str = "\x1b[32m";

pub const YELLOW: &'static str = "\x1b[33m";

pub const CYAN: &'static str = "\x1b[36m";

/// The dim gray of separators and of a low percentage.
pub const GRAY: &'static str = "\x1b[90m";

pub const ORANGE: &'static str = "\x1b[38;5;208m";

/// The lighter gray of the duration.
pub const SILVER: &'static str = "\x1b[38;5;245m";

/// Stands before the model's name.
pub const MODEL_GLYPH: &'static str = "🧠";

/// Stands before the context percentage.
pub const CONTEXT_GLYPH: &'static str = "📊";

/// Stands before the session duration.
pub const DURATION_GLYPH: &'static str = "⏱️";

/// Stands before the cost.
pub const COST_GLYPH: &'static str = "💰";

/// Stands before the lines changed in the working tree.
pub const DIFF_GLYPH: &'static str = "📝";

/// Starts the line where the directory is in a repository.
pub const REPO_GLYPH: &'static str = "⚡";

/// Starts the line where the directory is in no repository.
pub const FOLDER_GLYPH: &'static str = "📁";

/// Separates two segments.
pub const BULLET: &'static str = "•";

/// What is shown without a working directory.
pub const PLACEHOLDER: &'static str = "\x1b[36m~\x1b[0m";

} // verus!
