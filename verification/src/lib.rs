//! A keyboard-driven dashboard over a version-control repository: three
//! synchronized panels (branches, commits, staged files), a cursor per panel,
//! and a dependent refresh rule (selecting a branch reloads its commit list).
//!
//! This crate holds the verified core: the selection state machine, the input
//! dispatch table, and the query layer that turns raw repository records into
//! display strings. Terminal handling and frame rendering live outside.

use vstd::prelude::*;

pub mod app;
pub mod events;
mod focus;
pub mod git_logic;

pub use app::App;
pub use app::clean_branch_name;
pub use focus::Focus;
pub use focus::lemma_focus_rotation_cycle;
pub use focus::spec_next_focus;
pub use focus::spec_prev_focus;
pub use git_logic::GitError;
pub use git_logic::GitInfo;

verus! {

/// The views of a sequence of strings.
pub open spec fn str_views(v: Seq<String>) -> Seq<Seq<char>> {
    Seq::new(v.len(), |i: int| v[i]@)
}

} // verus!
