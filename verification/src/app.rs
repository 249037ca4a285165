use crate::focus::Focus;
use crate::focus::spec_next_focus;
use crate::focus::spec_prev_focus;
use crate::git_logic;
use crate::git_logic::GitError;
use crate::git_logic::GitInfo;
use vstd::prelude::*;

verus! {

/// A cursor is valid when it indexes its list, or sits at zero while the
/// list is empty.
pub open spec fn cursor_ok(idx: int, len: int) -> bool {
    if len == 0 {
        idx == 0
    } else {
        0 <= idx < len
    }
}

/// Where a cursor lands after one upward step: one position lower,
/// saturating at zero.
pub open spec fn up_index(i: usize) -> usize {
    if i > 0 {
        (i - 1) as usize
    } else {
        i
    }
}

/// Where a cursor lands after one downward step through a list of length
/// `len`: one position higher, stopping one before the length.
pub open spec fn down_index(i: usize, len: int) -> usize {
    if 0 < len && i < len - 1 {
        (i + 1) as usize
    } else {
        i
    }
}

/// The selection state behind the three panels: the focused panel, the
/// three list contents, and one cursor per list.
pub struct App {
    pub should_quit: bool,
    pub current_focus: Focus,
    pub branches: Vec<String>,
    pub commits: Vec<String>,
    pub staged_files: Vec<String>,
    pub branch_idx: usize,
    pub commit_idx: usize,
    pub staged_idx: usize,
}

/// What a commit-list refresh may do to the state: every field but the
/// commit list and its cursor stays put, and those two either change
/// together — the cursor reset to the top — or not at all.
pub open spec fn refresh_outcome(pre: App, post: App) -> bool {
    &&& post.should_quit == pre.should_quit
    &&& post.current_focus == pre.current_focus
    &&& post.branches == pre.branches
    &&& post.staged_files == pre.staged_files
    &&& post.branch_idx == pre.branch_idx
    &&& post.staged_idx == pre.staged_idx
    &&& (post.commit_idx == 0 || (post.commits == pre.commits && post.commit_idx
        == pre.commit_idx))
}

/// What one upward step does: the focused panel's cursor moves up one,
/// saturating at zero; on the branch panel a successful move is followed
/// by a commit-list refresh, and a move already saturated at zero changes
/// nothing.
pub open spec fn up_effect(pre: App, post: App) -> bool {
    match pre.current_focus {
        Focus::Branches => {
            if pre.branch_idx > 0 {
                refresh_outcome(App { branch_idx: (pre.branch_idx - 1) as usize, ..pre }, post)
            } else {
                post == pre
            }
        },
        Focus::Commits => post == App { commit_idx: up_index(pre.commit_idx), ..pre },
        Focus::Staged => post == App { staged_idx: up_index(pre.staged_idx), ..pre },
    }
}

/// What one downward step does: the focused panel's cursor moves down one,
/// stopping one before the list's length; on the branch panel a successful
/// move is followed by a commit-list refresh, and a move stopped at the
/// boundary changes nothing.
pub open spec fn down_effect(pre: App, post: App) -> bool {
    match pre.current_focus {
        Focus::Branches => {
            if 0 < pre.branches@.len() && pre.branch_idx < pre.branches@.len() - 1 {
                refresh_outcome(App { branch_idx: (pre.branch_idx + 1) as usize, ..pre }, post)
            } else {
                post == pre
            }
        },
        Focus::Commits => post == App {
            commit_idx: down_index(pre.commit_idx, pre.commits@.len() as int),
            ..pre
        },
        Focus::Staged => post == App {
            staged_idx: down_index(pre.staged_idx, pre.staged_files@.len() as int),
            ..pre
        },
    }
}

/// What one forward focus rotation does: focus advances one step through
/// the cycle and nothing else changes.
pub open spec fn rotate_right_effect(pre: App, post: App) -> bool {
    post == App { current_focus: spec_next_focus(pre.current_focus), ..pre }
}

/// What one backward focus rotation does: focus retreats one step through
/// the cycle and nothing else changes.
pub open spec fn rotate_left_effect(pre: App, post: App) -> bool {
    post == App { current_focus: spec_prev_focus(pre.current_focus), ..pre }
}

/// The branch list the dashboard falls back to when no repository can be
/// opened.
pub open spec fn spec_placeholder_branches() -> Seq<Seq<char>> {
    seq!["* main"@, "  dev"@, "  feature/ui"@]
}

/// The commit list the dashboard falls back to when no repository can be
/// opened.
pub open spec fn spec_placeholder_commits() -> Seq<Seq<char>> {
    seq!["a1b2c3d - Mock Commit 1"@, "e5f6g7h - Mock Commit 2"@]
}

/// The staged-file list the dashboard falls back to when no repository can
/// be opened.
pub open spec fn spec_placeholder_staged() -> Seq<Seq<char>> {
    seq!["src/main.rs"@, "Cargo.toml"@]
}

impl App {
    /// All three cursors are valid for their lists.
    pub open spec fn wf(self) -> bool {
        &&& cursor_ok(self.branch_idx as int, self.branches@.len() as int)
        &&& cursor_ok(self.commit_idx as int, self.commits@.len() as int)
        &&& cursor_ok(self.staged_idx as int, self.staged_files@.len() as int)
    }

    /// Builds the starting state from the outcome of the startup query:
    /// the fetched lists when it succeeded, the fixed placeholder dataset
    /// when it failed, with focus on the branch panel and every cursor at
    /// the top.
    pub fn from_query(fetched: Result<GitInfo, GitError>) -> (app: App)
        ensures
            app.wf(),
            !app.should_quit,
            app.current_focus == Focus::Branches,
            app.branch_idx == 0 && app.commit_idx == 0 && app.staged_idx == 0,
            fetched matches Ok(info) ==> app.branches == info.branches && app.commits
                == info.commits && app.staged_files == info.staged,
            fetched is Err ==> crate::str_views(app.branches@) == spec_placeholder_branches()
                && crate::str_views(app.commits@) == spec_placeholder_commits()
                && crate::str_views(app.staged_files@) == spec_placeholder_staged(),
    {
        let (branches, commits, staged_files): (Vec<String>, Vec<String>, Vec<String>) =
            match fetched {
            Ok(info) => (info.branches, info.commits, info.staged),
            Err(_) => {
                let mut branches: Vec<String> = Vec::new();
                branches.push(String::from_str("* main"));
                branches.push(String::from_str("  dev"));
                branches.push(String::from_str("  feature/ui"));
                let mut commits: Vec<String> = Vec::new();
                commits.push(String::from_str("a1b2c3d - Mock Commit 1"));
                commits.push(String::from_str("e5f6g7h - Mock Commit 2"));
                let mut staged_files: Vec<String> = Vec::new();
                staged_files.push(String::from_str("src/main.rs"));
                staged_files.push(String::from_str("Cargo.toml"));
                proof {
                    assert(crate::str_views(branches@) =~= spec_placeholder_branches());
                    assert(crate::str_views(commits@) =~= spec_placeholder_commits());
                    assert(crate::str_views(staged_files@) =~= spec_placeholder_staged());
                }
                (branches, commits, staged_files)
            },
        };
        App {
            should_quit: false,
            current_focus: Focus::Branches,
            branches,
            commits,
            staged_files,
            branch_idx: 0,
            commit_idx: 0,
            staged_idx: 0,
        }
    }

    /// Builds the starting state: queries the repository once and falls
    /// back to the placeholder dataset when that fails. Either way the
    /// commit panel starts with at most `COMMIT_LIMIT` lines, each in the
    /// commit display shape.
    pub fn new() -> (app: App)
        ensures
            app.wf(),
            !app.should_quit,
            app.current_focus == Focus::Branches,
            app.branch_idx == 0 && app.commit_idx == 0 && app.staged_idx == 0,
            app.commits@.len() <= git_logic::COMMIT_LIMIT,
            forall|i: int|
                0 <= i < app.commits@.len() ==> git_logic::is_commit_line(
                    (#[trigger] app.commits@[i])@,
                ),
    {
        let fetched = git_logic::get_repo_info();
        let app = App::from_query(fetched);
        proof {
            if fetched is Err {
                assert(app.commits@.len() == crate::str_views(app.commits@).len());
                reveal_strlit("a1b2c3d - Mock Commit 1");
                reveal_strlit("e5f6g7h - Mock Commit 2");
                reveal_strlit(" - ");
                assert(app.commits@[0]@ == "a1b2c3d - Mock Commit 1"@);
                assert(app.commits@[1]@ == "e5f6g7h - Mock Commit 2"@);
                assert(("a1b2c3d - Mock Commit 1"@).subrange(7, 10) =~= " - "@);
                assert(("e5f6g7h - Mock Commit 2"@).subrange(7, 10) =~= " - "@);
            }
        }
        app
    }

    /// Installs a fetched commit list: on success it replaces the commit
    /// list and resets its cursor to the top; on failure it leaves both
    /// exactly as they were. No other field changes either way.
    pub fn apply_fetched_commits(&mut self, fetched: Result<Vec<String>, GitError>)
        ensures
            final(self).should_quit == old(self).should_quit,
            final(self).current_focus == old(self).current_focus,
            final(self).branches == old(self).branches,
            final(self).staged_files == old(self).staged_files,
            final(self).branch_idx == old(self).branch_idx,
            final(self).staged_idx == old(self).staged_idx,
            fetched matches Ok(list) ==> final(self).commits == list && final(self).commit_idx
                == 0,
            fetched is Err ==> final(self).commits == old(self).commits && final(self).commit_idx
                == old(self).commit_idx,
    {
        if let Ok(new_commits) = fetched {
            self.commits = new_commits;
            self.commit_idx = 0;
        }
    }

    /// Refreshes the commit list for the branch under the branch cursor:
    /// recovers the bare name from the selected display string, queries the
    /// repository with it, and installs the outcome. With an empty branch
    /// list nothing happens at all.
    pub fn update_selection(&mut self)
        requires
            cursor_ok(old(self).branch_idx as int, old(self).branches@.len() as int),
        ensures
            refresh_outcome(*old(self), *final(self)),
            old(self).branches@.len() == 0 ==> *final(self) == *old(self),
            old(self).wf() ==> final(self).wf(),
    {
        if self.branches.len() == 0 {
            return ;
        }
        let clean_name = clean_branch_name(self.branches[self.branch_idx].as_str());
        let fetched = git_logic::get_commits_from_name(clean_name.as_str());
        self.apply_fetched_commits(fetched);
    }

    /// Moves the focused panel's cursor up one position, saturating at
    /// zero; a successful move on the branch panel refreshes the commit
    /// list for the newly selected branch.
    pub fn on_up(&mut self)
        requires
            old(self).wf(),
        ensures
            final(self).wf(),
            up_effect(*old(self), *final(self)),
    {
        match self.current_focus {
            Focus::Branches => {
                if self.branch_idx > 0 {
                    self.branch_idx = self.branch_idx - 1;
                    self.update_selection();
                }
            },
            Focus::Commits => {
                self.commit_idx = self.commit_idx.saturating_sub(1);
            },
            Focus::Staged => {
                self.staged_idx = self.staged_idx.saturating_sub(1);
            },
        }
    }

    /// Moves the focused panel's cursor down one position, stopping one
    /// before the list's length; a successful move on the branch panel
    /// refreshes the commit list for the newly selected branch.
    pub fn on_down(&mut self)
        requires
            old(self).wf(),
        ensures
            final(self).wf(),
            down_effect(*old(self), *final(self)),
    {
        match self.current_focus {
            Focus::Branches => {
                if self.branches.len() > 0 && self.branch_idx < self.branches.len() - 1 {
                    self.branch_idx = self.branch_idx + 1;
                    self.update_selection();
                }
            },
            Focus::Commits => {
                if self.commits.len() > 0 && self.commit_idx < self.commits.len() - 1 {
                    self.commit_idx = self.commit_idx + 1;
                }
            },
            Focus::Staged => {
                if self.staged_files.len() > 0 && self.staged_idx < self.staged_files.len() - 1 {
                    self.staged_idx = self.staged_idx + 1;
                }
            },
        }
    }

    /// Advances focus one step through the cycle: branches, commits,
    /// staged, and back to branches. Cursors and lists stay put.
    pub fn on_right(&mut self)
        ensures
            rotate_right_effect(*old(self), *final(self)),
            old(self).wf() ==> final(self).wf(),
    {
        self.current_focus = match self.current_focus {
            Focus::Branches => Focus::Commits,
            Focus::Commits => Focus::Staged,
            Focus::Staged => Focus::Branches,
        };
    }

    /// Retreats focus one step through the cycle, the exact inverse of the
    /// forward rotation. Cursors and lists stay put.
    pub fn on_left(&mut self)
        ensures
            rotate_left_effect(*old(self), *final(self)),
            old(self).wf() ==> final(self).wf(),
    {
        self.current_focus = match self.current_focus {
            Focus::Branches => Focus::Staged,
            Focus::Commits => Focus::Branches,
            Focus::Staged => Focus::Commits,
        };
    }
}

/// The two characters that may prefix a branch display string: the
/// head marker and the padding space.
pub open spec fn is_marker_char(c: char) -> bool {
    c == '*' || c == ' '
}

/// ASCII whitespace, the characters the name cleanup trims from either
/// end.
pub open spec fn is_blank_char(c: char) -> bool {
    c == ' ' || c == '\t' || c == '\n' || c == '\r' || c == '\u{b}' || c == '\u{c}'
}

/// The first position at or after `i` holding no marker character.
pub open spec fn marker_end(s: Seq<char>, i: int) -> int
    recommends
        0 <= i <= s.len(),
    decreases s.len() - i,
{
    if i < s.len() && is_marker_char(s[i]) {
        marker_end(s, i + 1)
    } else {
        i
    }
}

/// The first position at or after `i` holding no blank character.
pub open spec fn blank_end(s: Seq<char>, i: int) -> int
    recommends
        0 <= i <= s.len(),
    decreases s.len() - i,
{
    if i < s.len() && is_blank_char(s[i]) {
        blank_end(s, i + 1)
    } else {
        i
    }
}

/// The start of the run of blank characters that ends at `b`, cut off at
/// the floor `a`.
pub open spec fn blank_run_start(s: Seq<char>, a: int, b: int) -> int
    recommends
        0 <= a <= b <= s.len(),
    decreases b - a,
{
    if a < b && is_blank_char(s[b - 1]) {
        blank_run_start(s, a, b - 1)
    } else {
        b
    }
}

/// The bare branch name inside a display string: the leading marker
/// characters go, then surrounding blanks go.
pub open spec fn spec_clean_name(s: Seq<char>) -> Seq<char> {
    let start = blank_end(s, marker_end(s, 0));
    let end = blank_run_start(s, start, s.len() as int);
    s.subrange(start, end)
}

/// Recovers the bare branch name from a display string such as `"* main"`
/// or `"  feature/ui"`: strips the leading marker characters, then trims
/// blanks from both ends of what remains.
pub fn clean_branch_name(raw: &str) -> (r: String)
    ensures
        r@ == spec_clean_name(raw@),
{
    let len = raw.unicode_len();
    let mut start: usize = 0;
    while start < len
        invariant
            0 <= start <= len,
            len == raw@.len(),
            marker_end(raw@, 0) == marker_end(raw@, start as int),
        ensures
            0 <= start <= len,
            len == raw@.len(),
            marker_end(raw@, 0) == start as int,
        decreases len - start,
    {
        let c = raw.get_char(start);
        if !(c == '*' || c == ' ') {
            break ;
        }
        start = start + 1;
    }
    let ghost markers = start as int;
    while start < len
        invariant
            0 <= start <= len,
            len == raw@.len(),
            blank_end(raw@, markers) == blank_end(raw@, start as int),
        ensures
            0 <= start <= len,
            len == raw@.len(),
            blank_end(raw@, markers) == start as int,
        decreases len - start,
    {
        let c = raw.get_char(start);
        if !(c == ' ' || c == '\t' || c == '\n' || c == '\r' || c == '\u{b}' || c == '\u{c}') {
            break ;
        }
        start = start + 1;
    }
    let mut end: usize = len;
    while end > start
        invariant
            start <= end <= len,
            len == raw@.len(),
            blank_run_start(raw@, start as int, len as int) == blank_run_start(
                raw@,
                start as int,
                end as int,
            ),
        ensures
            start <= end <= len,
            len == raw@.len(),
            blank_run_start(raw@, start as int, len as int) == end as int,
        decreases end,
    {
        let c = raw.get_char(end - 1);
        if !(c == ' ' || c == '\t' || c == '\n' || c == '\r' || c == '\u{b}' || c == '\u{c}') {
            break ;
        }
        end = end - 1;
    }
    String::from_str(raw.substring_char(start, end))
}

} // verus!

