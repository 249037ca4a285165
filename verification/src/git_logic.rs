use vstd::prelude::*;

verus! {

/// Everything the dashboard shows, fetched in one startup query.
pub struct GitInfo {
    pub branches: Vec<String>,
    pub commits: Vec<String>,
    pub staged: Vec<String>,
}

/// How a repository query can fail. Per-item problems are skipped during
/// iteration and never surface here.
#[derive(Debug, Clone, Copy, PartialEq, Eq, Structural)]
pub enum GitError {
    /// No repository could be located or opened, or its branches or status
    /// could not be enumerated at startup.
    Open,
    /// A reference name could not be resolved to a commit, or its ancestry
    /// could not be walked.
    Resolve,
}

/// One branch as the repository reports it: its short name and whether it
/// is the currently checked-out head.
pub struct BranchRecord {
    pub name: String,
    pub is_head: bool,
}

/// One status entry as the repository reports it: a path and the raw
/// status bitflags attached to it.
pub struct StatusRecord {
    pub path: String,
    pub status_bits: u32,
}

/// One commit as the repository reports it: the full hex id and the
/// first-line summary of its message, if it has one.
pub struct CommitRecord {
    pub id_hex: String,
    pub summary: Option<String>,
}

/// Status bit for a path newly added to the index.
pub const STATUS_INDEX_NEW: u32 = 1;

/// Status bit for a path modified in the index.
pub const STATUS_INDEX_MODIFIED: u32 = 2;

/// Status bit for a path deleted from the index.
pub const STATUS_INDEX_DELETED: u32 = 4;

/// A status entry counts as staged when the index added, modified or
/// deleted the path; untracked and worktree-only changes do not count.
pub open spec fn is_staged_status(bits: u32) -> bool {
    bits & STATUS_INDEX_NEW != 0 || bits & STATUS_INDEX_MODIFIED != 0 || bits
        & STATUS_INDEX_DELETED != 0
}

/// The display line for one branch: a two-character prefix marking the
/// checked-out branch, then the bare name.
pub open spec fn spec_branch_display(name: Seq<char>, is_head: bool) -> Seq<char> {
    (if is_head {
        "* "@
    } else {
        "  "@
    }) + name
}

/// The paths of the staged entries among `s`, in order.
pub open spec fn spec_staged_paths(s: Seq<StatusRecord>) -> Seq<Seq<char>>
    decreases s.len(),
{
    if s.len() == 0 {
        Seq::empty()
    } else {
        spec_staged_paths(s.drop_last()) + (if is_staged_status(s.last().status_bits) {
            seq![s.last().path@]
        } else {
            Seq::empty()
        })
    }
}

/// The view of an optional summary string.
pub open spec fn spec_summary_view(summary: Option<String>) -> Option<Seq<char>> {
    match summary {
        Some(s) => Some(s@),
        None => None,
    }
}

/// The display line for one commit: the first seven characters of its hex
/// id, a separator, and its summary, with a placeholder when the summary
/// is absent.
pub open spec fn spec_commit_line(id_hex: Seq<char>, summary: Option<Seq<char>>) -> Seq<char> {
    id_hex.subrange(0, 7) + " - "@ + (match summary {
        Some(s) => s,
        None => "No message"@,
    })
}

/// The shape every commit display line has: a seven-character abbreviated
/// id, then the separator, then the rest.
pub open spec fn is_commit_line(s: Seq<char>) -> bool {
    s.len() >= 10 && s.subrange(7, 10) == " - "@
}

/// Every line the commit formatter can produce has the commit-line shape.
pub proof fn lemma_commit_line_shape(id_hex: Seq<char>, summary: Option<Seq<char>>)
    requires
        id_hex.len() >= 7,
    ensures
        is_commit_line(spec_commit_line(id_hex, summary)),
{
    reveal_strlit(" - ");
    reveal_strlit("No message");
    let line = spec_commit_line(id_hex, summary);
    assert(line.subrange(7, 10) =~= " - "@);
}

/// Formats one branch record for display: `"* "` before the checked-out
/// branch's name, two spaces before every other.
pub fn format_branch_entry(name: &str, is_head: bool) -> (r: String)
    ensures
        r@ == spec_branch_display(name@, is_head),
{
    let mut line = if is_head {
        String::from_str("* ")
    } else {
        String::from_str("  ")
    };
    line.append(name);
    line
}

/// Formats every branch record for display, in order.
pub fn format_branches(records: &Vec<BranchRecord>) -> (r: Vec<String>)
    ensures
        r@.len() == records@.len(),
        forall|i: int|
            0 <= i < records@.len() ==> (#[trigger] r@[i])@ == spec_branch_display(
                records@[i].name@,
                records@[i].is_head,
            ),
{
    let mut out: Vec<String> = Vec::new();
    let mut i: usize = 0;
    while i < records.len()
        invariant
            i <= records@.len(),
            out@.len() == i,
            forall|j: int|
                0 <= j < i ==> (#[trigger] out@[j])@ == spec_branch_display(
                    records@[j].name@,
                    records@[j].is_head,
                ),
        decreases records@.len() - i,
    {
        let entry = format_branch_entry(records[i].name.as_str(), records[i].is_head);
        out.push(entry);
        i += 1;
    }
    out
}

/// Keeps, in order, the paths of the entries whose status marks them as
/// staged, dropping every other entry.
pub fn staged_from_records(records: &Vec<StatusRecord>) -> (r: Vec<String>)
    ensures
        crate::str_views(r@) == spec_staged_paths(records@),
{
    let mut out: Vec<String> = Vec::new();
    let mut i: usize = 0;
    while i < records.len()
        invariant
            i <= records@.len(),
            crate::str_views(out@) == spec_staged_paths(records@.take(i as int)),
        decreases records@.len() - i,
    {
        let bits = records[i].status_bits;
        let ghost pre = out@;
        if bits & STATUS_INDEX_NEW != 0 || bits & STATUS_INDEX_MODIFIED != 0 || bits
            & STATUS_INDEX_DELETED != 0 {
            out.push(records[i].path.clone());
        }
        i += 1;
        proof {
            let taken = records@.take(i as int);
            assert(taken.drop_last() =~= records@.take(i - 1));
            assert(taken.last() == records@[i - 1]);
            if is_staged_status(records@[i - 1].status_bits) {
                assert(crate::str_views(out@) =~= crate::str_views(pre) + seq![
                    records@[i - 1].path@,
                ]);
            } else {
                assert(spec_staged_paths(taken) =~= spec_staged_paths(taken.drop_last()));
            }
        }
    }
    proof {
        assert(records@.take(records@.len() as int) =~= records@);
    }
    out
}

/// Formats one commit record for display: the seven-character abbreviated
/// id, a separator, and the summary or its placeholder.
pub fn format_commit_line(id_hex: &str, summary: &Option<String>) -> (r: String)
    requires
        id_hex@.len() >= 7,
    ensures
        r@ == spec_commit_line(id_hex@, spec_summary_view(*summary)),
{
    let mut line = String::from_str(id_hex.substring_char(0, 7));
    line.append(" - ");
    match summary {
        Some(s) => line.append(s.as_str()),
        None => line.append("No message"),
    }
    line
}

/// Formats every commit record for display, in order.
pub fn format_commit_lines(records: &Vec<CommitRecord>) -> (r: Vec<String>)
    requires
        forall|i: int| 0 <= i < records@.len() ==> (#[trigger] records@[i]).id_hex@.len() >= 7,
    ensures
        r@.len() == records@.len(),
        forall|i: int|
            0 <= i < records@.len() ==> (#[trigger] r@[i])@ == spec_commit_line(
                records@[i].id_hex@,
                spec_summary_view(records@[i].summary),
            ),
{
    let mut out: Vec<String> = Vec::new();
    let mut i: usize = 0;
    while i < records.len()
        invariant
            i <= records@.len(),
            out@.len() == i,
            forall|k: int|
                0 <= k < records@.len() ==> (#[trigger] records@[k]).id_hex@.len() >= 7,
            forall|j: int|
                0 <= j < i ==> (#[trigger] out@[j])@ == spec_commit_line(
                    records@[j].id_hex@,
                    spec_summary_view(records@[j].summary),
                ),
        decreases records@.len() - i,
    {
        let line = format_commit_line(records[i].id_hex.as_str(), &records[i].summary);
        out.push(line);
        i += 1;
    }
    out
}

#[verifier::external_type_specification]
#[verifier::external_body]
pub struct ExRepository(git2::Repository);

#[verifier::external_type_specification]
#[verifier::external_body]
pub struct ExGitLibError(git2::Error);

/// Relies on git2::Repository::discover: starting from the current working
/// directory it walks upward to locate an existing repository and opens it,
/// failing when none is found or it cannot be read. The outcome depends on
/// the process's working directory and the disk, so nothing is promised of
/// it.
#[verifier::external_body]
fn discover_repo() -> Result<git2::Repository, git2::Error> {
    git2::Repository::discover(".")
}

/// Relies on git2::Repository::branches and git2::Branch::{name, is_head}:
/// one record per readable branch, carrying its short name and whether it
/// is the checked-out head. A branch that cannot be read, or whose name is
/// not valid UTF-8 (git2::Branch::name reports those as Ok(None)), is
/// skipped and the enumeration goes on. Which branches exist depends on
/// the repository on disk, so nothing is promised of the outcome.
#[verifier::external_body]
fn branch_records(repo: &git2::Repository) -> Result<Vec<BranchRecord>, git2::Error> {
    let mut out = Vec::new();
    for item in repo.branches(None)? {
        if let Ok((branch, _)) = item {
            if let Ok(Some(name)) = branch.name() {
                out.push(BranchRecord { name: name.to_string(), is_head: branch.is_head() });
            }
        }
    }
    Ok(out)
}

/// Relies on git2::Repository::statuses, with untracked files excluded
/// through git2::StatusOptions::include_untracked(false), and on
/// git2::StatusEntry::{path, status}: one record per reported entry,
/// carrying its path and the raw status bitflags (git2::Status::bits, whose
/// index-new, index-modified and index-deleted bits are 1, 2 and 4).
/// Entries whose path is not valid UTF-8 are skipped. The result reflects
/// the index and working tree on disk, so nothing is promised of the
/// outcome.
#[verifier::external_body]
fn status_records(repo: &git2::Repository) -> Result<Vec<StatusRecord>, git2::Error> {
    let mut opts = git2::StatusOptions::new();
    opts.include_untracked(false);
    let statuses = repo.statuses(Some(&mut opts))?;
    let mut out = Vec::new();
    for entry in statuses.iter() {
        if let Ok(path) = entry.path() {
            out.push(StatusRecord { path: path.to_string(), status_bits: entry.status().bits() });
        }
    }
    Ok(out)
}

/// Relies on git2::Repository::revparse_single and
/// git2::Object::peel_to_commit to resolve a reference name to a commit,
/// and on git2::Revwalk (push, then set_sorting with git2::Sort::TIME) to
/// walk its ancestry in commit-time order, newest first. At most `limit`
/// records come back, each carrying the full forty-character hex id of one
/// commit (git2::Oid's Display impl always writes the complete hex form)
/// and the summary line of its message, None when the commit has no
/// summary or it is not valid UTF-8. Unreadable commits are skipped. Which
/// commits exist depends on the repository on disk, so beyond the count
/// and the id length nothing is promised of the outcome.
#[verifier::external_body]
fn walk_commit_records(repo: &git2::Repository, reference: &str, limit: usize) -> (r: Result<
    Vec<CommitRecord>,
    git2::Error,
>)
    ensures
        r matches Ok(v) ==> v@.len() <= limit && forall|i: int|
            0 <= i < v@.len() ==> (#[trigger] v@[i]).id_hex@.len() == 40,
{
    let commit = repo.revparse_single(reference)?.peel_to_commit()?;
    let mut walk = repo.revwalk()?;
    walk.push(commit.id())?;
    walk.set_sorting(git2::Sort::TIME)?;
    let mut out = Vec::new();
    for id in walk.take(limit) {
        if let Ok(oid) = id {
            if let Ok(c) = repo.find_commit(oid) {
                let summary = c.summary().ok().flatten().map(|s| s.to_string());
                out.push(CommitRecord { id_hex: oid.to_string(), summary });
            }
        }
    }
    Ok(out)
}

/// How many commits a panel shows at most.
pub const COMMIT_LIMIT: usize = 20;

/// Walks at most `COMMIT_LIMIT` commits reachable from the named reference
/// and formats them for display. Success depends on what is on disk; the
/// count bound holds of every successful outcome.
pub fn get_commits_from_name(branch_name: &str) -> (r: Result<Vec<String>, GitError>)
    ensures
        r matches Ok(v) ==> v@.len() <= COMMIT_LIMIT && forall|i: int|
            0 <= i < v@.len() ==> is_commit_line((#[trigger] v@[i])@),
{
    let repo = match discover_repo() {
        Ok(repo) => repo,
        Err(_) => {
            return Err(GitError::Open);
        },
    };
    get_commits_for_branch(&repo, branch_name)
}

/// Walks at most `COMMIT_LIMIT` commits reachable from the named reference
/// of an already opened repository and formats them for display.
pub fn get_commits_for_branch(repo: &git2::Repository, branch_ref: &str) -> (r: Result<
    Vec<String>,
    GitError,
>)
    ensures
        r matches Ok(v) ==> v@.len() <= COMMIT_LIMIT && forall|i: int|
            0 <= i < v@.len() ==> is_commit_line((#[trigger] v@[i])@),
{
    match walk_commit_records(repo, branch_ref, COMMIT_LIMIT) {
        Ok(records) => {
            let lines = format_commit_lines(&records);
            proof {
                assert forall|i: int| 0 <= i < lines@.len() implies is_commit_line(
                    (#[trigger] lines@[i])@,
                ) by {
                    lemma_commit_line_shape(
                        records@[i].id_hex@,
                        spec_summary_view(records@[i].summary),
                    );
                }
            }
            Ok(lines)
        },
        Err(_) => Err(GitError::Resolve),
    }
}

/// The staged-file panel's contents for an already opened repository: the
/// paths whose index status marks them as staged, in the order the
/// repository reports them. What comes back depends on the disk; the
/// filtering itself is `staged_from_records`, whose contract is exact.
/// Failure here is always a repository-access failure, never a
/// reference-resolution one.
pub fn get_staged_files(repo: &git2::Repository) -> (r: Result<Vec<String>, GitError>)
    ensures
        r is Err ==> r == Err::<Vec<String>, GitError>(GitError::Open),
{
    match status_records(repo) {
        Ok(records) => Ok(staged_from_records(&records)),
        Err(_) => Err(GitError::Open),
    }
}

/// Fetches everything the dashboard shows: the branch list with the
/// checked-out branch marked, the commit list of the current head, and the
/// staged files. Fails only when the repository itself cannot be opened or
/// enumerated; what comes back depends on the disk, so only the display
/// shape is promised of a successful outcome.
pub fn get_repo_info() -> (r: Result<GitInfo, GitError>)
    ensures
        r matches Ok(info) ==> info.commits@.len() <= COMMIT_LIMIT && forall|i: int|
            0 <= i < info.commits@.len() ==> is_commit_line((#[trigger] info.commits@[i])@),
        r matches Ok(info) ==> forall|i: int|
            0 <= i < info.branches@.len() ==> ((#[trigger] info.branches@[i])@.len() >= 2 && (
            info.branches@[i]@.subrange(0, 2) == "* "@ || info.branches@[i]@.subrange(0, 2)
                == "  "@)),
{
    let repo = match discover_repo() {
        Ok(repo) => repo,
        Err(_) => {
            return Err(GitError::Open);
        },
    };
    let brecords = match branch_records(&repo) {
        Ok(records) => records,
        Err(_) => {
            return Err(GitError::Open);
        },
    };
    let branches = format_branches(&brecords);
    let staged = match get_staged_files(&repo) {
        Ok(staged) => staged,
        Err(_) => {
            return Err(GitError::Open);
        },
    };
    let commits = match get_commits_for_branch(&repo, "HEAD") {
        Ok(commits) => commits,
        Err(_) => {
            return Err(GitError::Resolve);
        },
    };
    proof {
        reveal_strlit("* ");
        reveal_strlit("  ");
        assert forall|i: int| 0 <= i < branches@.len() implies ((#[trigger] branches@[i])@.len()
            >= 2 && (branches@[i]@.subrange(0, 2) == "* "@ || branches@[i]@.subrange(0, 2)
            == "  "@)) by {
            let name = brecords@[i].name@;
            let head = brecords@[i].is_head;
            assert(branches@[i]@ == spec_branch_display(name, head));
            if head {
                assert(branches@[i]@.subrange(0, 2) =~= "* "@);
            } else {
                assert(branches@[i]@.subrange(0, 2) =~= "  "@);
            }
        }
    }
    Ok(GitInfo { branches, commits, staged })
}

} // verus!
