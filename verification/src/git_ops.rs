//! What git says of a repo, and what follows from it.
//!
//! The values here are what the object database, the configuration and the
//! `git` command give; the functions decide on them.

use vstd::prelude::*;

use crate::forge::{github_remote, parse_github_remote, GitHubRepo};
use crate::table::Table;
use crate::text::{
    clone_opt, contains, eq_ignore_ascii_case, has_part, has_prefix, list_contains,
    same_ignoring_case, strip_prefix, text_eq, trim, trimmed, view_opt, views,
};

verus! {

// ---------------------------------------------------------------------------
// Data types
// ---------------------------------------------------------------------------

#[derive(Debug, Clone)]
pub struct RepoBranch {
    pub name: String,
    pub local_oid: String,
    pub upstream_name: Option<String>,
    pub remote_oid: Option<String>,
    pub is_head: bool,
    /// The remote configured for this branch (`branch.<name>.remote`), defaults to "origin".
    pub remote: String,
    /// The name of the branch on the remote.
    pub remote_ref: String,
}

#[derive(Debug, Clone, Copy, PartialEq, Eq, Structural)]
pub enum MergeAnalysis {
    UpToDate,
    FastForward,
    LocalAhead,
    Diverged,
    UpstreamGone,
}

impl MergeAnalysis {
    /// The name of the result.
    pub open spec fn name(self) -> Seq<char> {
        match self {
            MergeAnalysis::UpToDate => "UpToDate"@,
            MergeAnalysis::FastForward => "FastForward"@,
            MergeAnalysis::LocalAhead => "LocalAhead"@,
            MergeAnalysis::Diverged => "Diverged"@,
            MergeAnalysis::UpstreamGone => "UpstreamGone"@,
        }
    }

    /// The name of the result.
    pub fn label(&self) -> (r: &'static str)
        ensures
            r@ == self.name(),
    {
        match self {
            MergeAnalysis::UpToDate => "UpToDate",
            MergeAnalysis::FastForward => "FastForward",
            MergeAnalysis::LocalAhead => "LocalAhead",
            MergeAnalysis::Diverged => "Diverged",
            MergeAnalysis::UpstreamGone => "UpstreamGone",
        }
    }
}

/// Whether local history was rewritten, as the reflog shows it.
#[derive(Debug, Clone, Copy, PartialEq, Eq, Structural)]
pub enum HistoryRewrite {
    /// No published tip was rewritten.
    NoRewrite,
    /// A published tip was rewritten, and the remote still stands at it.
    RemoteUnchanged,
    /// A published tip was rewritten, and the remote has moved past it.
    RemoteAdvanced,
}

impl HistoryRewrite {
    /// The name of the result.
    pub open spec fn name(self) -> Seq<char> {
        match self {
            HistoryRewrite::NoRewrite => "None"@,
            HistoryRewrite::RemoteUnchanged => "RemoteUnchanged"@,
            HistoryRewrite::RemoteAdvanced => "RemoteAdvanced"@,
        }
    }

    /// The name of the result.
    pub fn label(&self) -> (r: &'static str)
        ensures
            r@ == self.name(),
    {
        match self {
            HistoryRewrite::NoRewrite => "None",
            HistoryRewrite::RemoteUnchanged => "RemoteUnchanged",
            HistoryRewrite::RemoteAdvanced => "RemoteAdvanced",
        }
    }
}

#[derive(Debug, Clone)]
pub struct WorktreeInfo {
    pub path: String,
    pub head_branch: Option<String>,
    pub is_clean: bool,
}

#[derive(Debug)]
pub enum PushResult {
    Success,
    Rejected(String),
    AuthFailed(String),
    NetworkError(String),
    HookTimeout,
}

// ---------------------------------------------------------------------------
// Remotes
// ---------------------------------------------------------------------------

/// The remote that stands for a repo.
pub open spec fn primary_of(has_origin: bool, remotes: Seq<String>) -> Option<Seq<char>> {
    if has_origin {
        Some("origin"@)
    } else if remotes.len() > 0 {
        Some(remotes[0]@)
    } else {
        None
    }
}

/// The remote whose URL stands for the repo: "origin" if it is there, else the
/// first one.
pub fn primary_remote(has_origin: bool, remotes: &Vec<String>) -> (r: Option<String>)
    ensures
        view_opt(r) == primary_of(has_origin, remotes@),
        view_opt(r) == (if has_origin {
            Some("origin"@)
        } else if remotes@.len() > 0 {
            Some(remotes@[0]@)
        } else {
            None
        }),
{
    if has_origin {
        Some(String::from_str("origin"))
    } else if remotes.len() > 0 {
        Some(String::from_str(remotes[0].as_str()))
    } else {
        None
    }
}

// ---------------------------------------------------------------------------
// Branches
// ---------------------------------------------------------------------------

/// What git tells of a local branch.
#[derive(Debug)]
pub struct BranchProbe {
    /// The name, if it is readable.
    pub name: Option<String>,
    /// The commit that the branch points at, if it points at one directly.
    pub target: Option<String>,
    /// Whether the branch has an upstream that can be resolved.
    pub has_upstream: bool,
    pub upstream_name: Option<String>,
    pub upstream_target: Option<String>,
    /// `branch.<name>.remote`.
    pub configured_remote: Option<String>,
    /// `branch.<name>.merge`.
    pub configured_merge: Option<String>,
}

/// The name of a ref without `refs/heads/` in front.
pub open spec fn short_ref(name: Seq<char>) -> Seq<char> {
    if has_prefix(name, "refs/heads/"@) {
        name.skip("refs/heads/"@.len() as int)
    } else {
        name
    }
}

/// A branch is what a probe with a name and a target tells.
pub open spec fn is_branch_of(b: RepoBranch, p: BranchProbe, head: Option<Seq<char>>) -> bool {
    &&& Some(b.name@) == view_opt(p.name)
    &&& Some(b.local_oid@) == view_opt(p.target)
    &&& view_opt(b.upstream_name) == (if p.has_upstream {
        view_opt(p.upstream_name)
    } else {
        None
    })
    &&& view_opt(b.remote_oid) == (if p.has_upstream {
        view_opt(p.upstream_target)
    } else {
        None
    })
    &&& b.is_head == (head == Some(b.name@))
    &&& b.remote@ == (match p.configured_remote {
        Some(r) => r@,
        None => "origin"@,
    })
    &&& b.remote_ref@ == (match p.configured_merge {
        Some(m) => short_ref(m@),
        None => b.name@,
    })
}

/// Whether a probe shows a branch that can be tracked.
pub open spec fn is_trackable(p: BranchProbe) -> bool {
    p.name is Some && p.target is Some
}

/// The trackable ones among the probes, in their order.
pub open spec fn trackable(probes: Seq<BranchProbe>) -> Seq<BranchProbe>
    decreases probes.len(),
{
    if probes.len() == 0 {
        Seq::empty()
    } else if is_trackable(probes.last()) {
        trackable(probes.drop_last()).push(probes.last())
    } else {
        trackable(probes.drop_last())
    }
}

fn branch_of(p: &BranchProbe, name: &String, target: &String, head: Option<&str>) -> (r: RepoBranch)
    requires
        p.name == Some(*name),
        p.target == Some(*target),
    ensures
        is_branch_of(
            r,
            *p,
            match head {
                Some(h) => Some(h@),
                None => None,
            },
        ),
{
    let is_head = match head {
        Some(h) => text_eq(h, name.as_str()),
        None => false,
    };
    let upstream_name = if p.has_upstream {
        clone_opt(&p.upstream_name)
    } else {
        None
    };
    let remote_oid = if p.has_upstream {
        clone_opt(&p.upstream_target)
    } else {
        None
    };
    let remote = match &p.configured_remote {
        Some(r) => String::from_str(r.as_str()),
        None => String::from_str("origin"),
    };
    let remote_ref = match &p.configured_merge {
        Some(m) => match strip_prefix(m.as_str(), "refs/heads/") {
            Some(short) => short,
            None => String::from_str(m.as_str()),
        },
        None => String::from_str(name.as_str()),
    };
    RepoBranch {
        name: String::from_str(name.as_str()),
        local_oid: String::from_str(target.as_str()),
        upstream_name,
        remote_oid,
        is_head,
        remote,
        remote_ref,
    }
}

/// List all local tracking branches with their upstream info. `head` is the
/// short name that HEAD points at.
pub fn list_branches(probes: &Vec<BranchProbe>, head: Option<&str>) -> (r: Vec<RepoBranch>)
    ensures
        r@.len() == trackable(probes@).len(),
        forall|i: int|
            0 <= i < r@.len() ==> is_branch_of(
                #[trigger] r@[i],
                trackable(probes@)[i],
                match head {
                    Some(h) => Some(h@),
                    None => None,
                },
            ),
{
    let mut out: Vec<RepoBranch> = Vec::new();
    let mut i: usize = 0;
    while i < probes.len()
        invariant
            i <= probes@.len(),
            out@.len() == trackable(probes@.take(i as int)).len(),
            forall|k: int|
                0 <= k < out@.len() ==> is_branch_of(
                    #[trigger] out@[k],
                    trackable(probes@.take(i as int))[k],
                    match head {
                        Some(h) => Some(h@),
                        None => None,
                    },
                ),
        decreases probes.len() - i,
    {
        let ghost t = probes@.take(i + 1);
        assert(t.drop_last() =~= probes@.take(i as int));
        assert(t.last() == probes@[i as int]);
        let p = &probes[i];
        if let Some(name) = &p.name {
            if let Some(target) = &p.target {
                out.push(branch_of(p, name, target, head));
            }
        }
        i = i + 1;
    }
    assert(probes@.take(i as int) =~= probes@);
    out
}

/// How a local tip stands to its upstream tip. `local_behind` says that the
/// upstream tip descends from the local one, `local_ahead` the reverse.
pub open spec fn analysis_of(
    local: Seq<char>,
    upstream: Option<Seq<char>>,
    local_behind: bool,
    local_ahead: bool,
) -> MergeAnalysis {
    match upstream {
        None => MergeAnalysis::UpstreamGone,
        Some(remote) => if local == remote || (local_behind && local_ahead) {
            MergeAnalysis::UpToDate
        } else if local_behind {
            MergeAnalysis::FastForward
        } else if local_ahead {
            MergeAnalysis::LocalAhead
        } else {
            MergeAnalysis::Diverged
        },
    }
}

/// Analyze merge status between a local branch and its upstream.
pub fn analyze_merge(
    local_oid: &str,
    remote_oid: Option<&str>,
    local_is_ancestor: bool,
    remote_is_ancestor: bool,
) -> (r: MergeAnalysis)
    ensures
        r == analysis_of(
            local_oid@,
            match remote_oid {
                Some(o) => Some(o@),
                None => None,
            },
            local_is_ancestor,
            remote_is_ancestor,
        ),
{
    let remote_oid = match remote_oid {
        Some(oid) => oid,
        None => {
            return MergeAnalysis::UpstreamGone;
        },
    };
    if text_eq(local_oid, remote_oid) {
        return MergeAnalysis::UpToDate;
    }
    if local_is_ancestor {
        if remote_is_ancestor {
            MergeAnalysis::UpToDate
        } else {
            MergeAnalysis::FastForward
        }
    } else if remote_is_ancestor {
        MergeAnalysis::LocalAhead
    } else {
        MergeAnalysis::Diverged
    }
}

/// Looked at from the other side, ahead and behind change places.
pub proof fn law_analysis_is_symmetric(
    local: Seq<char>,
    remote: Seq<char>,
    local_behind: bool,
    local_ahead: bool,
)
    ensures
        ({
            let here = analysis_of(local, Some(remote), local_behind, local_ahead);
            let there = analysis_of(remote, Some(local), local_ahead, local_behind);
            &&& here is UpToDate <==> there is UpToDate
            &&& here is Diverged <==> there is Diverged
            &&& here is FastForward <==> there is LocalAhead
            &&& here is LocalAhead <==> there is FastForward
        }),
{
}

/// A tip that the branch had before, as the reflog shows it.
#[derive(Debug)]
pub struct PriorTip {
    pub oid: String,
    /// The tip is reachable from the remote tip: it was published.
    pub on_remote: bool,
    /// The tip is reachable from the local tip: it was not rewritten.
    pub on_local: bool,
}

/// Whether a tip was published and then rewritten.
pub open spec fn was_rewritten(t: PriorTip) -> bool {
    t.on_remote && !t.on_local
}

/// Whether some tip was published and then rewritten.
pub open spec fn some_rewritten(tips: Seq<PriorTip>) -> bool {
    exists|i: int| 0 <= i < tips.len() && was_rewritten(#[trigger] tips[i])
}

/// Whether the remote still stands at a tip that was rewritten.
pub open spec fn remote_at_rewritten(tips: Seq<PriorTip>, remote: Seq<char>) -> bool {
    exists|i: int|
        0 <= i < tips.len() && was_rewritten(#[trigger] tips[i]) && tips[i].oid@ == remote
}

/// What the prior tips of a branch say of its history.
pub open spec fn rewrite_of(tips: Seq<PriorTip>, remote: Seq<char>) -> HistoryRewrite {
    if !some_rewritten(tips) {
        HistoryRewrite::NoRewrite
    } else if remote_at_rewritten(tips, remote) {
        HistoryRewrite::RemoteUnchanged
    } else {
        HistoryRewrite::RemoteAdvanced
    }
}

/// Whether local history was rewritten after it had been published: a prior tip
/// is reachable from the remote and not from the local branch. The remote is
/// unchanged if it still stands at such a tip.
pub fn detect_history_rewrite(tips: &Vec<PriorTip>, remote_oid: &str) -> (r: HistoryRewrite)
    ensures
        r == rewrite_of(tips@, remote_oid@),
        r == (if !some_rewritten(tips@) {
            HistoryRewrite::NoRewrite
        } else if remote_at_rewritten(tips@, remote_oid@) {
            HistoryRewrite::RemoteUnchanged
        } else {
            HistoryRewrite::RemoteAdvanced
        }),
{
    let mut found = false;
    let mut i: usize = 0;
    while i < tips.len()
        invariant
            i <= tips@.len(),
            found <==> exists|k: int| 0 <= k < i && was_rewritten(#[trigger] tips@[k]),
            forall|k: int|
                0 <= k < i && was_rewritten(#[trigger] tips@[k]) ==> tips@[k].oid@ != remote_oid@,
        decreases tips.len() - i,
    {
        let t = &tips[i];
        if t.on_remote && !t.on_local {
            assert(was_rewritten(tips@[i as int]));
            if text_eq(t.oid.as_str(), remote_oid) {
                return HistoryRewrite::RemoteUnchanged;
            }
            found = true;
        }
        i = i + 1;
    }
    if found {
        HistoryRewrite::RemoteAdvanced
    } else {
        HistoryRewrite::NoRewrite
    }
}

/// A branch whose every prior tip is still part of it was not rewritten.
pub proof fn law_moving_forward_is_no_rewrite(tips: Seq<PriorTip>)
    requires
        forall|i: int| 0 <= i < tips.len() ==> (#[trigger] tips[i]).on_local,
    ensures
        !some_rewritten(tips),
{
}

// ---------------------------------------------------------------------------
// Worktrees
// ---------------------------------------------------------------------------

/// What git tells of a worktree.
#[derive(Debug)]
pub struct WorktreeProbe {
    pub path: String,
    /// Whether HEAD points at a branch.
    pub head_is_branch: bool,
    /// The short name that HEAD points at.
    pub head_name: Option<String>,
    /// Whether tracked files have changes, if that could be found out.
    pub dirty: Option<bool>,
}

/// A worktree is what the probe tells. One that could not be looked at is not clean.
pub open spec fn is_worktree_of(w: WorktreeInfo, p: WorktreeProbe) -> bool {
    &&& w.path@ == p.path@
    &&& view_opt(w.head_branch) == (if p.head_is_branch {
        view_opt(p.head_name)
    } else {
        None
    })
    &&& w.is_clean == (p.dirty == Some(false))
}

fn worktree_of(p: &WorktreeProbe) -> (r: WorktreeInfo)
    ensures
        is_worktree_of(r, *p),
{
    WorktreeInfo {
        path: String::from_str(p.path.as_str()),
        head_branch: if p.head_is_branch {
            clone_opt(&p.head_name)
        } else {
            None
        },
        is_clean: match p.dirty {
            Some(dirty) => !dirty,
            None => false,
        },
    }
}

/// The worktrees of a repo that could be opened: the main one first, if the
/// repo has one, then the linked ones.
pub open spec fn opened(main: Option<WorktreeProbe>, linked: Seq<Option<WorktreeProbe>>) -> Seq<
    WorktreeProbe,
>
    decreases linked.len(),
{
    if linked.len() == 0 {
        match main {
            Some(p) => seq![p],
            None => Seq::empty(),
        }
    } else {
        match linked.last() {
            Some(p) => opened(main, linked.drop_last()).push(p),
            None => opened(main, linked.drop_last()),
        }
    }
}

/// List all worktrees (main + linked) for a repo.
pub fn list_worktrees(main: &Option<WorktreeProbe>, linked: &Vec<Option<WorktreeProbe>>) -> (r: Vec<
    WorktreeInfo,
>)
    ensures
        r@.len() == opened(*main, linked@).len(),
        forall|i: int|
            0 <= i < r@.len() ==> is_worktree_of(#[trigger] r@[i], opened(*main, linked@)[i]),
{
    let mut out: Vec<WorktreeInfo> = Vec::new();
    if let Some(p) = main {
        out.push(worktree_of(p));
    }
    let mut i: usize = 0;
    while i < linked.len()
        invariant
            i <= linked@.len(),
            out@.len() == opened(*main, linked@.take(i as int)).len(),
            forall|k: int|
                0 <= k < out@.len() ==> is_worktree_of(
                    #[trigger] out@[k],
                    opened(*main, linked@.take(i as int))[k],
                ),
        decreases linked.len() - i,
    {
        let ghost t = linked@.take(i + 1);
        assert(t.drop_last() =~= linked@.take(i as int));
        assert(t.last() == linked@[i as int]);
        if let Some(p) = &linked[i] {
            out.push(worktree_of(p));
        }
        i = i + 1;
    }
    assert(linked@.take(i as int) =~= linked@);
    out
}

/// Where each branch is checked out: the last worktree that has it wins.
pub open spec fn occupied(worktrees: Seq<WorktreeInfo>) -> Map<Seq<char>, Seq<char>>
    decreases worktrees.len(),
{
    if worktrees.len() == 0 {
        Map::empty()
    } else {
        let rest = occupied(worktrees.drop_last());
        match worktrees.last().head_branch {
            Some(b) => rest.insert(b@, worktrees.last().path@),
            None => rest,
        }
    }
}

/// The views of the values of a table of strings.
pub open spec fn text_map(m: Map<Seq<char>, String>) -> Map<Seq<char>, Seq<char>> {
    m.map_values(|s: String| s@)
}

/// Build a map of branch_name -> worktree_path for all checked-out branches.
pub fn branch_occupancy(worktrees: &Vec<WorktreeInfo>) -> (r: Table<String>)
    ensures
        text_map(r@) == occupied(worktrees@),
{
    let mut table: Table<String> = Table::new();
    let mut i: usize = 0;
    assert(text_map(table@) =~= occupied(worktrees@.take(0)));
    while i < worktrees.len()
        invariant
            i <= worktrees@.len(),
            text_map(table@) == occupied(worktrees@.take(i as int)),
        decreases worktrees.len() - i,
    {
        let ghost t = worktrees@.take(i + 1);
        assert(t.drop_last() =~= worktrees@.take(i as int));
        assert(t.last() == worktrees@[i as int]);
        let w = &worktrees[i];
        let ghost was = table@;
        if let Some(branch) = &w.head_branch {
            table.insert(String::from_str(branch.as_str()), String::from_str(w.path.as_str()));
            assert(text_map(table@) =~= text_map(was).insert(branch@, w.path@));
        }
        i = i + 1;
    }
    assert(worktrees@.take(i as int) =~= worktrees@);
    table
}

// ---------------------------------------------------------------------------
// Operations in progress
// ---------------------------------------------------------------------------

/// The names in a git directory that show an operation in progress (rebase,
/// merge, cherry-pick, bisect, or a locked index).
pub open spec fn is_operation_marker(name: Seq<char>) -> bool {
    ||| name == "index.lock"@
    ||| name == "rebase-merge"@
    ||| name == "rebase-apply"@
    ||| name == "MERGE_HEAD"@
    ||| name == "CHERRY_PICK_HEAD"@
    ||| name == "BISECT_LOG"@
}

/// Check if any git operation is in progress, by the names that the git
/// directory holds.
pub fn is_operation_in_progress(entries: &Vec<String>) -> (r: bool)
    ensures
        r == exists|i: int| 0 <= i < entries@.len() && is_operation_marker(#[trigger] entries@[i]@),
{
    let mut i: usize = 0;
    while i < entries.len()
        invariant
            i <= entries@.len(),
            forall|k: int| 0 <= k < i ==> !is_operation_marker(#[trigger] entries@[k]@),
        decreases entries.len() - i,
    {
        let name = entries[i].as_str();
        if text_eq(name, "index.lock") || text_eq(name, "rebase-merge") || text_eq(
            name,
            "rebase-apply",
        ) || text_eq(name, "MERGE_HEAD") || text_eq(name, "CHERRY_PICK_HEAD") || text_eq(
            name,
            "BISECT_LOG",
        ) {
            assert(is_operation_marker(entries@[i as int]@));
            return true;
        }
        i = i + 1;
    }
    false
}

// ---------------------------------------------------------------------------
// What the git command printed
// ---------------------------------------------------------------------------

/// The message for a git command that failed.
pub fn failure_message(command: &str, stderr: &str) -> (r: String)
    ensures
        r@ == command@ + " failed: "@ + trimmed(stderr@),
{
    let mut out = String::from_str(command);
    out.append(" failed: ");
    out.append(trim(stderr).as_str());
    out
}

/// Whether `git stash push` stashed something, by what it printed.
pub fn stashed_something(stdout: &str) -> (r: bool)
    ensures
        r == !has_part(stdout@, "No local changes"@),
{
    !contains(stdout, "No local changes")
}

/// `str::to_lowercase`: the lowercase equivalent of the string.
pub uninterp spec fn lowercase(s: Seq<char>) -> Seq<char>;

/// `str::to_lowercase` gives the lowercase equivalent of the string, by the
/// string alone.
#[verifier::external_body]
pub(crate) fn to_lowercase(s: &str) -> (r: String)
    ensures
        r@ == lowercase(s@),
{
    s.to_lowercase()
}

/// Whether the lowered text speaks of a push that the remote turned down.
pub open spec fn says_rejected(lowered: Seq<char>) -> bool {
    ||| has_part(lowered, "rejected"@)
    ||| has_part(lowered, "protected branch"@)
    ||| has_part(lowered, "[remote rejected]"@)
    ||| has_part(lowered, "non-fast-forward"@)
}

/// Whether the lowered text speaks of missing credentials.
pub open spec fn says_auth_failed(lowered: Seq<char>) -> bool {
    ||| has_part(lowered, "authentication"@)
    ||| has_part(lowered, "permission denied"@)
    ||| has_part(lowered, "could not read from remote"@)
    ||| has_part(lowered, "fatal: could not read username"@)
    ||| has_part(lowered, "invalid credentials"@)
}

/// Whether the lowered text speaks of the network.
pub open spec fn says_network_error(lowered: Seq<char>) -> bool {
    ||| has_part(lowered, "could not resolve host"@)
    ||| has_part(lowered, "network is unreachable"@)
    ||| has_part(lowered, "connection refused"@)
    ||| has_part(lowered, "connection timed out"@)
    ||| has_part(lowered, "no route to host"@)
}

/// What a failed push was: the text itself goes with it.
pub open spec fn push_failure_of(lowered: Seq<char>, stderr: String) -> PushResult {
    if says_rejected(lowered) {
        PushResult::Rejected(stderr)
    } else if says_auth_failed(lowered) {
        PushResult::AuthFailed(stderr)
    } else if says_network_error(lowered) {
        PushResult::NetworkError(stderr)
    } else {
        PushResult::Rejected(stderr)
    }
}

/// Classifies a failed push by what git printed, given in lower case too.
pub fn classify_push_failure(lowered: &str, stderr: String) -> (r: PushResult)
    ensures
        r == push_failure_of(lowered@, stderr),
{
    if contains(lowered, "rejected") || contains(lowered, "protected branch") || contains(
        lowered,
        "[remote rejected]",
    ) || contains(lowered, "non-fast-forward") {
        PushResult::Rejected(stderr)
    } else if contains(lowered, "authentication") || contains(lowered, "permission denied")
        || contains(lowered, "could not read from remote") || contains(
        lowered,
        "fatal: could not read username",
    ) || contains(lowered, "invalid credentials") {
        PushResult::AuthFailed(stderr)
    } else if contains(lowered, "could not resolve host") || contains(
        lowered,
        "network is unreachable",
    ) || contains(lowered, "connection refused") || contains(lowered, "connection timed out")
        || contains(lowered, "no route to host") {
        PushResult::NetworkError(stderr)
    } else {
        // Unknown push failure: treat as rejected with full stderr.
        PushResult::Rejected(stderr)
    }
}

/// How a push ended.
#[derive(Debug)]
pub enum PushExit {
    /// The command took too long.
    TimedOut,
    /// The command exited.
    Exited { success: bool, stderr: String },
}

/// What came of a push.
pub open spec fn push_outcome(exit: PushExit) -> PushResult {
    match exit {
        PushExit::TimedOut => PushResult::HookTimeout,
        PushExit::Exited { success, stderr } => if success {
            PushResult::Success
        } else {
            push_failure_of(lowercase(stderr@), stderr)
        },
    }
}

/// The result of a push, by how the command ended and what it printed.
pub fn git_push(exit: PushExit) -> (r: PushResult)
    ensures
        r == push_outcome(exit),
        r == (match exit {
            PushExit::TimedOut => PushResult::HookTimeout,
            PushExit::Exited { success, stderr } => if success {
                PushResult::Success
            } else {
                push_failure_of(lowercase(stderr@), stderr)
            },
        }),
{
    match exit {
        PushExit::TimedOut => PushResult::HookTimeout,
        PushExit::Exited { success, stderr } => {
            if success {
                PushResult::Success
            } else {
                let lowered = to_lowercase(stderr.as_str());
                classify_push_failure(lowered.as_str(), stderr)
            }
        },
    }
}

// ---------------------------------------------------------------------------
// Ownership
// ---------------------------------------------------------------------------

/// Whether a commit with the given parents merges the tip of the upstream.
pub open spec fn merges_remote(parents: Seq<String>, upstream: Option<Seq<char>>) -> bool {
    parents.len() >= 2 && (upstream matches Some(u) && views(parents).contains(u))
}

/// Check if the local tip is a merge commit that has the upstream tip as a
/// direct parent. In that case, pushing is safe even if we don't "own" the
/// remote branch, because the merge incorporates all remote changes.
pub fn is_local_merge_of_remote(parents: &Vec<String>, upstream_oid: Option<&str>) -> (r: bool)
    ensures
        r == (parents@.len() >= 2 && (upstream_oid matches Some(u) && views(parents@).contains(u@))),
        r == merges_remote(
            parents@,
            match upstream_oid {
                Some(u) => Some(u@),
                None => None,
            },
        ),
{
    match upstream_oid {
        Some(u) => parents.len() >= 2 && list_contains(parents, u),
        None => false,
    }
}

/// Whether the tip was committed with the email of the user.
pub open spec fn same_person(user: Option<Seq<char>>, committer: Option<Seq<char>>) -> bool {
    user is Some && committer is Some && same_ignoring_case(committer->0, user->0)
}

/// Check if the current user "owns" a branch by comparing the committer of the
/// upstream tip to the current user's email (case-insensitive).
pub fn is_branch_owned_by_user(user_email: Option<&str>, committer_email: Option<&str>) -> (r: bool)
    ensures
        r == same_person(
            match user_email {
                Some(e) => Some(e@),
                None => None,
            },
            match committer_email {
                Some(e) => Some(e@),
                None => None,
            },
        ),
{
    match user_email {
        Some(user) => match committer_email {
            Some(committer) => eq_ignore_ascii_case(committer, user),
            None => false,
        },
        None => false,
    }
}

/// What to find out next to know whether the user owns a branch.
#[derive(Debug)]
pub enum OwnershipStep {
    /// The answer is known.
    Answer(bool),
    /// Ask the forge whether the committer email is one of the user's.
    AskEmail,
    /// Ask the forge whether the user has a pull request for the branch.
    AskPullRequest(GitHubRepo),
}

/// Whether a step is the next one to find out whether the user owns a branch.
pub open spec fn is_ownership_step(
    user: Option<Seq<char>>,
    committer: Option<Seq<char>>,
    url: Option<Seq<char>>,
    email_match: Option<bool>,
    owns_pr: Option<bool>,
    r: OwnershipStep,
) -> bool {
    let gh = match url {
        Some(u) => github_remote(u),
        None => None,
    };
    if same_person(user, committer) {
        r == OwnershipStep::Answer(true)
    } else if gh is None {
        r == OwnershipStep::Answer(false)
    } else if committer is Some && email_match is None {
        r is AskEmail
    } else if committer is Some && email_match == Some(true) {
        r == OwnershipStep::Answer(true)
    } else {
        match owns_pr {
            None => r matches OwnershipStep::AskPullRequest(g) && Some((g.owner@, g.repo@)) == gh,
            Some(owns) => r == OwnershipStep::Answer(owns),
        }
    }
}

/// Like `is_branch_owned_by_user` but with forge fallbacks, for remotes on
/// GitHub:
/// 1. Local committer email match (same as above)
/// 2. Committer email matches any verified email of the forge user
/// 3. Authenticated user is creator/assignee of a PR for this branch
///
/// `email_match` and `owns_pr` are what the forge has answered so far.
pub fn is_branch_owned_by_user_with_forge(
    user_email: Option<&str>,
    committer_email: Option<&str>,
    remote_url: Option<&str>,
    email_match: Option<bool>,
    owns_pr: Option<bool>,
) -> (r: OwnershipStep)
    ensures
        is_ownership_step(
            match user_email {
                Some(e) => Some(e@),
                None => None,
            },
            match committer_email {
                Some(e) => Some(e@),
                None => None,
            },
            match remote_url {
                Some(u) => Some(u@),
                None => None,
            },
            email_match,
            owns_pr,
            r,
        ),
        ({
            let user = match user_email {
                Some(e) => Some(e@),
                None => None,
            };
            let committer = match committer_email {
                Some(e) => Some(e@),
                None => None,
            };
            let gh = match remote_url {
                Some(u) => github_remote(u@),
                None => None,
            };
            if same_person(user, committer) {
                r == OwnershipStep::Answer(true)
            } else if gh is None {
                r == OwnershipStep::Answer(false)
            } else if committer is Some && email_match is None {
                r is AskEmail
            } else if committer is Some && email_match == Some(true) {
                r == OwnershipStep::Answer(true)
            } else {
                match owns_pr {
                    None => r matches OwnershipStep::AskPullRequest(g) && Some(
                        (g.owner@, g.repo@),
                    ) == gh,
                    Some(owns) => r == OwnershipStep::Answer(owns),
                }
            }
        }),
{
    if is_branch_owned_by_user(user_email, committer_email) {
        return OwnershipStep::Answer(true);
    }
    let gh_repo = match remote_url {
        Some(url) => parse_github_remote(url),
        None => None,
    };
    let gh_repo = match gh_repo {
        Some(g) => g,
        None => {
            return OwnershipStep::Answer(false);
        },
    };
    if committer_email.is_some() {
        match email_match {
            None => {
                return OwnershipStep::AskEmail;
            },
            Some(true) => {
                return OwnershipStep::Answer(true);
            },
            Some(false) => {},
        }
    }
    match owns_pr {
        None => OwnershipStep::AskPullRequest(gh_repo),
        Some(owns) => OwnershipStep::Answer(owns),
    }
}

// ---------------------------------------------------------------------------
// What holds of what git shows
// ---------------------------------------------------------------------------

/// How a branch stands to its upstream: gone without one, in sync at the same commit,
/// behind if only the upstream has more commits, ahead if only the branch has, and
/// diverged if both have.
pub proof fn law_analysis_tells_who_has_more(
    local: Seq<char>,
    remote: Seq<char>,
    behind_it: bool,
    ahead: bool,
)
    ensures
        analysis_of(local, None, behind_it, ahead) is UpstreamGone,
        analysis_of(local, Some(local), behind_it, ahead) is UpToDate,
        local != remote ==> {
            &&& behind_it && !ahead ==> analysis_of(local, Some(remote), behind_it, ahead)
                is FastForward
            &&& !behind_it && ahead ==> analysis_of(local, Some(remote), behind_it, ahead)
                is LocalAhead
            &&& !behind_it && !ahead ==> analysis_of(local, Some(remote), behind_it, ahead)
                is Diverged
            &&& behind_it && ahead ==> analysis_of(local, Some(remote), behind_it, ahead)
                is UpToDate
        },
{
}

/// History was rewritten if a commit that was a tip of the branch is on the remote but
/// no longer on the branch. The remote is unchanged if it still stands at such a tip.
pub proof fn law_rewrite_leaves_a_published_tip_behind(
    tips: Seq<PriorTip>,
    remote: Seq<char>,
    i: int,
)
    ensures
        0 <= i < tips.len() && tips[i].on_remote && !tips[i].on_local ==> rewrite_of(tips, remote)
            != HistoryRewrite::NoRewrite,
        0 <= i < tips.len() && tips[i].on_remote && !tips[i].on_local && tips[i].oid@ == remote
            ==> rewrite_of(tips, remote) == HistoryRewrite::RemoteUnchanged,
        (forall|k: int|
            0 <= k < tips.len() ==> !(#[trigger] tips[k]).on_remote || tips[k].on_local)
            ==> rewrite_of(tips, remote) == HistoryRewrite::NoRewrite,
        (forall|k: int|
            0 <= k < tips.len() ==> !(#[trigger] tips[k]).on_remote || tips[k].on_local
                || tips[k].oid@ != remote) ==> rewrite_of(tips, remote)
            != HistoryRewrite::RemoteUnchanged,
{
    if 0 <= i < tips.len() && tips[i].on_remote && !tips[i].on_local {
        assert(was_rewritten(tips[i]));
    }
}

/// A branch has the name and the commit that git shows. Its upstream counts only where
/// git finds it. Its remote and the branch there are those of its configuration, the
/// latter without `refs/heads/`; else they are "origin" and its own name.
pub proof fn law_branch_is_as_configured(
    b: RepoBranch,
    p: BranchProbe,
    head: Option<Seq<char>>,
    short: Seq<char>,
)
    requires
        is_branch_of(b, p, head),
    ensures
        p.name matches Some(n) && b.name@ == n@,
        p.target matches Some(t) && b.local_oid@ == t@,
        !p.has_upstream ==> b.upstream_name is None && b.remote_oid is None,
        p.has_upstream ==> {
            &&& match (b.upstream_name, p.upstream_name) {
                (Some(x), Some(y)) => x@ == y@,
                (None, None) => true,
                _ => false,
            }
            &&& match (b.remote_oid, p.upstream_target) {
                (Some(x), Some(y)) => x@ == y@,
                (None, None) => true,
                _ => false,
            }
        },
        head matches Some(h) ==> (b.is_head <==> h == b.name@),
        head is None ==> !b.is_head,
        p.configured_remote matches Some(r) ==> b.remote@ == r@,
        p.configured_remote is None ==> b.remote@ == "origin"@,
        p.configured_merge matches Some(m) ==> {
            &&& m@ == "refs/heads/"@ + short ==> b.remote_ref@ == short
            &&& !has_prefix(m@, "refs/heads/"@) ==> b.remote_ref@ == m@
        },
        p.configured_merge is None ==> b.remote_ref@ == b.name@,
{
    let whole = "refs/heads/"@ + short;
    assert(whole.subrange(0, "refs/heads/"@.len() as int) =~= "refs/heads/"@);
    assert(whole.skip("refs/heads/"@.len() as int) =~= short);
}

/// Every branch with a name and a commit is listed, in the order in which git shows
/// them, and no other.
pub proof fn law_named_branches_are_listed(probes: Seq<BranchProbe>, p: BranchProbe)
    ensures
        trackable(Seq::empty()).len() == 0,
        p.name is Some && p.target is Some ==> trackable(probes.push(p)) == trackable(probes).push(
            p,
        ),
        p.name is None || p.target is None ==> trackable(probes.push(p)) == trackable(probes),
{
    assert(probes.push(p).drop_last() =~= probes);
}

/// The main worktree comes first, and then the linked ones that could be opened, in
/// their order.
pub proof fn law_main_worktree_comes_first(
    main: WorktreeProbe,
    linked: Seq<Option<WorktreeProbe>>,
    p: WorktreeProbe,
)
    ensures
        opened(Some(main), Seq::empty()) == seq![main],
        opened(None, Seq::empty()).len() == 0,
        opened(Some(main), linked.push(Some(p))) == opened(Some(main), linked).push(p),
        opened(Some(main), linked.push(None)) == opened(Some(main), linked),
        opened(None, linked.push(Some(p))) == opened(None, linked).push(p),
        opened(None, linked.push(None)) == opened(None, linked),
{
    assert(linked.push(Some(p)).drop_last() =~= linked);
    assert(linked.push(None).drop_last() =~= linked);
}

/// A worktree has a branch only if its HEAD is one, and is clean only if it was found
/// to be.
pub proof fn law_worktree_is_as_seen(w: WorktreeInfo, p: WorktreeProbe)
    requires
        is_worktree_of(w, p),
    ensures
        w.path@ == p.path@,
        !p.head_is_branch ==> w.head_branch is None,
        p.head_is_branch ==> match (w.head_branch, p.head_name) {
            (Some(x), Some(y)) => x@ == y@,
            (None, None) => true,
            _ => false,
        },
        w.is_clean <==> p.dirty == Some(false),
{
}

/// A branch is where it is checked out: in the last worktree that has it, and nowhere
/// if none has.
pub proof fn law_branch_is_where_it_is_checked_out(
    worktrees: Seq<WorktreeInfo>,
    branch: Seq<char>,
    i: int,
)
    ensures
        0 <= i < worktrees.len() && (worktrees[i].head_branch matches Some(b) && b@ == branch) && (
        forall|k: int|
            i < k < worktrees.len() ==> !(#[trigger] worktrees[k].head_branch matches Some(b) && b@
                == branch)) ==> occupied(worktrees).contains_key(branch) && occupied(
            worktrees,
        )[branch] == worktrees[i].path@,
        (forall|k: int|
            0 <= k < worktrees.len() ==> !(#[trigger] worktrees[k].head_branch matches Some(b)
                && b@ == branch)) ==> !occupied(worktrees).contains_key(branch),
    decreases worktrees.len(),
{
    if worktrees.len() > 0 {
        let front = worktrees.drop_last();
        law_branch_is_where_it_is_checked_out(front, branch, i);
        assert(forall|k: int| 0 <= k < front.len() ==> front[k] == worktrees[k]);
        if i < front.len() {
            assert(worktrees[worktrees.len() - 1] == worktrees.last());
        }
        if 0 <= i && forall|k: int|
            i < k < worktrees.len() ==> !(#[trigger] worktrees[k].head_branch matches Some(b) && b@
                == branch) {
            assert(forall|k: int|
                i < k < front.len() ==> !(#[trigger] front[k].head_branch matches Some(b) && b@
                    == branch));
            if i < front.len() && 0 <= i {
                assert(!(worktrees[worktrees.len() - 1].head_branch matches Some(b) && b@
                    == branch));
            }
        }
        if forall|k: int|
            0 <= k < worktrees.len() ==> !(#[trigger] worktrees[k].head_branch matches Some(b)
                && b@ == branch) {
            assert(forall|k: int|
                0 <= k < front.len() ==> !(#[trigger] front[k].head_branch matches Some(b) && b@
                    == branch));
            assert(!(worktrees[worktrees.len() - 1].head_branch matches Some(b) && b@ == branch));
        }
    }
}

/// What git keeps in its directory while something is going on.
pub proof fn law_operations_leave_their_marks(name: Seq<char>)
    ensures
        is_operation_marker("index.lock"@),
        is_operation_marker("rebase-merge"@),
        is_operation_marker("rebase-apply"@),
        is_operation_marker("MERGE_HEAD"@),
        is_operation_marker("CHERRY_PICK_HEAD"@),
        is_operation_marker("BISECT_LOG"@),
        is_operation_marker(name) ==> {
            ||| name == "index.lock"@
            ||| name == "rebase-merge"@
            ||| name == "rebase-apply"@
            ||| name == "MERGE_HEAD"@
            ||| name == "CHERRY_PICK_HEAD"@
            ||| name == "BISECT_LOG"@
        },
{
}

/// A push that went through succeeded, one that took too long was held by a hook, and
/// any other is told apart by what git printed, which is kept.
pub proof fn law_push_outcome_is_told(exit: PushExit)
    ensures
        exit is TimedOut <==> push_outcome(exit) is HookTimeout,
        exit matches PushExit::Exited { success, stderr } ==> {
            &&& success <==> push_outcome(exit) is Success
            &&& push_outcome(exit) matches PushResult::Rejected(m) ==> m == stderr
            &&& push_outcome(exit) matches PushResult::AuthFailed(m) ==> m == stderr
            &&& push_outcome(exit) matches PushResult::NetworkError(m) ==> m == stderr
        },
{
}

/// A push was refused if git says so in any of its ways, whatever else it says; else
/// it failed on credentials or on the network if git says that; and else it counts as
/// refused.
pub proof fn law_push_failures_are_told_apart(lowered: Seq<char>, stderr: String)
    ensures
        has_part(lowered, "rejected"@) || has_part(lowered, "protected branch"@) || has_part(
            lowered,
            "[remote rejected]"@,
        ) || has_part(lowered, "non-fast-forward"@) ==> push_failure_of(lowered, stderr)
            is Rejected,
        !says_rejected(lowered) && (has_part(lowered, "authentication"@) || has_part(
            lowered,
            "permission denied"@,
        ) || has_part(lowered, "could not read from remote"@) || has_part(
            lowered,
            "fatal: could not read username"@,
        ) || has_part(lowered, "invalid credentials"@)) ==> push_failure_of(lowered, stderr)
            is AuthFailed,
        !says_rejected(lowered) && !says_auth_failed(lowered) && (has_part(
            lowered,
            "could not resolve host"@,
        ) || has_part(lowered, "network is unreachable"@) || has_part(
            lowered,
            "connection refused"@,
        ) || has_part(lowered, "connection timed out"@) || has_part(lowered, "no route to host"@))
            ==> push_failure_of(lowered, stderr) is NetworkError,
        push_failure_of(lowered, stderr) is AuthFailed ==> has_part(lowered, "authentication"@)
            || has_part(lowered, "permission denied"@) || has_part(
            lowered,
            "could not read from remote"@,
        ) || has_part(lowered, "fatal: could not read username"@) || has_part(
            lowered,
            "invalid credentials"@,
        ),
        push_failure_of(lowered, stderr) is NetworkError ==> has_part(
            lowered,
            "could not resolve host"@,
        ) || has_part(lowered, "network is unreachable"@) || has_part(
            lowered,
            "connection refused"@,
        ) || has_part(lowered, "connection timed out"@) || has_part(lowered, "no route to host"@),
        says_rejected(lowered) ==> has_part(lowered, "rejected"@) || has_part(
            lowered,
            "protected branch"@,
        ) || has_part(lowered, "[remote rejected]"@) || has_part(lowered, "non-fast-forward"@),
        !(push_failure_of(lowered, stderr) is Success),
        !(push_failure_of(lowered, stderr) is HookTimeout),
{
}

/// A commit merges the remote if it has several parents and the tip of the upstream is
/// one of them.
pub proof fn law_merge_has_the_upstream_as_parent(
    parents: Seq<String>,
    upstream: Seq<char>,
    i: int,
)
    ensures
        !merges_remote(parents, None),
        parents.len() < 2 ==> !merges_remote(parents, Some(upstream)),
        parents.len() >= 2 && 0 <= i < parents.len() && parents[i]@ == upstream ==> merges_remote(
            parents,
            Some(upstream),
        ),
        (forall|k: int| 0 <= k < parents.len() ==> (#[trigger] parents[k])@ != upstream)
            ==> !merges_remote(parents, Some(upstream)),
{
    let all = views(parents);
    assert(all.len() == parents.len());
    if 0 <= i < parents.len() && parents[i]@ == upstream {
        assert(all[i] == upstream);
    }
    if all.contains(upstream) {
        let k = choose|k: int| 0 <= k < all.len() && all[k] == upstream;
        assert(parents[k]@ == upstream);
    }
}

/// A branch is the user's if the user committed its tip, under any case of the address.
/// Else the forge is asked, if the remote is on it: first whether the committer's
/// address is one of the user's, then whether the user has a pull request for it.
pub proof fn law_ownership_goes_step_by_step(
    user: Option<Seq<char>>,
    committer: Option<Seq<char>>,
    url: Option<Seq<char>>,
    email_match: Option<bool>,
    owns_pr: Option<bool>,
    r: OwnershipStep,
)
    requires
        is_ownership_step(user, committer, url, email_match, owns_pr, r),
    ensures
        (user matches Some(u) && committer matches Some(c) && same_ignoring_case(u, c)) ==> r
            == OwnershipStep::Answer(true),
        !(user matches Some(u) && committer matches Some(c) && same_ignoring_case(u, c)) ==> {
            &&& url is None ==> r == OwnershipStep::Answer(false)
            &&& url matches Some(t) ==> match github_remote(t) {
                None => r == OwnershipStep::Answer(false),
                Some((owner, repo)) => {
                    &&& committer is Some && email_match is None ==> r is AskEmail
                    &&& committer is Some && email_match == Some(true) ==> r
                        == OwnershipStep::Answer(true)
                    &&& committer is None || email_match == Some(false) ==> {
                        &&& owns_pr is None ==> (r matches OwnershipStep::AskPullRequest(g)
                            && g.owner@ == owner && g.repo@ == repo)
                        &&& owns_pr matches Some(owns) ==> r == OwnershipStep::Answer(owns)
                    }
                },
            }
        },
{
    if let Some(u) = user {
        if let Some(c) = committer {
            crate::text::law_case_is_ignored(u, c);
        }
    }
}

/// The names under which events tell of an analysis and of a rewrite.
pub proof fn law_names_are_told_apart(a: MergeAnalysis, h: HistoryRewrite)
    ensures
        a is UpToDate ==> a.name() == "UpToDate"@,
        a is FastForward ==> a.name() == "FastForward"@,
        a is LocalAhead ==> a.name() == "LocalAhead"@,
        a is Diverged ==> a.name() == "Diverged"@,
        a is UpstreamGone ==> a.name() == "UpstreamGone"@,
        h is NoRewrite ==> h.name() == "None"@,
        h is RemoteUnchanged ==> h.name() == "RemoteUnchanged"@,
        h is RemoteAdvanced ==> h.name() == "RemoteAdvanced"@,
{
}

/// The remote that stands for a repo is `origin`, else its first one, if it has any.
pub proof fn law_origin_goes_first(has_origin: bool, remotes: Seq<String>)
    ensures
        has_origin ==> primary_of(has_origin, remotes) == Some("origin"@),
        !has_origin && remotes.len() > 0 ==> primary_of(has_origin, remotes) == Some(remotes[0]@),
        !has_origin ==> (primary_of(has_origin, remotes) is None <==> remotes.len() == 0),
{
}

} // verus!
