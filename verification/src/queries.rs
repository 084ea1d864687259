//! Shared query/view layer: the status of repos, built from stored rows.
//!
//! Used by both the daemon and the CLI (fallback when the daemon is not
//! running). Ensures identical output regardless of whether the daemon is up.

use vstd::prelude::*;

use crate::git_ops::RepoBranch;
use crate::requests::{counts_as_synced, find_upstream, upstream_of};
use crate::state::{BranchState, RepoState};
use crate::table::Table;
use crate::text::{cat, clone_opt, decimal, format_u64, text_eq, view_opt};
use crate::transport::{BranchStatusData, RepoStatusData, StatusData};

verus! {

/// The status line of a stored branch.
pub open spec fn is_row_status(d: BranchStatusData, b: BranchState, git: Seq<RepoBranch>) -> bool {
    &&& d.name@ == b.branch_name@
    &&& view_opt(d.upstream) == upstream_of(git, b.branch_name@)
    &&& d.status@ == b.sync_status@
    &&& view_opt(d.last_action) == (if b.last_pull_at is Some {
        view_opt(b.last_pull_at)
    } else {
        view_opt(b.last_push_at)
    })
}

/// The status of a stored repo.
pub open spec fn is_stored_status(
    d: StatusData,
    repo_id: Seq<char>,
    repo: RepoState,
    branches: Seq<BranchState>,
    git: Seq<RepoBranch>,
) -> bool {
    &&& d.repo_id@ == repo_id
    &&& d.display_path@ == repo.display_path@
    &&& view_opt(d.last_sync) == view_opt(repo.last_sync_at)
    &&& d.branches@.len() == branches.len()
    &&& forall|i: int|
        0 <= i < branches.len() ==> is_row_status(#[trigger] d.branches@[i], branches[i], git)
    &&& d.untrusted_remotes@.len() == 0
    &&& d.untrusted_hosts@.len() == 0
    &&& d.disabled_remotes@.len() == 0
    &&& d.remote_urls.keys().len() == 0
    &&& !d.newly_registered
}

/// Build full [`StatusData`] for a single repo, from its stored row, its stored
/// branches and its branches as git has them now.
pub fn build_repo_status(
    repo: Option<&RepoState>,
    branches: &Vec<BranchState>,
    repo_id: &str,
    git: &Vec<RepoBranch>,
) -> (r: Result<StatusData, String>)
    ensures
        match repo {
            Some(row) => r matches Ok(d) && is_stored_status(d, repo_id@, *row, branches@, git@),
            None => r matches Err(e) && e@ == "repo not registered: "@ + repo_id@,
        },
{
    let row = match repo {
        Some(row) => row,
        None => {
            return Err(cat("repo not registered: ", repo_id));
        },
    };
    let mut lines: Vec<BranchStatusData> = Vec::new();
    let mut i: usize = 0;
    while i < branches.len()
        invariant
            i <= branches@.len(),
            lines@.len() == i,
            forall|k: int|
                0 <= k < i ==> is_row_status(#[trigger] lines@[k], branches@[k], git@),
        decreases branches.len() - i,
    {
        let b = &branches[i];
        let last_action = if b.last_pull_at.is_some() {
            clone_opt(&b.last_pull_at)
        } else {
            clone_opt(&b.last_push_at)
        };
        lines.push(
            BranchStatusData {
                name: String::from_str(b.branch_name.as_str()),
                upstream: find_upstream(git, b.branch_name.as_str()),
                status: String::from_str(b.sync_status.as_str()),
                last_action,
            },
        );
        i = i + 1;
    }
    Ok(
        StatusData {
            repo_id: String::from_str(repo_id),
            display_path: String::from_str(row.display_path.as_str()),
            last_sync: clone_opt(&row.last_sync_at),
            branches: lines,
            untrusted_remotes: Vec::new(),
            untrusted_hosts: Vec::new(),
            disabled_remotes: Vec::new(),
            remote_urls: Table::new(),
            newly_registered: false,
        },
    )
}

/// The number of branches that count as synced.
pub open spec fn synced_rows(branches: Seq<BranchState>) -> nat {
    branches.filter(|b: BranchState| counts_as_synced(b.sync_status@)).len()
}

/// The number of branches that diverged.
pub open spec fn diverged_rows(branches: Seq<BranchState>) -> nat {
    branches.filter(|b: BranchState| b.sync_status@ == "diverged"@).len()
}

/// The summary of a stored repo.
pub open spec fn row_summary(repo: RepoState, branches: Seq<BranchState>) -> Seq<char> {
    if repo.status@ == "disabled"@ {
        "disabled"@
    } else if repo.status@ == "missing"@ {
        "missing"@
    } else if diverged_rows(branches) > 0 {
        decimal(diverged_rows(branches)) + "/"@ + decimal(branches.len()) + " diverged"@
    } else {
        decimal(synced_rows(branches)) + " synced"@
    }
}

proof fn lemma_filter_step(s: Seq<BranchState>, i: int, p: spec_fn(BranchState) -> bool)
    requires
        0 <= i < s.len(),
    ensures
        s.take(i + 1).filter(p).len() == s.take(i).filter(p).len() + (if p(s[i]) {
            1int
        } else {
            0int
        }),
{
    reveal(Seq::filter);
    assert(s.take(i + 1).drop_last() =~= s.take(i));
    assert(s.take(i + 1).last() == s[i]);
}

fn summarize(repo: &RepoState, branches: &Vec<BranchState>) -> (r: String)
    ensures
        r@ == row_summary(*repo, branches@),
{
    let ghost is_synced = |b: BranchState| counts_as_synced(b.sync_status@);
    let ghost is_diverged = |b: BranchState| b.sync_status@ == "diverged"@;
    let mut synced: usize = 0;
    let mut diverged: usize = 0;
    let mut i: usize = 0;
    proof {
        reveal(Seq::filter);
    }
    while i < branches.len()
        invariant
            i <= branches@.len(),
            is_synced == (|b: BranchState| counts_as_synced(b.sync_status@)),
            is_diverged == (|b: BranchState| b.sync_status@ == "diverged"@),
            synced <= i,
            diverged <= i,
            synced == branches@.take(i as int).filter(is_synced).len(),
            diverged == branches@.take(i as int).filter(is_diverged).len(),
        decreases branches.len() - i,
    {
        proof {
            lemma_filter_step(branches@, i as int, is_synced);
            lemma_filter_step(branches@, i as int, is_diverged);
        }
        let status = branches[i].sync_status.as_str();
        if text_eq(status, "synced") || text_eq(status, "up_to_date") {
            synced = synced + 1;
        }
        if text_eq(status, "diverged") {
            diverged = diverged + 1;
        }
        i = i + 1;
    }
    assert(branches@.take(i as int) =~= branches@);
    if text_eq(repo.status.as_str(), "disabled") {
        String::from_str("disabled")
    } else if text_eq(repo.status.as_str(), "missing") {
        String::from_str("missing")
    } else if diverged > 0 {
        let mut out = format_u64(diverged as u64);
        out.append("/");
        out.append(format_u64(branches.len() as u64).as_str());
        out.append(" diverged");
        out
    } else {
        cat(format_u64(synced as u64).as_str(), " synced")
    }
}

/// The line of a stored repo in the status of all repos.
pub open spec fn is_stored_line(d: RepoStatusData, repo: RepoState, branches: Seq<BranchState>) -> bool {
    &&& d.display_path@ == repo.display_path@
    &&& d.status_summary@ == row_summary(repo, branches)
    &&& view_opt(d.last_sync) == view_opt(repo.last_sync_at)
}

/// Build global status for all repos, each with its stored branches.
pub fn build_global_status(repos: &Vec<(RepoState, Vec<BranchState>)>) -> (r: Vec<RepoStatusData>)
    ensures
        r@.len() == repos@.len(),
        forall|i: int|
            0 <= i < r@.len() ==> is_stored_line(#[trigger] r@[i], repos@[i].0, repos@[i].1@),
{
    let mut out: Vec<RepoStatusData> = Vec::new();
    let mut i: usize = 0;
    while i < repos.len()
        invariant
            i <= repos@.len(),
            out@.len() == i,
            forall|k: int|
                0 <= k < i ==> is_stored_line(#[trigger] out@[k], repos@[k].0, repos@[k].1@),
        decreases repos.len() - i,
    {
        let repo = &repos[i].0;
        out.push(
            RepoStatusData {
                display_path: String::from_str(repo.display_path.as_str()),
                status_summary: summarize(repo, &repos[i].1),
                last_sync: clone_opt(&repo.last_sync_at),
            },
        );
        i = i + 1;
    }
    out
}

// ---------------------------------------------------------------------------
// What is read from the store
// ---------------------------------------------------------------------------

/// The status of a stored repo tells of each stored branch what it is called, how it is,
/// and when it was last pulled, or else pushed. Nothing is known of its remotes.
pub proof fn law_stored_status_tells_of_the_branches(
    d: StatusData,
    repo_id: Seq<char>,
    repo: RepoState,
    branches: Seq<BranchState>,
    git: Seq<RepoBranch>,
    i: int,
)
    requires
        is_stored_status(d, repo_id, repo, branches, git),
    ensures
        d.repo_id@ == repo_id,
        d.display_path@ == repo.display_path@,
        repo.last_sync_at matches Some(t) ==> (d.last_sync matches Some(u) && u@ == t@),
        repo.last_sync_at is None ==> d.last_sync is None,
        d.branches@.len() == branches.len(),
        0 <= i < branches.len() ==> {
            let row = d.branches@[i];
            let b = branches[i];
            &&& row.name@ == b.branch_name@
            &&& row.status@ == b.sync_status@
            &&& b.last_pull_at matches Some(t) ==> (row.last_action matches Some(u) && u@ == t@)
            &&& b.last_pull_at is None ==> (b.last_push_at matches Some(t) ==> (
            row.last_action matches Some(u) && u@ == t@))
            &&& b.last_pull_at is None && b.last_push_at is None ==> row.last_action is None
            &&& upstream_of(git, b.branch_name@) matches Some(t) ==> (row.upstream matches Some(u)
                && u@ == t)
            &&& upstream_of(git, b.branch_name@) is None ==> row.upstream is None
        },
        d.untrusted_remotes@.len() == 0,
        d.untrusted_hosts@.len() == 0,
        d.disabled_remotes@.len() == 0,
        d.remote_urls.keys().len() == 0,
        !d.newly_registered,
{
    if 0 <= i < branches.len() {
        assert(is_row_status(d.branches@[i], branches[i], git));
    }
}

/// What is counted grows by one with each branch that is in sync or has diverged.
pub proof fn law_stored_branches_are_counted(branches: Seq<BranchState>, b: BranchState)
    ensures
        synced_rows(Seq::empty()) == 0,
        diverged_rows(Seq::empty()) == 0,
        b.sync_status@ == "synced"@ || b.sync_status@ == "up_to_date"@ ==> synced_rows(
            branches.push(b),
        ) == synced_rows(branches) + 1,
        b.sync_status@ != "synced"@ && b.sync_status@ != "up_to_date"@ ==> synced_rows(
            branches.push(b),
        ) == synced_rows(branches),
        b.sync_status@ == "diverged"@ ==> diverged_rows(branches.push(b)) == diverged_rows(branches)
            + 1,
        b.sync_status@ != "diverged"@ ==> diverged_rows(branches.push(b)) == diverged_rows(
            branches,
        ),
{
    reveal(Seq::filter);
    assert(branches.push(b).drop_last() =~= branches);
}

/// The line of a stored repo says that it is disabled or missing, else how many branches
/// have diverged, else how many are in sync.
pub proof fn law_stored_line_tells_the_worst(
    d: RepoStatusData,
    repo: RepoState,
    branches: Seq<BranchState>,
)
    requires
        is_stored_line(d, repo, branches),
    ensures
        d.display_path@ == repo.display_path@,
        repo.last_sync_at matches Some(t) ==> (d.last_sync matches Some(u) && u@ == t@),
        repo.last_sync_at is None ==> d.last_sync is None,
        repo.status@ == "disabled"@ ==> d.status_summary@ == "disabled"@,
        repo.status@ == "missing"@ ==> d.status_summary@ == "missing"@,
        repo.status@ != "disabled"@ && repo.status@ != "missing"@ ==> {
            let diverged = branches.filter(
                |b: BranchState| b.sync_status@ == "diverged"@,
            ).len();
            let synced = branches.filter(
                |b: BranchState| b.sync_status@ == "synced"@ || b.sync_status@ == "up_to_date"@,
            ).len();
            &&& diverged > 0 ==> d.status_summary@ == decimal(diverged) + "/"@ + decimal(
                branches.len(),
            ) + " diverged"@
            &&& diverged == 0 ==> d.status_summary@ == decimal(synced) + " synced"@
        },
{
    let p = |b: BranchState| counts_as_synced(b.sync_status@);
    let q = |b: BranchState| b.sync_status@ == "synced"@ || b.sync_status@ == "up_to_date"@;
    assert(p =~= q);
}

} // verus!
