//! Resolving the issues of a branch together with the user, step by step.
//!
//! What the user and git answer is collected in [`ResolveAnswers`].
//! [`next_resolve_step`] says what to print and what to ask for next. Asking
//! for a push, a rebase or a stash is what makes the driver perform it.

use vstd::prelude::*;

use crate::cli::say;
use crate::cli_status::upstream_or;
use crate::cli_ui::{pair_of, sync_pair};
use crate::executor::{
    open_question, step_for, AgentResult, Answers, BranchContext, Reply, StepView,
};
use crate::git_ops::MergeAnalysis;
use crate::requests::counts_as_synced;
use crate::text::{
    before, behind, cat, cat3, cat5, chars_of, find_char, law_first_character_parts,
    lemma_first_index, lines, split_lines,
    string_of, text_eq, trim, trimmed, parse_u64, number, views,
};
use crate::transport::{BranchStatusData, StatusData};

verus! {

// ---------------------------------------------------------------------------
// Issues
// ---------------------------------------------------------------------------

/// What is the matter with a branch.
#[derive(Debug, Clone, Copy, PartialEq, Eq, Structural)]
pub enum IssueKind {
    /// Commits that were not pushed: on a branch of someone else, or because the
    /// push failed.
    LocalAhead,
    /// Local and remote went different ways.
    Diverged,
    /// The worktree is dirty.
    Dirty,
    /// A rebase stopped at a conflict.
    Conflict,
    /// Something that only the user can mend.
    Notice,
}

/// What is the matter with a branch in a status, and how it is said. Every branch
/// that is not in sync has an issue.
pub open spec fn issue_in(status: Seq<char>) -> Option<(IssueKind, Seq<char>)> {
    if counts_as_synced(status) {
        None
    } else if status == "local_ahead"@ {
        Some((IssueKind::LocalAhead, "unpushed commits (last remote commit by someone else)"@))
    } else if status == "diverged"@ {
        Some((IssueKind::Diverged, "diverged (last remote commit by someone else)"@))
    } else if status == "diverged_yours"@ {
        Some((IssueKind::Diverged, "diverged (auto-rebase failed, resolve manually)"@))
    } else if status == "pending_dirty"@ {
        Some((IssueKind::Dirty, "dirty worktree — commit or stash to sync"@))
    } else if status == "merge_conflict"@ {
        Some((IssueKind::Conflict, "merge conflict — resolve manually or run `gitsitter auto-resolve`"@))
    } else if status == "push_rejected"@ {
        Some((IssueKind::LocalAhead, "push rejected by the remote"@))
    } else if status == "auth_failed"@ {
        Some((IssueKind::LocalAhead, "push failed (authentication)"@))
    } else if status == "network_error"@ {
        Some((IssueKind::LocalAhead, "push failed (network)"@))
    } else if status == "push_blocked_hook_timeout"@ {
        Some((IssueKind::LocalAhead, "push hook timed out"@))
    } else if status == "history_rewritten_remote_unchanged"@ {
        Some((IssueKind::Notice, "local history rewritten — push --force-with-lease when ready"@))
    } else if status == "history_rewritten_remote_advanced"@ {
        Some((IssueKind::Notice, "local history rewritten and remote advanced — force-push would discard remote commits"@))
    } else if status == "upstream_gone"@ {
        Some((IssueKind::Notice, "upstream ref deleted"@))
    } else {
        Some((IssueKind::Notice, "sync error"@))
    }
}

/// What is the matter with a branch in a status, and how it is said.
pub fn find_issue(status: &str) -> (r: Option<(IssueKind, &'static str)>)
    ensures
        match r {
            Some((kind, text)) => issue_in(status@) == Some((kind, text@)),
            None => issue_in(status@) is None,
        },
{
    if text_eq(status, "synced") || text_eq(status, "up_to_date") {
        None
    } else if text_eq(status, "local_ahead") {
        Some((IssueKind::LocalAhead, "unpushed commits (last remote commit by someone else)"))
    } else if text_eq(status, "diverged") {
        Some((IssueKind::Diverged, "diverged (last remote commit by someone else)"))
    } else if text_eq(status, "diverged_yours") {
        Some((IssueKind::Diverged, "diverged (auto-rebase failed, resolve manually)"))
    } else if text_eq(status, "pending_dirty") {
        Some((IssueKind::Dirty, "dirty worktree — commit or stash to sync"))
    } else if text_eq(status, "merge_conflict") {
        Some((IssueKind::Conflict, "merge conflict — resolve manually or run `gitsitter auto-resolve`"))
    } else if text_eq(status, "push_rejected") {
        Some((IssueKind::LocalAhead, "push rejected by the remote"))
    } else if text_eq(status, "auth_failed") {
        Some((IssueKind::LocalAhead, "push failed (authentication)"))
    } else if text_eq(status, "network_error") {
        Some((IssueKind::LocalAhead, "push failed (network)"))
    } else if text_eq(status, "push_blocked_hook_timeout") {
        Some((IssueKind::LocalAhead, "push hook timed out"))
    } else if text_eq(status, "history_rewritten_remote_unchanged") {
        Some((IssueKind::Notice, "local history rewritten — push --force-with-lease when ready"))
    } else if text_eq(status, "history_rewritten_remote_advanced") {
        Some((IssueKind::Notice, "local history rewritten and remote advanced — force-push would discard remote commits"))
    } else if text_eq(status, "upstream_gone") {
        Some((IssueKind::Notice, "upstream ref deleted"))
    } else {
        Some((IssueKind::Notice, "sync error"))
    }
}

/// A branch has no issue exactly if it is in sync.
pub proof fn law_only_synced_branches_have_no_issue(status: Seq<char>)
    ensures
        issue_in(status) is None <==> counts_as_synced(status),
{
}

/// A branch with an issue: the repo and the branch by their positions, and what
/// is the matter.
#[derive(Debug, Clone, Copy)]
pub struct Issue {
    pub repo: usize,
    pub branch: usize,
    pub kind: IssueKind,
    pub text: &'static str,
}

/// What an `Issue` says.
pub struct IssueView {
    pub repo: int,
    pub branch: int,
    pub kind: IssueKind,
    pub text: Seq<char>,
}

impl View for Issue {
    type V = IssueView;

    open spec fn view(&self) -> IssueView {
        IssueView {
            repo: self.repo as int,
            branch: self.branch as int,
            kind: self.kind,
            text: self.text@,
        }
    }
}

/// The issues of the first `n` branches of the repo at a position.
pub open spec fn issues_of_repo(branches: Seq<BranchStatusData>, repo: int, n: nat) -> Seq<IssueView>
    decreases n,
{
    if n == 0 {
        Seq::empty()
    } else {
        let front = issues_of_repo(branches, repo, (n - 1) as nat);
        match issue_in(branches[n - 1].status@) {
            Some((kind, text)) => front.push(IssueView { repo, branch: n - 1, kind, text }),
            None => front,
        }
    }
}

/// The issues of the first `n` repos.
pub open spec fn issues_of_repos(repos: Seq<StatusData>, n: nat) -> Seq<IssueView>
    decreases n,
{
    if n == 0 {
        Seq::empty()
    } else {
        issues_of_repos(repos, (n - 1) as nat) + issues_of_repo(
            repos[n - 1].branches@,
            n - 1,
            repos[n - 1].branches@.len(),
        )
    }
}

/// What there is to resolve.
#[derive(Debug)]
pub enum ResolvePlan {
    /// Nothing, which is said.
    Nothing { line: &'static str },
    /// Go through the issues.
    Issues(Vec<Issue>),
}

/// What there is to resolve: every branch that is not in sync, in the order of the
/// repos and of their branches. That all is in sync is said only if it is.
pub fn handle_resolve(repos: &Vec<StatusData>) -> (r: ResolvePlan)
    ensures
        match r {
            ResolvePlan::Nothing { line } => issues_of_repos(repos@, repos@.len()).len() == 0
                && line@ == "No issues to resolve. All branches are in sync."@,
            ResolvePlan::Issues(list) => list@.len() > 0 && list@.map_values(|i: Issue| i@)
                == issues_of_repos(repos@, repos@.len()),
        },
{
    let mut list: Vec<Issue> = Vec::new();
    let mut i: usize = 0;
    assert(list@.map_values(|i: Issue| i@) =~= issues_of_repos(repos@, 0));
    while i < repos.len()
        invariant
            i <= repos@.len(),
            list@.map_values(|i: Issue| i@) == issues_of_repos(repos@, i as nat),
        decreases repos.len() - i,
    {
        let branches = &repos[i].branches;
        let ghost front = issues_of_repos(repos@, i as nat);
        let mut j: usize = 0;
        assert(front + issues_of_repo(branches@, i as int, 0) =~= front);
        while j < branches.len()
            invariant
                i < repos@.len(),
                j <= branches@.len(),
                branches@ == repos@[i as int].branches@,
                list@.map_values(|i: Issue| i@) == front + issues_of_repo(
                    branches@,
                    i as int,
                    j as nat,
                ),
            decreases branches.len() - j,
        {
            let ghost was = list@;
            if let Some((kind, text)) = find_issue(branches[j].status.as_str()) {
                let issue = Issue { repo: i, branch: j, kind, text };
                list.push(issue);
                assert(list@.map_values(|i: Issue| i@) =~= was.map_values(|i: Issue| i@).push(
                    issue@,
                ));
                assert(list@.map_values(|i: Issue| i@) =~= front + issues_of_repo(
                    branches@,
                    i as int,
                    (j + 1) as nat,
                ));
            }
            j = j + 1;
        }
        i = i + 1;
    }
    assert(list@.map_values(|i: Issue| i@).len() == list@.len());
    if list.len() == 0 {
        ResolvePlan::Nothing { line: "No issues to resolve. All branches are in sync." }
    } else {
        ResolvePlan::Issues(list)
    }
}

proof fn lemma_issue_of_repo(branches: Seq<BranchStatusData>, repo: int, n: nat, j: int)
    requires
        0 <= j < n <= branches.len(),
        issue_in(branches[j].status@) is Some,
    ensures
        exists|k: int|
            0 <= k < issues_of_repo(branches, repo, n).len() && (#[trigger] issues_of_repo(
                branches,
                repo,
                n,
            )[k]).repo == repo && issues_of_repo(branches, repo, n)[k].branch == j,
    decreases n,
{
    let all = issues_of_repo(branches, repo, n);
    let front = issues_of_repo(branches, repo, (n - 1) as nat);
    if j == n - 1 {
        assert(all[all.len() - 1].branch == j);
    } else {
        lemma_issue_of_repo(branches, repo, (n - 1) as nat, j);
        let k = choose|k: int|
            0 <= k < front.len() && (#[trigger] front[k]).repo == repo && front[k].branch == j;
        assert(all[k] == front[k]);
    }
}

/// Every branch that is not in sync is presented, so nothing is said to be in sync
/// while some branch is flagged.
pub proof fn law_flagged_branches_are_presented(repos: Seq<StatusData>, n: nat, i: int, j: int)
    requires
        0 <= i < n <= repos.len(),
        0 <= j < repos[i].branches@.len(),
        !counts_as_synced(repos[i].branches@[j].status@),
    ensures
        exists|k: int|
            0 <= k < issues_of_repos(repos, n).len() && (#[trigger] issues_of_repos(
                repos,
                n,
            )[k]).repo == i && issues_of_repos(repos, n)[k].branch == j,
    decreases n,
{
    let front = issues_of_repos(repos, (n - 1) as nat);
    let own = issues_of_repo(repos[n - 1].branches@, n - 1, repos[n - 1].branches@.len());
    let all = issues_of_repos(repos, n);
    if i == n - 1 {
        lemma_issue_of_repo(repos[i].branches@, i, repos[i].branches@.len(), j);
        let k = choose|k: int|
            0 <= k < own.len() && (#[trigger] own[k]).repo == i && own[k].branch == j;
        assert(all[front.len() + k] == own[k]);
    } else {
        law_flagged_branches_are_presented(repos, (n - 1) as nat, i, j);
        let k = choose|k: int|
            0 <= k < front.len() && (#[trigger] front[k]).repo == i && front[k].branch == j;
        assert(all[k] == front[k]);
    }
}

/// Every issue that is presented is one of a branch that is not in sync, and what is
/// said of it is what its status means.
pub proof fn law_issues_belong_to_their_branches(repos: Seq<StatusData>, n: nat, k: int)
    requires
        n <= repos.len(),
        0 <= k < issues_of_repos(repos, n).len(),
    ensures
        ({
            let issue = issues_of_repos(repos, n)[k];
            &&& 0 <= issue.repo < n
            &&& 0 <= issue.branch < repos[issue.repo].branches@.len()
            &&& issue_in(repos[issue.repo].branches@[issue.branch].status@) == Some(
                (issue.kind, issue.text),
            )
        }),
    decreases n,
{
    let front = issues_of_repos(repos, (n - 1) as nat);
    let own = issues_of_repo(repos[n - 1].branches@, n - 1, repos[n - 1].branches@.len());
    let all = issues_of_repos(repos, n);
    if k < front.len() {
        law_issues_belong_to_their_branches(repos, (n - 1) as nat, k);
        assert(all[k] == front[k]);
    } else {
        assert(all[k] == own[k - front.len()]);
        lemma_own_issue(
            repos[n - 1].branches@,
            n - 1,
            repos[n - 1].branches@.len(),
            k - front.len(),
        );
    }
}

proof fn lemma_own_issue(branches: Seq<BranchStatusData>, repo: int, n: nat, k: int)
    requires
        n <= branches.len(),
        0 <= k < issues_of_repo(branches, repo, n).len(),
    ensures
        ({
            let issue = issues_of_repo(branches, repo, n)[k];
            &&& issue.repo == repo
            &&& 0 <= issue.branch < n
            &&& issue_in(branches[issue.branch].status@) == Some((issue.kind, issue.text))
        }),
    decreases n,
{
    let front = issues_of_repo(branches, repo, (n - 1) as nat);
    if k < front.len() {
        lemma_own_issue(branches, repo, (n - 1) as nat, k);
    }
}

/// A branch that is ahead or diverged, and that the user has no right to write,
/// is left as it is and flagged as an issue to resolve.
pub proof fn law_unsure_branch_is_flagged(
    c: BranchContext,
    a: Answers,
    now: Seq<char>,
    analysis: MergeAnalysis,
)
    requires
        c.branch.upstream_name is Some,
        a.analysis == Reply::Got(analysis),
        analysis is LocalAhead || analysis is Diverged,
        open_question(c, a, analysis) is None,
        !c.may_contact || (a.owner != Reply::Got(true) && a.merge_of_remote != Reply::Got(true)),
    ensures
        step_for(c, a, now) matches StepView::Done(report) && !report.had_activity && (
        report.state matches Some(state) && issue_in(state.sync_status) is Some),
{
    reveal_strlit("local_ahead");
    reveal_strlit("diverged");
    reveal_strlit("synced");
    reveal_strlit("up_to_date");
    assert("local_ahead"@.len() == 11);
    assert("diverged"@.len() == 8);
    assert("synced"@.len() == 6);
    assert("up_to_date"@.len() == 10);
}

/// The line that introduces an issue, with the header of the repo as it is
/// shown.
pub fn issue_title(b: &BranchStatusData, header: &str, text: &str) -> (r: String)
    ensures
        r@ == header@ + ": "@ + pair_of(b.name@, upstream_or(*b, "upstream"@)) + " — "@ + text@,
{
    let upstream = match &b.upstream {
        Some(u) => u.as_str(),
        None => "upstream",
    };
    let pair = sync_pair(b.name.as_str(), upstream);
    cat5(header, ": ", pair.as_str(), " — ", text)
}

/// The choice of the user among `max`, if `input` is one.
pub fn choice_of(input: &str, max: u64) -> (r: Option<u64>)
    ensures
        r == (match number(trimmed(input@)) {
            Some(n) if 1 <= n <= max => Some(n),
            _ => None,
        }),
{
    let t = trim(input);
    match parse_u64(t.as_str()) {
        Some(n) => if 1 <= n && n <= max {
            Some(n)
        } else {
            None
        },
        None => None,
    }
}

// ---------------------------------------------------------------------------
// Answers and tasks
// ---------------------------------------------------------------------------

/// What is known of the issue before anything is asked.
#[derive(Debug)]
pub struct IssueContext {
    pub kind: IssueKind,
    pub branch: String,
    pub upstream: Option<String>,
    /// The resolve agent, if one is configured.
    pub agent: Option<String>,
}

/// What has been answered and done so far.
#[derive(Debug)]
pub struct ResolveAnswers {
    /// The choice of the user.
    pub choice: Reply<u64>,
    /// The name of a new branch.
    pub name: Reply<String>,
    /// Whether the new branch was created.
    pub create: Reply<bool>,
    /// Whether the old branch was moved.
    pub reset: Reply<()>,
    /// Whether the rebase went through without conflicts.
    pub rebase: Reply<bool>,
    pub abort: Reply<()>,
    /// Whether the push went through.
    pub push: Reply<bool>,
    /// Whether there was something to stash.
    pub stash: Reply<bool>,
    pub analysis: Reply<MergeAnalysis>,
    pub fast_forward: Reply<()>,
    /// Whether the stash came back without conflicts.
    pub pop: Reply<bool>,
    pub agent: Reply<AgentResult>,
}

impl ResolveAnswers {
    /// Nothing was asked yet.
    pub open spec fn is_fresh(self) -> bool {
        &&& self.choice is Pending
        &&& self.name is Pending
        &&& self.create is Pending
        &&& self.reset is Pending
        &&& self.rebase is Pending
        &&& self.abort is Pending
        &&& self.push is Pending
        &&& self.stash is Pending
        &&& self.analysis is Pending
        &&& self.fast_forward is Pending
        &&& self.pop is Pending
        &&& self.agent is Pending
    }

    /// Nothing was asked yet.
    pub fn new() -> (r: ResolveAnswers)
        ensures
            r.is_fresh(),
    {
        ResolveAnswers {
            choice: Reply::Pending,
            name: Reply::Pending,
            create: Reply::Pending,
            reset: Reply::Pending,
            rebase: Reply::Pending,
            abort: Reply::Pending,
            push: Reply::Pending,
            stash: Reply::Pending,
            analysis: Reply::Pending,
            fast_forward: Reply::Pending,
            pop: Reply::Pending,
            agent: Reply::Pending,
        }
    }
}

/// What is asked of the user or of git.
#[derive(Debug)]
pub enum ResolveTask {
    /// A number from one to `max`.
    Choose { max: u64 },
    /// The name of a new branch.
    AskName,
    /// A new branch at the current HEAD.
    CreateBranch { name: String },
    /// Move a branch.
    ResetBranch { branch: String, to: String },
    Push { remote: String, branch: String, remote_ref: String },
    /// Rebase the branch.
    Rebase { branch: String, onto: String },
    AbortRebase,
    Stash,
    /// How the branch stands to its upstream.
    Analyze { branch: String },
    FastForward { to: String },
    StashPop,
    /// Let the agent resolve the conflicts.
    RunAgent { agent: String },
}

/// What a `ResolveTask` says.
pub enum ResolveTaskView {
    Choose { max: u64 },
    AskName,
    CreateBranch { name: Seq<char> },
    ResetBranch { branch: Seq<char>, to: Seq<char> },
    Push { remote: Seq<char>, branch: Seq<char>, remote_ref: Seq<char> },
    Rebase { branch: Seq<char>, onto: Seq<char> },
    AbortRebase,
    Stash,
    Analyze { branch: Seq<char> },
    FastForward { to: Seq<char> },
    StashPop,
    RunAgent { agent: Seq<char> },
}

impl View for ResolveTask {
    type V = ResolveTaskView;

    open spec fn view(&self) -> ResolveTaskView {
        match *self {
            ResolveTask::Choose { max } => ResolveTaskView::Choose { max },
            ResolveTask::AskName => ResolveTaskView::AskName,
            ResolveTask::CreateBranch { name } => ResolveTaskView::CreateBranch { name: name@ },
            ResolveTask::ResetBranch { branch, to } => ResolveTaskView::ResetBranch {
                branch: branch@,
                to: to@,
            },
            ResolveTask::Push { remote, branch, remote_ref } => ResolveTaskView::Push {
                remote: remote@,
                branch: branch@,
                remote_ref: remote_ref@,
            },
            ResolveTask::Rebase { branch, onto } => ResolveTaskView::Rebase {
                branch: branch@,
                onto: onto@,
            },
            ResolveTask::AbortRebase => ResolveTaskView::AbortRebase,
            ResolveTask::Stash => ResolveTaskView::Stash,
            ResolveTask::Analyze { branch } => ResolveTaskView::Analyze { branch: branch@ },
            ResolveTask::FastForward { to } => ResolveTaskView::FastForward { to: to@ },
            ResolveTask::StashPop => ResolveTaskView::StashPop,
            ResolveTask::RunAgent { agent } => ResolveTaskView::RunAgent { agent: agent@ },
        }
    }
}

/// What to print, and what to ask for then. Without a task the issue is done
/// with.
#[derive(Debug)]
pub struct ResolveStep {
    pub lines: Vec<String>,
    pub task: Option<ResolveTask>,
}

/// What a `ResolveStep` says.
pub struct ResolveStepView {
    pub lines: Seq<Seq<char>>,
    pub task: Option<ResolveTaskView>,
}

impl View for ResolveStep {
    type V = ResolveStepView;

    open spec fn view(&self) -> ResolveStepView {
        ResolveStepView {
            lines: views(self.lines@),
            task: match self.task {
                Some(t) => Some(t@),
                None => None,
            },
        }
    }
}

/// Ask without printing anything.
pub open spec fn asks(task: ResolveTaskView) -> ResolveStepView {
    ResolveStepView { lines: Seq::empty(), task: Some(task) }
}

/// Print one line and ask.
pub open spec fn says_and_asks(line: Seq<char>, task: ResolveTaskView) -> ResolveStepView {
    ResolveStepView { lines: seq![line], task: Some(task) }
}

/// Print one line and be done.
pub open spec fn ends(line: Seq<char>) -> ResolveStepView {
    ResolveStepView { lines: seq![line], task: None }
}

/// Be done.
pub open spec fn stops() -> ResolveStepView {
    ResolveStepView { lines: Seq::empty(), task: None }
}

fn ask(task: ResolveTask) -> (r: ResolveStep)
    ensures
        r@ == asks(task@),
{
    let r = ResolveStep { lines: Vec::new(), task: Some(task) };
    assert(r@.lines =~= Seq::<Seq<char>>::empty());
    r
}

fn say_and_ask(line: String, task: ResolveTask) -> (r: ResolveStep)
    ensures
        r@ == says_and_asks(line@, task@),
{
    let mut lines: Vec<String> = Vec::new();
    let ghost l = line@;
    say(&mut lines, line);
    let r = ResolveStep { lines, task: Some(task) };
    assert(r@.lines =~= seq![l]);
    r
}

fn end(line: String) -> (r: ResolveStep)
    ensures
        r@ == ends(line@),
{
    let mut lines: Vec<String> = Vec::new();
    let ghost l = line@;
    say(&mut lines, line);
    let r = ResolveStep { lines, task: None };
    assert(r@.lines =~= seq![l]);
    r
}

fn stop() -> (r: ResolveStep)
    ensures
        r@ == stops(),
{
    let r = ResolveStep { lines: Vec::new(), task: None };
    assert(r@.lines =~= Seq::<Seq<char>>::empty());
    r
}

/// A menu and the choice from it.
fn menu(first: &str, second: &str, third: Option<&str>) -> (r: ResolveStep)
    ensures
        r@ == (match third {
            Some(t) => ResolveStepView {
                lines: seq![first@, second@, t@],
                task: Some(ResolveTaskView::Choose { max: 3 }),
            },
            None => ResolveStepView {
                lines: seq![first@, second@],
                task: Some(ResolveTaskView::Choose { max: 2 }),
            },
        }),
{
    let mut lines: Vec<String> = Vec::new();
    say(&mut lines, String::from_str(first));
    say(&mut lines, String::from_str(second));
    match third {
        Some(t) => {
            say(&mut lines, String::from_str(t));
            assert(views(lines@) =~= seq![first@, second@, t@]);
            ResolveStep { lines, task: Some(ResolveTask::Choose { max: 3 }) }
        },
        None => {
            assert(views(lines@) =~= seq![first@, second@]);
            ResolveStep { lines, task: Some(ResolveTask::Choose { max: 2 }) }
        },
    }
}

// ---------------------------------------------------------------------------
// Where the branch goes
// ---------------------------------------------------------------------------

/// The upstream of the branch, or what stands in its place.
pub open spec fn upstream_text(c: IssueContext) -> Seq<char> {
    match c.upstream {
        Some(u) => u@,
        None => "upstream"@,
    }
}

/// The remote of the branch: what stands before the first slash of the upstream.
pub open spec fn remote_of(c: IssueContext) -> Seq<char> {
    before(upstream_text(c), '/')
}

/// The branch on the remote: what stands behind the first slash of the upstream,
/// or the branch's own name.
pub open spec fn remote_ref_of(c: IssueContext) -> Seq<char> {
    if upstream_text(c).contains('/') {
        behind(upstream_text(c), '/')
    } else {
        c.branch@
    }
}

fn upstream_parts(c: &IssueContext) -> (r: (String, String))
    ensures
        r.0@ == remote_of(*c),
        r.1@ == remote_ref_of(*c),
{
    let upstream = match &c.upstream {
        Some(u) => u.as_str(),
        None => "upstream",
    };
    let cs = chars_of(upstream);
    let slash = find_char(&cs, 0, '/');
    assert(cs@.skip(0) =~= cs@);
    proof {
        lemma_first_index(cs@, '/');
    }
    let remote = string_of(&cs, 0, slash);
    assert(remote@ =~= remote_of(*c));
    if slash < cs.len() {
        let rest = string_of(&cs, slash + 1, cs.len());
        assert(rest@ =~= behind(upstream@, '/'));
        assert(cs@[slash as int] == '/');
        (remote, rest)
    } else {
        (remote, String::from_str(c.branch.as_str()))
    }
}

// ---------------------------------------------------------------------------
// The steps
// ---------------------------------------------------------------------------

/// A new branch at the current HEAD. `moves` is whether the old branch is
/// moved back to its upstream afterwards.
pub open spec fn new_branch_step(c: IssueContext, a: ResolveAnswers, moves: bool) -> ResolveStepView {
    match a.name {
        Reply::Got(name) => if name@.len() == 0 {
            stops()
        } else {
            match a.create {
                Reply::Pending => asks(ResolveTaskView::CreateBranch { name: name@ }),
                Reply::Got(true) => {
                    let line = "  \u{2713} Created branch "@ + name@;
                    match c.upstream {
                        Some(u) if moves => if a.reset is Pending {
                            says_and_asks(
                                line,
                                ResolveTaskView::ResetBranch {
                                    branch: c.branch@,
                                    to: u@,
                                },
                            )
                        } else {
                            stops()
                        },
                        _ => ends(line),
                    }
                },
                _ => ends("  Failed to create branch."@),
            }
        },
        Reply::Pending => asks(ResolveTaskView::AskName),
        Reply::Failed(_) => stops(),
    }
}

fn new_branch(c: &IssueContext, a: &ResolveAnswers, moves: bool) -> (r: ResolveStep)
    ensures
        r@ == new_branch_step(*c, *a, moves),
{
    match &a.name {
        Reply::Got(name) => {
            if name.as_str().is_empty() {
                return stop();
            }
            match &a.create {
                Reply::Pending => ask(
                    ResolveTask::CreateBranch { name: String::from_str(name.as_str()) },
                ),
                Reply::Got(true) => {
                    let line = cat("  \u{2713} Created branch ", name.as_str());
                    match &c.upstream {
                        Some(u) if moves => match &a.reset {
                            Reply::Pending => say_and_ask(
                                line,
                                ResolveTask::ResetBranch {
                                    branch: String::from_str(c.branch.as_str()),
                                    to: String::from_str(u.as_str()),
                                },
                            ),
                            _ => stop(),
                        },
                        _ => end(line),
                    }
                },
                _ => end(String::from_str("  Failed to create branch.")),
            }
        },
        Reply::Pending => ask(ResolveTask::AskName),
        Reply::Failed(_) => stop(),
    }
}

/// The push of the branch to where its upstream is.
pub open spec fn push_task(c: IssueContext) -> ResolveTaskView {
    ResolveTaskView::Push {
        remote: remote_of(c),
        branch: c.branch@,
        remote_ref: remote_ref_of(c),
    }
}

fn push(c: &IssueContext) -> (r: ResolveTask)
    ensures
        r@ == push_task(*c),
{
    let (remote, remote_ref) = upstream_parts(c);
    ResolveTask::Push { remote, branch: String::from_str(c.branch.as_str()), remote_ref }
}

/// The steps for commits that were not pushed.
pub open spec fn local_ahead_step(c: IssueContext, a: ResolveAnswers) -> ResolveStepView {
    match a.choice {
        Reply::Pending => ResolveStepView {
            lines: seq![
                "  [1] Push to remote"@,
                "  [2] Create a new branch from your commits"@,
                "  [3] Skip"@,
            ],
            task: Some(ResolveTaskView::Choose { max: 3 }),
        },
        Reply::Got(1) => match a.push {
            Reply::Pending => asks(push_task(c)),
            Reply::Got(true) => ends("  \u{2713} Pushed "@ + c.branch@),
            _ => ends("  Push failed. Resolve manually."@),
        },
        Reply::Got(2) => new_branch_step(c, a, true),
        _ => ends("  Skipped."@),
    }
}

fn local_ahead(c: &IssueContext, a: &ResolveAnswers) -> (r: ResolveStep)
    ensures
        r@ == local_ahead_step(*c, *a),
{
    match &a.choice {
        Reply::Pending => menu(
            "  [1] Push to remote",
            "  [2] Create a new branch from your commits",
            Some("  [3] Skip"),
        ),
        Reply::Got(1) => match &a.push {
            Reply::Pending => ask(push(c)),
            Reply::Got(true) => end(cat("  \u{2713} Pushed ", c.branch.as_str())),
            _ => end(String::from_str("  Push failed. Resolve manually.")),
        },
        Reply::Got(2) => new_branch(c, a, true),
        _ => end(String::from_str("  Skipped.")),
    }
}

/// The steps for a branch that diverged.
pub open spec fn diverged_step(c: IssueContext, a: ResolveAnswers) -> ResolveStepView {
    match a.choice {
        Reply::Pending => ResolveStepView {
            lines: seq![
                "  [1] Rebase onto remote and push"@,
                "  [2] Create a new branch from your commits"@,
                "  [3] Skip"@,
            ],
            task: Some(ResolveTaskView::Choose { max: 3 }),
        },
        Reply::Got(1) => match a.rebase {
            Reply::Pending => asks(
                ResolveTaskView::Rebase {
                    branch: c.branch@,
                    onto: remote_of(c) + "/"@ + remote_ref_of(c),
                },
            ),
            Reply::Got(true) => match a.push {
                Reply::Pending => asks(push_task(c)),
                Reply::Got(true) => ends("  \u{2713} Rebased and pushed "@ + c.branch@),
                _ => ends("  Rebase succeeded but push failed. Resolve manually."@),
            },
            Reply::Got(false) => if a.abort is Pending {
                asks(ResolveTaskView::AbortRebase)
            } else {
                ends("  Rebase had conflicts and was aborted. Resolve manually."@)
            },
            Reply::Failed(e) => if a.abort is Pending {
                asks(ResolveTaskView::AbortRebase)
            } else {
                ends("  Rebase failed: "@ + e@ + ". Resolve manually."@)
            },
        },
        Reply::Got(2) => new_branch_step(c, a, false),
        _ => ends("  Skipped."@),
    }
}

fn diverged(c: &IssueContext, a: &ResolveAnswers) -> (r: ResolveStep)
    ensures
        r@ == diverged_step(*c, *a),
{
    match &a.choice {
        Reply::Pending => menu(
            "  [1] Rebase onto remote and push",
            "  [2] Create a new branch from your commits",
            Some("  [3] Skip"),
        ),
        Reply::Got(1) => match &a.rebase {
            Reply::Pending => {
                let (remote, remote_ref) = upstream_parts(c);
                ask(
                    ResolveTask::Rebase {
                        branch: String::from_str(c.branch.as_str()),
                        onto: cat3(remote.as_str(), "/", remote_ref.as_str()),
                    },
                )
            },
            Reply::Got(true) => match &a.push {
                Reply::Pending => ask(push(c)),
                Reply::Got(true) => end(cat("  \u{2713} Rebased and pushed ", c.branch.as_str())),
                _ => end(
                    String::from_str("  Rebase succeeded but push failed. Resolve manually."),
                ),
            },
            Reply::Got(false) => match &a.abort {
                Reply::Pending => ask(ResolveTask::AbortRebase),
                _ => end(
                    String::from_str("  Rebase had conflicts and was aborted. Resolve manually."),
                ),
            },
            Reply::Failed(e) => match &a.abort {
                Reply::Pending => ask(ResolveTask::AbortRebase),
                _ => end(cat3("  Rebase failed: ", e.as_str(), ". Resolve manually.")),
            },
        },
        Reply::Got(2) => new_branch(c, a, false),
        _ => end(String::from_str("  Skipped.")),
    }
}

/// How far the sync of a stashed worktree is: a step is missing, or it is over,
/// well or not, with a line to print or without.
pub enum StashedSync {
    Missing(ResolveTaskView),
    Over(bool, Option<Seq<char>>),
}

/// What a stashed worktree is synced with: the branch of the same name on the remote.
pub open spec fn namesake_ref(c: IssueContext) -> Seq<char> {
    remote_of(c) + "/"@ + c.branch@
}

/// The sync of a stashed worktree.
pub open spec fn stashed_sync(c: IssueContext, a: ResolveAnswers) -> StashedSync {
    match a.analysis {
        Reply::Pending => StashedSync::Missing(ResolveTaskView::Analyze { branch: c.branch@ }),
        Reply::Got(MergeAnalysis::FastForward) => match a.fast_forward {
            Reply::Pending => StashedSync::Missing(
                ResolveTaskView::FastForward { to: namesake_ref(c) },
            ),
            Reply::Got(_) => StashedSync::Over(true, None),
            Reply::Failed(_) => StashedSync::Over(false, None),
        },
        Reply::Got(MergeAnalysis::Diverged) => match a.rebase {
            Reply::Pending => StashedSync::Missing(
                ResolveTaskView::Rebase { branch: c.branch@, onto: namesake_ref(c) },
            ),
            Reply::Got(true) => StashedSync::Over(true, None),
            _ => if a.abort is Pending {
                StashedSync::Missing(ResolveTaskView::AbortRebase)
            } else {
                StashedSync::Over(false, None)
            },
        },
        _ => StashedSync::Over(true, Some("  Branch is already up to date after stash."@)),
    }
}

/// The steps for a dirty worktree.
pub open spec fn dirty_step(c: IssueContext, a: ResolveAnswers) -> ResolveStepView {
    match a.choice {
        Reply::Pending => ResolveStepView {
            lines: seq![
                "  [1] Stash, sync, pop stash"@,
                "  [2] Skip (will auto-sync when worktree is clean)"@,
            ],
            task: Some(ResolveTaskView::Choose { max: 2 }),
        },
        Reply::Got(1) => match a.stash {
            Reply::Pending => asks(ResolveTaskView::Stash),
            Reply::Got(false) => ends("  Nothing to stash — worktree already clean."@),
            Reply::Failed(e) => ends("  Stash failed: "@ + e@ + ". Resolve manually."@),
            Reply::Got(true) => match stashed_sync(c, a) {
                StashedSync::Missing(task) => if a.analysis is Pending {
                    says_and_asks("  Stashed working changes."@, task)
                } else {
                    asks(task)
                },
                StashedSync::Over(ok, line) => match a.pop {
                    Reply::Pending => match line {
                        Some(l) => says_and_asks(l, ResolveTaskView::StashPop),
                        None => asks(ResolveTaskView::StashPop),
                    },
                    Reply::Got(true) => if ok {
                        ends("  \u{2713} Synced and restored working changes"@)
                    } else {
                        ends("  Sync failed but working changes restored. Resolve manually."@)
                    },
                    Reply::Got(false) => if ok {
                        ends(
                            "  Synced, but stash pop has conflicts — resolve with `git stash pop` or `git stash drop`"@,
                        )
                    } else {
                        ends("  Sync failed and stash pop has conflicts. Resolve manually."@)
                    },
                    Reply::Failed(e) => ends(
                        "  Stash pop failed: "@ + e@ + ". Your changes are in `git stash list`."@,
                    ),
                },
            },
        },
        _ => ends("  Skipped."@),
    }
}

fn namesake(c: &IssueContext) -> (r: String)
    ensures
        r@ == namesake_ref(*c),
{
    let (remote, _) = upstream_parts(c);
    cat3(remote.as_str(), "/", c.branch.as_str())
}

fn pop_stash(a: &ResolveAnswers, ok: bool, line: Option<&str>) -> (r: ResolveStep)
    ensures
        r@ == (match a.pop {
            Reply::Pending => match line {
                Some(l) => says_and_asks(l@, ResolveTaskView::StashPop),
                None => asks(ResolveTaskView::StashPop),
            },
            Reply::Got(true) => if ok {
                ends("  \u{2713} Synced and restored working changes"@)
            } else {
                ends("  Sync failed but working changes restored. Resolve manually."@)
            },
            Reply::Got(false) => if ok {
                ends(
                    "  Synced, but stash pop has conflicts — resolve with `git stash pop` or `git stash drop`"@,
                )
            } else {
                ends("  Sync failed and stash pop has conflicts. Resolve manually."@)
            },
            Reply::Failed(e) => ends(
                "  Stash pop failed: "@ + e@ + ". Your changes are in `git stash list`."@,
            ),
        }),
{
    match &a.pop {
        Reply::Pending => match line {
            Some(l) => say_and_ask(String::from_str(l), ResolveTask::StashPop),
            None => ask(ResolveTask::StashPop),
        },
        Reply::Got(true) => if ok {
            end(String::from_str("  \u{2713} Synced and restored working changes"))
        } else {
            end(String::from_str("  Sync failed but working changes restored. Resolve manually."))
        },
        Reply::Got(false) => if ok {
            end(
                String::from_str(
                    "  Synced, but stash pop has conflicts — resolve with `git stash pop` or `git stash drop`",
                ),
            )
        } else {
            end(String::from_str("  Sync failed and stash pop has conflicts. Resolve manually."))
        },
        Reply::Failed(e) => end(
            cat3("  Stash pop failed: ", e.as_str(), ". Your changes are in `git stash list`."),
        ),
    }
}

fn dirty(c: &IssueContext, a: &ResolveAnswers) -> (r: ResolveStep)
    ensures
        r@ == dirty_step(*c, *a),
{
    match &a.choice {
        Reply::Pending => {
            return menu(
                "  [1] Stash, sync, pop stash",
                "  [2] Skip (will auto-sync when worktree is clean)",
                None,
            );
        },
        Reply::Got(1) => {},
        _ => {
            return end(String::from_str("  Skipped."));
        },
    }
    match &a.stash {
        Reply::Pending => {
            return ask(ResolveTask::Stash);
        },
        Reply::Got(false) => {
            return end(String::from_str("  Nothing to stash — worktree already clean."));
        },
        Reply::Failed(e) => {
            return end(cat3("  Stash failed: ", e.as_str(), ". Resolve manually."));
        },
        Reply::Got(true) => {},
    }
    match &a.analysis {
        Reply::Pending => say_and_ask(
            String::from_str("  Stashed working changes."),
            ResolveTask::Analyze { branch: String::from_str(c.branch.as_str()) },
        ),
        Reply::Got(MergeAnalysis::FastForward) => match &a.fast_forward {
            Reply::Pending => ask(ResolveTask::FastForward { to: namesake(c) }),
            Reply::Got(_) => pop_stash(a, true, None),
            Reply::Failed(_) => pop_stash(a, false, None),
        },
        Reply::Got(MergeAnalysis::Diverged) => match &a.rebase {
            Reply::Pending => ask(
                ResolveTask::Rebase {
                    branch: String::from_str(c.branch.as_str()),
                    onto: namesake(c),
                },
            ),
            Reply::Got(true) => pop_stash(a, true, None),
            _ => match &a.abort {
                Reply::Pending => ask(ResolveTask::AbortRebase),
                _ => pop_stash(a, false, None),
            },
        },
        _ => pop_stash(a, true, Some("  Branch is already up to date after stash.")),
    }
}

/// The last lines of what an agent printed, five at most.
pub open spec fn surfaced(output: Seq<char>) -> Seq<Seq<char>> {
    let all = lines(output);
    let last = if all.len() > 5 {
        all.skip(all.len() - 5)
    } else {
        all
    };
    last.map_values(|l: Seq<char>| "  | "@ + l)
}

/// What is printed of what an agent did.
pub open spec fn agent_lines(reply: Reply<AgentResult>) -> Seq<Seq<char>> {
    match reply {
        Reply::Pending => Seq::empty(),
        Reply::Got(result) => if result.completed {
            seq!["  \u{2713} Conflicts resolved by agent"@]
        } else {
            seq!["  Agent did not fully resolve conflicts."@] + surfaced(
                result.agent_output@,
            ) + seq!["  Finish resolving manually, then `git rebase --continue`."@]
        },
        Reply::Failed(e) => seq![
            "  Resolve agent failed: "@ + e@,
            "  Conflicts remain — resolve manually or `git rebase --abort`."@,
        ],
    }
}

/// What is printed of what an agent did.
pub fn agent_report(reply: &Reply<AgentResult>) -> (r: Vec<String>)
    ensures
        views(r@) == agent_lines(*reply),
{
    let mut out: Vec<String> = Vec::new();
    match reply {
        Reply::Pending => {},
        Reply::Got(result) => {
            if result.completed {
                say(&mut out, String::from_str("  \u{2713} Conflicts resolved by agent"));
                assert(views(out@) =~= agent_lines(*reply));
                return out;
            }
            say(&mut out, String::from_str("  Agent did not fully resolve conflicts."));
            let all = split_lines(result.agent_output.as_str());
            let ghost shown = surfaced(result.agent_output@);
            let from: usize = if all.len() > 5 {
                all.len() - 5
            } else {
                0
            };
            let mut i: usize = from;
            let ghost head = seq!["  Agent did not fully resolve conflicts."@];
            assert(views(all@).len() == all@.len());
            assert(views(out@) =~= head + shown.take(0));
            while i < all.len()
                invariant
                    from <= i <= all@.len(),
                    from == (if all@.len() > 5 {
                        all@.len() - 5
                    } else {
                        0
                    }),
                    views(all@) == lines(result.agent_output@),
                    shown == surfaced(result.agent_output@),
                    shown.len() == all@.len() - from,
                    views(out@) == head + shown.take(i - from),
                decreases all.len() - i,
            {
                assert(views(all@)[i as int] == all@[i as int]@);
                assert(shown[i - from] == "  | "@ + all@[i as int]@);
                say(&mut out, cat("  | ", all[i].as_str()));
                assert(shown.take(i - from + 1) =~= shown.take(i - from).push(shown[i - from]));
                assert(head + shown.take(i - from + 1) =~= (head + shown.take(i - from)).push(
                    shown[i - from],
                ));
                i = i + 1;
            }
            assert(shown.take(i - from) =~= shown);
            say(
                &mut out,
                String::from_str("  Finish resolving manually, then `git rebase --continue`."),
            );
        },
        Reply::Failed(e) => {
            say(&mut out, cat("  Resolve agent failed: ", e.as_str()));
            say(
                &mut out,
                String::from_str("  Conflicts remain — resolve manually or `git rebase --abort`."),
            );
        },
    }
    assert(views(out@) =~= agent_lines(*reply));
    out
}

/// The rebase is given up.
pub open spec fn abort_step(a: ResolveAnswers) -> ResolveStepView {
    if a.abort is Pending {
        asks(ResolveTaskView::AbortRebase)
    } else {
        ends("  Rebase aborted."@)
    }
}

fn abort(a: &ResolveAnswers) -> (r: ResolveStep)
    ensures
        r@ == abort_step(*a),
{
    match &a.abort {
        Reply::Pending => ask(ResolveTask::AbortRebase),
        _ => end(String::from_str("  Rebase aborted.")),
    }
}

/// The steps for a conflict.
pub open spec fn conflict_step(c: IssueContext, a: ResolveAnswers) -> ResolveStepView {
    match c.agent {
        Some(agent) => match a.choice {
            Reply::Pending => ResolveStepView {
                lines: seq![
                    "  [1] Run resolve agent"@,
                    "  [2] Abort rebase"@,
                    "  [3] Skip (resolve manually)"@,
                ],
                task: Some(ResolveTaskView::Choose { max: 3 }),
            },
            Reply::Got(1) => if a.agent is Pending {
                says_and_asks(
                    "  Running resolve agent '"@ + agent@ + "'..."@,
                    ResolveTaskView::RunAgent { agent: agent@ },
                )
            } else {
                ResolveStepView { lines: agent_lines(a.agent), task: None }
            },
            Reply::Got(2) => abort_step(a),
            _ => ends("  Skipped."@),
        },
        None => match a.choice {
            Reply::Pending => ResolveStepView {
                lines: seq!["  [1] Abort rebase"@, "  [2] Skip (resolve manually)"@],
                task: Some(ResolveTaskView::Choose { max: 2 }),
            },
            Reply::Got(1) => abort_step(a),
            _ => ends("  Skipped."@),
        },
    }
}

fn conflict(c: &IssueContext, a: &ResolveAnswers) -> (r: ResolveStep)
    ensures
        r@ == conflict_step(*c, *a),
{
    match &c.agent {
        Some(agent) => match &a.choice {
            Reply::Pending => menu(
                "  [1] Run resolve agent",
                "  [2] Abort rebase",
                Some("  [3] Skip (resolve manually)"),
            ),
            Reply::Got(1) => match &a.agent {
                Reply::Pending => say_and_ask(
                    cat3("  Running resolve agent '", agent.as_str(), "'..."),
                    ResolveTask::RunAgent { agent: String::from_str(agent.as_str()) },
                ),
                _ => ResolveStep { lines: agent_report(&a.agent), task: None },
            },
            Reply::Got(2) => abort(a),
            _ => end(String::from_str("  Skipped.")),
        },
        None => match &a.choice {
            Reply::Pending => menu("  [1] Abort rebase", "  [2] Skip (resolve manually)", None),
            Reply::Got(1) => abort(a),
            _ => end(String::from_str("  Skipped.")),
        },
    }
}

/// The steps for something that only the user can mend.
pub open spec fn notice_step(a: ResolveAnswers) -> ResolveStepView {
    match a.choice {
        Reply::Pending => says_and_asks(
            "  [1] Skip (resolve manually)"@,
            ResolveTaskView::Choose { max: 1 },
        ),
        _ => ends("  Skipped."@),
    }
}

fn notice(a: &ResolveAnswers) -> (r: ResolveStep)
    ensures
        r@ == notice_step(*a),
{
    match &a.choice {
        Reply::Pending => say_and_ask(
            String::from_str("  [1] Skip (resolve manually)"),
            ResolveTask::Choose { max: 1 },
        ),
        _ => end(String::from_str("  Skipped.")),
    }
}

/// What to print and to ask for next.
pub open spec fn resolve_step(c: IssueContext, a: ResolveAnswers) -> ResolveStepView {
    match c.kind {
        IssueKind::LocalAhead => local_ahead_step(c, a),
        IssueKind::Diverged => diverged_step(c, a),
        IssueKind::Dirty => dirty_step(c, a),
        IssueKind::Conflict => conflict_step(c, a),
        IssueKind::Notice => notice_step(a),
    }
}

/// What to print and to ask for next.
pub fn next_resolve_step(c: &IssueContext, a: &ResolveAnswers) -> (r: ResolveStep)
    ensures
        r@ == resolve_step(*c, *a),
{
    match c.kind {
        IssueKind::LocalAhead => local_ahead(c, a),
        IssueKind::Diverged => diverged(c, a),
        IssueKind::Dirty => dirty(c, a),
        IssueKind::Conflict => conflict(c, a),
        IssueKind::Notice => notice(a),
    }
}

// ---------------------------------------------------------------------------
// Laws
// ---------------------------------------------------------------------------

/// Whether the answer to a task is still missing.
pub open spec fn is_open(task: ResolveTaskView, a: ResolveAnswers) -> bool {
    match task {
        ResolveTaskView::Choose { .. } => a.choice is Pending,
        ResolveTaskView::AskName => a.name is Pending,
        ResolveTaskView::CreateBranch { .. } => a.create is Pending,
        ResolveTaskView::ResetBranch { .. } => a.reset is Pending,
        ResolveTaskView::Push { .. } => a.push is Pending,
        ResolveTaskView::Rebase { .. } => a.rebase is Pending,
        ResolveTaskView::AbortRebase => a.abort is Pending,
        ResolveTaskView::Stash => a.stash is Pending,
        ResolveTaskView::Analyze { .. } => a.analysis is Pending,
        ResolveTaskView::FastForward { .. } => a.fast_forward is Pending,
        ResolveTaskView::StashPop => a.pop is Pending,
        ResolveTaskView::RunAgent { .. } => a.agent is Pending,
    }
}

/// Nothing is asked for twice, so every issue comes to an end.
pub proof fn law_no_question_is_repeated(c: IssueContext, a: ResolveAnswers)
    ensures
        resolve_step(c, a).task matches Some(task) ==> is_open(task, a),
{
}

/// Before the user has chosen, the only thing asked for is the choice.
pub proof fn law_user_chooses_first(c: IssueContext, a: ResolveAnswers)
    requires
        a.choice is Pending,
    ensures
        resolve_step(c, a).task matches Some(task) && task is Choose,
{
}

/// The last choice of every menu is to skip: it ends the issue, and nothing is
/// done.
pub proof fn law_skip_does_nothing(c: IssueContext, a: ResolveAnswers, max: u64, fresh: ResolveAnswers)
    requires
        fresh.choice is Pending,
        resolve_step(c, fresh).task == Some(ResolveTaskView::Choose { max }),
        a.choice == Reply::Got(max),
    ensures
        resolve_step(c, a) == ends("  Skipped."@),
{
}

/// What was stashed is always popped before the issue is done with.
pub proof fn law_stash_is_popped(c: IssueContext, a: ResolveAnswers)
    requires
        c.kind is Dirty,
        a.choice == Reply::Got(1u64),
        a.stash == Reply::Got(true),
        resolve_step(c, a).task is None,
    ensures
        !(a.pop is Pending),
{
}

/// A rebase that did not go through is always aborted before the issue is done
/// with.
pub proof fn law_failed_rebase_is_aborted(c: IssueContext, a: ResolveAnswers)
    requires
        c.kind is Diverged,
        a.choice == Reply::Got(1u64),
        !(a.rebase is Pending),
        a.rebase != Reply::Got(true),
        resolve_step(c, a).task is None,
    ensures
        !(a.abort is Pending),
{
}

/// A branch is moved back only once the new branch is there, and only to its
/// upstream.
pub proof fn law_new_branch_comes_first(c: IssueContext, a: ResolveAnswers)
    ensures
        resolve_step(c, a).task matches Some(ResolveTaskView::ResetBranch { branch, to }) ==> {
            &&& branch == c.branch@
            &&& c.upstream matches Some(u) && to == u@
            &&& a.create == Reply::Got(true)
        },
{
}

/// A branch that diverged is pushed only after a rebase that went through.
pub proof fn law_diverged_push_follows_rebase(c: IssueContext, a: ResolveAnswers)
    requires
        c.kind is Diverged,
        resolve_step(c, a).task matches Some(task) && task is Push,
    ensures
        a.choice == Reply::Got(1u64),
        a.rebase == Reply::Got(true),
{
}

// ---------------------------------------------------------------------------
// What each choice does
// ---------------------------------------------------------------------------

/// Whether a step prints one line, and nothing else.
pub open spec fn prints(r: ResolveStep, line: Seq<char>) -> bool {
    r.lines@.len() == 1 && r.lines@[0]@ == line
}

/// Whether a step prints one line and is the last one.
pub open spec fn closes_with(r: ResolveStep, line: Seq<char>) -> bool {
    prints(r, line) && r.task is None
}

/// Whether the upstream of the branch is `name` on `remote`.
pub open spec fn tracks(c: IssueContext, remote: Seq<char>, name: Seq<char>) -> bool {
    !remote.contains('/') && (c.upstream matches Some(u) && u@ == remote + seq!['/'] + name)
}

proof fn lemma_upstream_parts(c: IssueContext, remote: Seq<char>, name: Seq<char>)
    requires
        tracks(c, remote, name),
    ensures
        remote_of(c) == remote,
        remote_ref_of(c) == name,
        "/"@ == seq!['/'],
{
    reveal_strlit("/");
    assert("/"@ =~= seq!['/']);
    law_first_character_parts(remote, '/', name);
    let u = remote + seq!['/'] + name;
    assert(u[remote.len() as int] == '/');
    assert(u.contains('/'));
}

/// Whatever is pushed is the branch, and it goes to its upstream.
pub proof fn law_resolving_pushes_to_the_upstream(
    c: IssueContext,
    a: ResolveAnswers,
    r: ResolveStep,
    upstream_remote: Seq<char>,
    name: Seq<char>,
)
    requires
        r@ == resolve_step(c, a),
        tracks(c, upstream_remote, name),
    ensures
        r.task matches Some(ResolveTask::Push { remote, branch, remote_ref }) ==> {
            &&& remote@ == upstream_remote
            &&& branch@ == c.branch@
            &&& remote_ref@ == name
        },
        r.task matches Some(ResolveTask::Rebase { branch, onto }) ==> {
            &&& branch@ == c.branch@
            &&& c.kind is Diverged ==> onto@ == upstream_remote + seq!['/'] + name
            &&& c.kind is Dirty ==> onto@ == upstream_remote + seq!['/'] + c.branch@
            &&& c.kind is Diverged || c.kind is Dirty
        },
        r.task matches Some(ResolveTask::FastForward { to }) ==> c.kind is Dirty && to@
            == upstream_remote + seq!['/'] + c.branch@,
        r.task matches Some(ResolveTask::ResetBranch { branch, to }) ==> {
            &&& branch@ == c.branch@
            &&& to@ == upstream_remote + seq!['/'] + name
        },
{
    lemma_upstream_parts(c, upstream_remote, name);
}

/// The other tasks are about the branch, the name that the user gave and the agent
/// that is configured.
pub proof fn law_resolving_stays_with_the_branch(
    c: IssueContext,
    a: ResolveAnswers,
    r: ResolveStep,
)
    requires
        r@ == resolve_step(c, a),
    ensures
        r.task matches Some(ResolveTask::CreateBranch { name }) ==> (a.name matches Reply::Got(n)
            && name@ == n@ && n@.len() > 0),
        r.task matches Some(ResolveTask::Analyze { branch }) ==> branch@ == c.branch@,
        r.task matches Some(ResolveTask::RunAgent { agent }) ==> c.kind is Conflict && (
        c.agent matches Some(x) && agent@ == x@),
        r.task matches Some(ResolveTask::Choose { max }) ==> max == (match c.kind {
            IssueKind::LocalAhead | IssueKind::Diverged => 3u64,
            IssueKind::Dirty => 2u64,
            IssueKind::Conflict => if c.agent is Some {
                3u64
            } else {
                2u64
            },
            IssueKind::Notice => 1u64,
        }),
{
}

/// A branch that is pushed is told as pushed only if the push went through, and as long
/// as it is not answered it is asked for.
pub proof fn law_push_is_told_as_it_went(c: IssueContext, a: ResolveAnswers, r: ResolveStep)
    requires
        r@ == resolve_step(c, a),
        c.kind is LocalAhead,
        a.choice == Reply::Got(1u64),
    ensures
        a.push is Pending ==> r.lines@.len() == 0 && (r.task matches Some(t) && t is Push),
        a.push == Reply::Got(true) ==> closes_with(r, "  \u{2713} Pushed "@ + c.branch@),
        a.push is Failed || a.push == Reply::Got(false) ==> closes_with(
            r,
            "  Push failed. Resolve manually."@,
        ),
{
    assert(views(r.lines@).len() == r.lines@.len());
    if r.lines@.len() > 0 {
        assert(views(r.lines@)[0] == r.lines@[0]@);
    }
}

/// A branch that diverged is rebased, and one that was rebased is pushed: it is told as
/// rebased and pushed only if both went through. A rebase that did not is aborted.
pub proof fn law_rebase_and_push_are_told_as_they_went(
    c: IssueContext,
    a: ResolveAnswers,
    r: ResolveStep,
)
    requires
        r@ == resolve_step(c, a),
        c.kind is Diverged,
        a.choice == Reply::Got(1u64),
    ensures
        a.rebase is Pending ==> r.lines@.len() == 0 && (r.task matches Some(t) && t is Rebase),
        a.rebase == Reply::Got(true) ==> {
            &&& a.push is Pending ==> r.lines@.len() == 0 && (r.task matches Some(t) && t is Push)
            &&& a.push == Reply::Got(true) ==> closes_with(
                r,
                "  \u{2713} Rebased and pushed "@ + c.branch@,
            )
            &&& a.push is Failed || a.push == Reply::Got(false) ==> closes_with(
                r,
                "  Rebase succeeded but push failed. Resolve manually."@,
            )
        },
        a.rebase is Failed || a.rebase == Reply::Got(false) ==> {
            &&& a.abort is Pending ==> r.lines@.len() == 0 && (r.task matches Some(t) && t
                is AbortRebase)
            &&& !(a.abort is Pending) && a.rebase == Reply::Got(false) ==> closes_with(
                r,
                "  Rebase had conflicts and was aborted. Resolve manually."@,
            )
            &&& !(a.abort is Pending) ==> (a.rebase matches Reply::Failed(e) ==> closes_with(
                r,
                "  Rebase failed: "@ + e@ + ". Resolve manually."@,
            ))
        },
{
    assert(views(r.lines@).len() == r.lines@.len());
    if r.lines@.len() > 0 {
        assert(views(r.lines@)[0] == r.lines@[0]@);
    }
}

/// A new branch is made under the name that the user gives, if one is given. A branch
/// that is only ahead is then moved back to its upstream; one that diverged stays.
pub proof fn law_new_branch_is_made_as_named(c: IssueContext, a: ResolveAnswers, r: ResolveStep)
    requires
        r@ == resolve_step(c, a),
        c.kind is LocalAhead || c.kind is Diverged,
        a.choice == Reply::Got(2u64),
    ensures
        a.name is Pending ==> r.lines@.len() == 0 && (r.task matches Some(t) && t is AskName),
        a.name is Failed || (a.name matches Reply::Got(n) && n@.len() == 0) ==> r.lines@.len() == 0
            && r.task is None,
        a.name matches Reply::Got(n) ==> (n@.len() > 0 ==> {
            &&& a.create is Pending ==> r.lines@.len() == 0 && (r.task matches Some(t) && t
                is CreateBranch)
            &&& a.create is Failed || a.create == Reply::Got(false) ==> closes_with(
                r,
                "  Failed to create branch."@,
            )
            &&& a.create == Reply::Got(true) && (c.kind is Diverged || c.upstream is None)
                ==> closes_with(r, "  \u{2713} Created branch "@ + n@)
            &&& a.create == Reply::Got(true) && c.kind is LocalAhead && c.upstream is Some ==> {
                &&& a.reset is Pending ==> prints(r, "  \u{2713} Created branch "@ + n@) && (
                r.task matches Some(t) && t is ResetBranch)
                &&& !(a.reset is Pending) ==> r.lines@.len() == 0 && r.task is None
            }
        }),
{
    assert(views(r.lines@).len() == r.lines@.len());
    if r.lines@.len() > 0 {
        assert(views(r.lines@)[0] == r.lines@[0]@);
    }
}

/// How the sync of a stashed worktree has ended: well, badly, or not yet.
pub open spec fn stash_synced(a: ResolveAnswers) -> Option<bool> {
    match a.analysis {
        Reply::Pending => None,
        Reply::Got(MergeAnalysis::FastForward) => match a.fast_forward {
            Reply::Pending => None,
            Reply::Got(_) => Some(true),
            Reply::Failed(_) => Some(false),
        },
        Reply::Got(MergeAnalysis::Diverged) => if a.rebase == Reply::Got(true) {
            Some(true)
        } else if a.rebase is Pending || a.abort is Pending {
            None
        } else {
            Some(false)
        },
        _ => Some(true),
    }
}

/// Changes are stashed first. Then the branch is brought to its upstream: by a
/// fast-forward if it is behind, by a rebase if it diverged, which is aborted if it does
/// not go through. Last, the changes are popped, and it is told how both went.
pub proof fn law_stash_sync_pop(c: IssueContext, a: ResolveAnswers, r: ResolveStep)
    requires
        r@ == resolve_step(c, a),
        c.kind is Dirty,
        a.choice == Reply::Got(1u64),
    ensures
        a.stash is Pending ==> r.lines@.len() == 0 && r.task == Some(ResolveTask::Stash),
        a.stash == Reply::Got(false) ==> closes_with(
            r,
            "  Nothing to stash — worktree already clean."@,
        ),
        a.stash matches Reply::Failed(e) ==> closes_with(
            r,
            "  Stash failed: "@ + e@ + ". Resolve manually."@,
        ),
        a.stash == Reply::Got(true) ==> {
            &&& a.analysis is Pending ==> prints(r, "  Stashed working changes."@) && (
            r.task matches Some(t) && t is Analyze)
            &&& a.analysis == Reply::Got(MergeAnalysis::FastForward) && a.fast_forward is Pending
                ==> r.lines@.len() == 0 && (r.task matches Some(t) && t is FastForward)
            &&& a.analysis == Reply::Got(MergeAnalysis::Diverged) && a.rebase is Pending
                ==> r.lines@.len() == 0 && (r.task matches Some(t) && t is Rebase)
            &&& a.analysis == Reply::Got(MergeAnalysis::Diverged) && !(a.rebase is Pending)
                && a.rebase != Reply::Got(true) && a.abort is Pending ==> r.lines@.len() == 0 && (
            r.task matches Some(t) && t is AbortRebase)
            &&& stash_synced(a) is Some && a.pop is Pending ==> r.task == Some(
                ResolveTask::StashPop,
            )
            &&& a.pop == Reply::Got(true) ==> {
                &&& stash_synced(a) == Some(true) ==> closes_with(
                    r,
                    "  \u{2713} Synced and restored working changes"@,
                )
                &&& stash_synced(a) == Some(false) ==> closes_with(
                    r,
                    "  Sync failed but working changes restored. Resolve manually."@,
                )
            }
            &&& a.pop == Reply::Got(false) ==> {
                &&& stash_synced(a) == Some(true) ==> closes_with(
                    r,
                    "  Synced, but stash pop has conflicts — resolve with `git stash pop` or `git stash drop`"@,
                )
                &&& stash_synced(a) == Some(false) ==> closes_with(
                    r,
                    "  Sync failed and stash pop has conflicts. Resolve manually."@,
                )
            }
            &&& stash_synced(a) is Some ==> (a.pop matches Reply::Failed(e) ==> closes_with(
                r,
                "  Stash pop failed: "@ + e@ + ". Your changes are in `git stash list`."@,
            ))
        },
{
    assert(views(r.lines@).len() == r.lines@.len());
    if r.lines@.len() > 0 {
        assert(views(r.lines@)[0] == r.lines@[0]@);
    }
}

/// A conflict goes to the agent, if there is one and the user wants it, or the rebase is
/// aborted. What the agent did is told in the end.
pub proof fn law_conflict_is_resolved_or_aborted(
    c: IssueContext,
    a: ResolveAnswers,
    r: ResolveStep,
)
    requires
        r@ == resolve_step(c, a),
        c.kind is Conflict,
    ensures
        (c.agent is Some && a.choice == Reply::Got(2u64)) || (c.agent is None && a.choice
            == Reply::Got(1u64)) ==> {
            &&& a.abort is Pending ==> r.lines@.len() == 0 && (r.task matches Some(t) && t
                is AbortRebase)
            &&& !(a.abort is Pending) ==> closes_with(r, "  Rebase aborted."@)
        },
        a.choice == Reply::Got(1u64) ==> (c.agent matches Some(x) ==> {
            &&& a.agent is Pending ==> prints(
                r,
                "  Running resolve agent '"@ + x@ + "'..."@,
            ) && (r.task matches Some(t) && t is RunAgent)
            &&& !(a.agent is Pending) ==> r.task is None
            &&& a.agent matches Reply::Got(result) ==> (result.completed ==> closes_with(
                r,
                "  \u{2713} Conflicts resolved by agent"@,
            ))
            &&& a.agent matches Reply::Got(result) ==> (!result.completed ==> r.lines@.len() >= 2
                && r.lines@[0]@ == "  Agent did not fully resolve conflicts."@ && r.lines@.last()@
                == "  Finish resolving manually, then `git rebase --continue`."@)
            &&& a.agent matches Reply::Failed(e) ==> r.lines@.len() == 2 && r.lines@[0]@
                == "  Resolve agent failed: "@ + e@ && r.lines@[1]@
                == "  Conflicts remain — resolve manually or `git rebase --abort`."@
        }),
{
    let v = views(r.lines@);
    assert(v.len() == r.lines@.len());
    assert(forall|k: int| 0 <= k < v.len() ==> v[k] == (#[trigger] r.lines@[k])@);
    if r.lines@.len() > 0 {
        assert(v[0] == r.lines@[0]@);
        assert(v[v.len() - 1] == r.lines@[v.len() - 1]@);
    }
    if r.lines@.len() > 1 {
        assert(v[1] == r.lines@[1]@);
    }
}

/// The menus: what the user may choose, for each kind of issue.
pub proof fn law_menus_say_what_can_be_done(c: IssueContext, a: ResolveAnswers, r: ResolveStep)
    requires
        r@ == resolve_step(c, a),
        a.choice is Pending,
    ensures
        match c.kind {
            IssueKind::LocalAhead => r.lines@.len() == 3 && r.lines@[0]@ == "  [1] Push to remote"@
                && r.lines@[1]@ == "  [2] Create a new branch from your commits"@ && r.lines@[2]@
                == "  [3] Skip"@,
            IssueKind::Diverged => r.lines@.len() == 3 && r.lines@[0]@
                == "  [1] Rebase onto remote and push"@ && r.lines@[1]@
                == "  [2] Create a new branch from your commits"@ && r.lines@[2]@
                == "  [3] Skip"@,
            IssueKind::Dirty => r.lines@.len() == 2 && r.lines@[0]@
                == "  [1] Stash, sync, pop stash"@ && r.lines@[1]@
                == "  [2] Skip (will auto-sync when worktree is clean)"@,
            IssueKind::Conflict => if c.agent is Some {
                r.lines@.len() == 3 && r.lines@[0]@ == "  [1] Run resolve agent"@ && r.lines@[1]@
                    == "  [2] Abort rebase"@ && r.lines@[2]@ == "  [3] Skip (resolve manually)"@
            } else {
                r.lines@.len() == 2 && r.lines@[0]@ == "  [1] Abort rebase"@ && r.lines@[1]@
                    == "  [2] Skip (resolve manually)"@
            },
            IssueKind::Notice => r.lines@.len() == 1 && r.lines@[0]@
                == "  [1] Skip (resolve manually)"@,
        },
{
    let v = views(r.lines@);
    assert(v.len() == r.lines@.len());
    assert(forall|k: int| 0 <= k < v.len() ==> v[k] == (#[trigger] r.lines@[k])@);
    assert(v[0] == r.lines@[0]@);
    if v.len() > 1 {
        assert(v[1] == r.lines@[1]@);
    }
    if v.len() > 2 {
        assert(v[2] == r.lines@[2]@);
    }
}

/// Of what the agent printed, the last five lines are shown, or all if there are fewer.
pub proof fn law_last_lines_of_the_agent_are_shown(output: Seq<char>, i: int)
    ensures
        lines(output).len() <= 5 ==> surfaced(output).len() == lines(output).len(),
        lines(output).len() > 5 ==> surfaced(output).len() == 5,
        0 <= i < surfaced(output).len() ==> surfaced(output)[i] == "  | "@ + lines(output)[lines(
            output,
        ).len() - surfaced(output).len() + i],
{
}

/// Which kind of issue each status is.
pub proof fn law_statuses_have_their_issues(status: Seq<char>)
    ensures
        issue_in("synced"@) is None,
        issue_in("up_to_date"@) is None,
        issue_in("local_ahead"@) == Some(
            (IssueKind::LocalAhead, "unpushed commits (last remote commit by someone else)"@),
        ),
        issue_in("push_rejected"@) == Some(
            (IssueKind::LocalAhead, "push rejected by the remote"@),
        ),
        issue_in("auth_failed"@) == Some(
            (IssueKind::LocalAhead, "push failed (authentication)"@),
        ),
        issue_in("network_error"@) == Some(
            (IssueKind::LocalAhead, "push failed (network)"@),
        ),
        issue_in("push_blocked_hook_timeout"@) == Some(
            (IssueKind::LocalAhead, "push hook timed out"@),
        ),
        issue_in("diverged"@) == Some(
            (IssueKind::Diverged, "diverged (last remote commit by someone else)"@),
        ),
        issue_in("diverged_yours"@) == Some(
            (IssueKind::Diverged, "diverged (auto-rebase failed, resolve manually)"@),
        ),
        issue_in("pending_dirty"@) == Some(
            (IssueKind::Dirty, "dirty worktree — commit or stash to sync"@),
        ),
        issue_in("merge_conflict"@) == Some(
            (IssueKind::Conflict, "merge conflict — resolve manually or run `gitsitter auto-resolve`"@),
        ),
        issue_in(status) matches Some((k, _)) ==> {
            &&& k is LocalAhead ==> status == "local_ahead"@ || status == "push_rejected"@
                || status == "auth_failed"@ || status == "network_error"@ || status
                == "push_blocked_hook_timeout"@
            &&& k is Diverged ==> status == "diverged"@ || status == "diverged_yours"@
            &&& k is Dirty ==> status == "pending_dirty"@
            &&& k is Conflict ==> status == "merge_conflict"@
        },
        issue_in(status) matches Some((k, text)) ==> (k is Notice ==> {
            &&& status == "history_rewritten_remote_unchanged"@ ==> text
                == "local history rewritten — push --force-with-lease when ready"@
            &&& status == "history_rewritten_remote_advanced"@ ==> text
                == "local history rewritten and remote advanced — force-push would discard remote commits"@
            &&& status == "upstream_gone"@ ==> text == "upstream ref deleted"@
            &&& status != "history_rewritten_remote_unchanged"@ && status
                != "history_rewritten_remote_advanced"@ && status != "upstream_gone"@ ==> text
                == "sync error"@
        }),
        issue_in(status) is None ==> status == "synced"@ || status == "up_to_date"@,
{
    reveal_strlit("synced");
    reveal_strlit("up_to_date");
    reveal_strlit("local_ahead");
    reveal_strlit("push_rejected");
    reveal_strlit("auth_failed");
    reveal_strlit("network_error");
    reveal_strlit("push_blocked_hook_timeout");
    reveal_strlit("diverged");
    reveal_strlit("diverged_yours");
    reveal_strlit("pending_dirty");
    reveal_strlit("merge_conflict");
    reveal_strlit("upstream_gone");
    reveal_strlit("history_rewritten_remote_unchanged");
    reveal_strlit("history_rewritten_remote_advanced");
    assert("history_rewritten_remote_unchanged"@.len() == 34
        && "history_rewritten_remote_advanced"@.len() == 33 && "upstream_gone"@.len() == 13);
    assert("upstream_gone"@[1] == 'p' && "upstream_gone"@[0] == 'u');
    assert("synced"@.len() == 6 && "up_to_date"@.len() == 10 && "diverged"@.len() == 8);
    assert("local_ahead"@.len() == 11 && "auth_failed"@.len() == 11);
    assert("local_ahead"@[0] == 'l' && "auth_failed"@[0] == 'a');
    assert("push_rejected"@.len() == 13 && "network_error"@.len() == 13 && "pending_dirty"@.len()
        == 13);
    assert("push_rejected"@[1] == 'u' && "network_error"@[1] == 'e' && "pending_dirty"@[1] == 'e');
    assert("network_error"@[0] == 'n' && "pending_dirty"@[0] == 'p');
    assert("diverged_yours"@.len() == 14 && "merge_conflict"@.len() == 14);
    assert("diverged_yours"@[0] == 'd' && "merge_conflict"@[0] == 'm');
    assert("push_blocked_hook_timeout"@.len() == 25);
}

/// Before anything was asked no answer is known, so that the user is asked to choose.
pub proof fn law_nothing_is_known_at_first(a: ResolveAnswers)
    requires
        a.is_fresh(),
    ensures
        a.choice is Pending && a.name is Pending && a.create is Pending && a.reset is Pending,
        a.rebase is Pending && a.abort is Pending && a.push is Pending && a.stash is Pending,
        a.analysis is Pending && a.fast_forward is Pending && a.pop is Pending && a.agent
            is Pending,
{
}

} // verus!
