//! Syncing one branch, step by step.
//!
//! What git and the resolve agent answer is collected in [`Answers`].
//! [`next_step`] says what to do next: ask for one more answer, or record a
//! [`Report`]. Asking for a fast-forward, a rebase or a push is what makes the
//! driver perform it.

use vstd::prelude::*;

use crate::clock::Duration;
use crate::config::{EffectiveConflictAction, GlobalSettings, OnConflict, UserConfig};
use crate::cycle::{is_fetchable, may_fetch};
use crate::daemon::{
    action_for, clock_reaches, decide_branch_action, BackoffState, BranchRuntimeState,
    BranchRuntimeView, BranchSyncInput, SyncAction, TrackedRepo,
};
use crate::git_ops::{HistoryRewrite, MergeAnalysis, PushResult, RepoBranch, WorktreeInfo};
use crate::table::Table;
use crate::text::{cat, clone_opt, last_lines, tail_lines, view_opt};
use crate::transport::SyncEvent;

verus! {

// ---------------------------------------------------------------------------
// Answers
// ---------------------------------------------------------------------------

/// The answer to a question that was put to the outside.
#[derive(Debug)]
pub enum Reply<T> {
    /// The question was not asked yet.
    Pending,
    /// It could not be answered, for the given reason.
    Failed(String),
    /// The answer.
    Got(T),
}

/// What the resolve agent left behind.
#[derive(Debug)]
pub struct AgentResult {
    /// Whether all conflicts are resolved.
    pub completed: bool,
    pub agent_output: String,
}

/// What has been found out and done about a branch so far.
#[derive(Debug)]
pub struct Answers {
    pub analysis: Reply<MergeAnalysis>,
    /// Whether the worktree of the branch is dirty.
    pub dirty: Reply<bool>,
    /// Whether the user owns the branch.
    pub owner: Reply<bool>,
    /// Whether the local tip merges the remote tip.
    pub merge_of_remote: Reply<bool>,
    /// The fast-forward, by merge or by moving the ref.
    pub fast_forward: Reply<()>,
    pub rewrite: Reply<HistoryRewrite>,
    /// The path of a worktree that was made for a branch that has none.
    pub aside: Reply<String>,
    /// Whether the rebase went through without conflicts.
    pub rebase: Reply<bool>,
    pub abort: Reply<()>,
    pub agent: Reply<AgentResult>,
    pub push: Reply<PushResult>,
    /// The removal of the worktree that was made.
    pub removal: Reply<()>,
}

impl Answers {
    /// Nothing was asked yet.
    pub open spec fn is_fresh(self) -> bool {
        &&& self.analysis is Pending
        &&& self.dirty is Pending
        &&& self.owner is Pending
        &&& self.merge_of_remote is Pending
        &&& self.fast_forward is Pending
        &&& self.rewrite is Pending
        &&& self.aside is Pending
        &&& self.rebase is Pending
        &&& self.abort is Pending
        &&& self.agent is Pending
        &&& self.push is Pending
        &&& self.removal is Pending
    }

    /// Nothing was asked yet.
    pub fn new() -> (r: Answers)
        ensures
            r.is_fresh(),
    {
        Answers {
            analysis: Reply::Pending,
            dirty: Reply::Pending,
            owner: Reply::Pending,
            merge_of_remote: Reply::Pending,
            fast_forward: Reply::Pending,
            rewrite: Reply::Pending,
            aside: Reply::Pending,
            rebase: Reply::Pending,
            abort: Reply::Pending,
            agent: Reply::Pending,
            push: Reply::Pending,
            removal: Reply::Pending,
        }
    }
}

/// The Boolean answer, or `default` where it could not be had.
pub open spec fn answer_or(reply: Reply<bool>, default: bool) -> bool {
    match reply {
        Reply::Got(b) => b,
        _ => default,
    }
}

fn reply_or(reply: &Reply<bool>, default: bool) -> (r: bool)
    ensures
        r == answer_or(*reply, default),
{
    match reply {
        Reply::Got(b) => *b,
        _ => default,
    }
}

// ---------------------------------------------------------------------------
// Tasks and reports
// ---------------------------------------------------------------------------

/// A question to the outside.
#[derive(Debug)]
pub enum Task {
    /// How the branch stands to its upstream.
    Analyze,
    /// Whether the worktree is dirty.
    CheckDirty { worktree: String },
    /// Whether the user owns the branch.
    CheckOwner,
    /// Whether the local tip merges the remote tip.
    CheckMergeOfRemote,
    /// Fast-forward the worktree to the upstream.
    FastForwardMerge { worktree: String, upstream: String },
    /// Move the ref from the old commit to the new one.
    UpdateRef { ref_name: String, new_oid: String, old_oid: String },
    /// Push the branch.
    Push { path: String, remote: String, branch: String, remote_ref: String },
    /// Whether local history was rewritten.
    DetectRewrite,
    /// Make a worktree for a branch that has none, and check the branch out there.
    AddWorktree { branch: String },
    /// Rebase the branch in the worktree where it is checked out.
    Rebase { path: String, branch: String, upstream_ref: String },
    /// Give up the rebase.
    AbortRebase { path: String },
    /// Let the agent resolve the conflicts.
    RunAgent { path: String, agent: String, agent_path: Option<String> },
    /// Remove the worktree that was made, with a rebase that is left in it.
    RemoveWorktree { path: String },
}

/// What a `Task` says.
pub enum TaskView {
    Analyze,
    CheckDirty { worktree: Seq<char> },
    CheckOwner,
    CheckMergeOfRemote,
    FastForwardMerge { worktree: Seq<char>, upstream: Seq<char> },
    UpdateRef { ref_name: Seq<char>, new_oid: Seq<char>, old_oid: Seq<char> },
    Push { path: Seq<char>, remote: Seq<char>, branch: Seq<char>, remote_ref: Seq<char> },
    DetectRewrite,
    AddWorktree { branch: Seq<char> },
    Rebase { path: Seq<char>, branch: Seq<char>, upstream_ref: Seq<char> },
    AbortRebase { path: Seq<char> },
    RunAgent { path: Seq<char>, agent: Seq<char>, agent_path: Option<Seq<char>> },
    RemoveWorktree { path: Seq<char> },
}

impl View for Task {
    type V = TaskView;

    open spec fn view(&self) -> TaskView {
        match *self {
            Task::Analyze => TaskView::Analyze,
            Task::CheckDirty { worktree } => TaskView::CheckDirty { worktree: worktree@ },
            Task::CheckOwner => TaskView::CheckOwner,
            Task::CheckMergeOfRemote => TaskView::CheckMergeOfRemote,
            Task::FastForwardMerge { worktree, upstream } => TaskView::FastForwardMerge {
                worktree: worktree@,
                upstream: upstream@,
            },
            Task::UpdateRef { ref_name, new_oid, old_oid } => TaskView::UpdateRef {
                ref_name: ref_name@,
                new_oid: new_oid@,
                old_oid: old_oid@,
            },
            Task::Push { path, remote, branch, remote_ref } => TaskView::Push {
                path: path@,
                remote: remote@,
                branch: branch@,
                remote_ref: remote_ref@,
            },
            Task::DetectRewrite => TaskView::DetectRewrite,
            Task::AddWorktree { branch } => TaskView::AddWorktree { branch: branch@ },
            Task::Rebase { path, branch, upstream_ref } => TaskView::Rebase {
                path: path@,
                branch: branch@,
                upstream_ref: upstream_ref@,
            },
            Task::AbortRebase { path } => TaskView::AbortRebase { path: path@ },
            Task::RunAgent { path, agent, agent_path } => TaskView::RunAgent {
                path: path@,
                agent: agent@,
                agent_path: view_opt(agent_path),
            },
            Task::RemoveWorktree { path } => TaskView::RemoveWorktree { path: path@ },
        }
    }
}

/// What a sync does to the backoff of the repo.
#[derive(Debug, Clone, Copy, PartialEq, Eq, Structural)]
pub enum BackoffChange {
    Keep,
    /// The push of the branch went through.
    PushSucceeded,
    /// The push of the branch failed.
    PushFailed,
    /// The remote could not be reached or refused the credentials.
    FetchFailed,
}

/// What is recorded of the sync of a branch.
#[derive(Debug)]
pub struct Report {
    /// The new state of the branch, if it is known.
    pub state: Option<BranchRuntimeState>,
    pub event: Option<SyncEvent>,
    pub backoff: BackoffChange,
    /// Whether anything was moved or pushed.
    pub had_activity: bool,
}

/// What a branch event says.
pub struct BranchEventView {
    pub branch: Seq<char>,
    pub analysis: Seq<char>,
    pub sync_action: Seq<char>,
    pub rewrite: Option<Seq<char>>,
    pub status: Seq<char>,
    pub detail: Seq<char>,
}

/// What a `Report` says.
pub struct ReportView {
    pub state: Option<BranchRuntimeView>,
    pub event: Option<BranchEventView>,
    pub backoff: BackoffChange,
    pub had_activity: bool,
}

/// An event is the given branch event.
pub open spec fn is_branch_event(event: SyncEvent, v: BranchEventView) -> bool {
    match event {
        SyncEvent::Branch { branch, analysis, sync_action, rewrite, status, detail } => {
            &&& branch@ == v.branch
            &&& analysis@ == v.analysis
            &&& sync_action@ == v.sync_action
            &&& view_opt(rewrite) == v.rewrite
            &&& status@ == v.status
            &&& detail@ == v.detail
        },
        SyncEvent::Fetch { .. } => false,
    }
}

/// A report says the given things.
pub open spec fn is_report(report: Report, v: ReportView) -> bool {
    &&& match report.state {
        Some(s) => v.state == Some(s@),
        None => v.state is None,
    }
    &&& match report.event {
        Some(e) => v.event is Some && is_branch_event(e, v.event->0),
        None => v.event is None,
    }
    &&& report.backoff == v.backoff
    &&& report.had_activity == v.had_activity
}

/// What to do next about a branch.
#[derive(Debug)]
pub enum Step {
    Ask(Task),
    Done(Report),
}

/// What a `Step` says.
pub enum StepView {
    Ask(TaskView),
    Done(ReportView),
}

/// A step says the given thing.
pub open spec fn is_step(step: Step, v: StepView) -> bool {
    match step {
        Step::Ask(task) => v == StepView::Ask(task@),
        Step::Done(report) => v is Done && is_report(report, v->Done_0),
    }
}

// ---------------------------------------------------------------------------
// The branch and its surroundings
// ---------------------------------------------------------------------------

/// A branch, and what the sync of it depends on.
#[derive(Debug)]
pub struct BranchContext {
    pub branch: RepoBranch,
    /// Where the branch is checked out.
    pub worktree: Option<String>,
    /// Where git runs for commands that leave worktrees alone: in the first
    /// worktree, or in the repo.
    pub work_path: String,
    /// Whether the remote of the branch may be contacted.
    pub may_contact: bool,
    pub push_backoff_active: bool,
    pub conflict_action: EffectiveConflictAction,
    /// The resolve agent. Without one nothing is left to an agent.
    pub agent: String,
    pub agent_path: Option<String>,
}

/// The full name of the ref of a branch.
pub open spec fn ref_of(branch: Seq<char>) -> Seq<char> {
    "refs/heads/"@ + branch
}

/// The path where git commands for a repo run.
pub open spec fn work_path_of(worktrees: Seq<WorktreeInfo>, repo_path: Seq<char>) -> Seq<char> {
    if worktrees.len() > 0 {
        worktrees[0].path@
    } else {
        repo_path
    }
}

/// The conflict policy in force.
pub open spec fn conflict_action_of(global: GlobalSettings) -> EffectiveConflictAction {
    match global.on_conflict {
        OnConflict::Revert => EffectiveConflictAction::Revert,
        OnConflict::Leave => EffectiveConflictAction::Leave,
        OnConflict::ResolveAgent | OnConflict::Auto => if global.resolve_agent is Some {
            EffectiveConflictAction::ResolveAgent
        } else {
            EffectiveConflictAction::Leave
        },
    }
}

/// The path where git commands for a repo run.
pub fn work_path(worktrees: &Vec<WorktreeInfo>, repo_path: &str) -> (r: String)
    ensures
        r@ == work_path_of(worktrees@, repo_path@),
{
    if worktrees.len() > 0 {
        String::from_str(worktrees[0].path.as_str())
    } else {
        String::from_str(repo_path)
    }
}

/// Gathers what the sync of a branch depends on.
pub fn branch_context(
    branch: RepoBranch,
    occupancy: &Table<String>,
    worktrees: &Vec<WorktreeInfo>,
    repo_id: &str,
    backoff: &BackoffState,
    config: &UserConfig,
    urls: &Table<String>,
    now: Duration,
) -> (r: BranchContext)
    ensures
        r.branch == branch,
        view_opt(r.worktree) == (if occupancy@.contains_key(branch.name@) {
            Some(occupancy@[branch.name@]@)
        } else {
            None
        }),
        r.work_path@ == work_path_of(worktrees@, repo_id@),
        r.may_contact == may_fetch(*config, repo_id@, urls@, branch.remote@),
        r.push_backoff_active == backoff.push_blocked(ref_of(branch.name@), now),
        r.conflict_action == conflict_action_of(config.global),
        r.agent@ == (match config.global.resolve_agent {
            Some(a) => a@,
            None => Seq::empty(),
        }),
        r.conflict_action is ResolveAgent ==> config.global.resolve_agent is Some,
        view_opt(r.agent_path) == view_opt(config.global.resolve_agent_path),
{
    let worktree = match occupancy.get(branch.name.as_str()) {
        Some(path) => Some(String::from_str(path.as_str())),
        None => None,
    };
    let ref_name = cat("refs/heads/", branch.name.as_str());
    let push_backoff_active = backoff.should_skip_push(ref_name.as_str(), now);
    let may_contact = is_fetchable(config, repo_id, urls, branch.remote.as_str());
    let global = &config.global;
    let agent = match &global.resolve_agent {
        Some(a) => String::from_str(a.as_str()),
        None => String::new(),
    };
    BranchContext {
        branch,
        worktree,
        work_path: work_path(worktrees, repo_id),
        may_contact,
        push_backoff_active,
        conflict_action: global.on_conflict.effective(global.resolve_agent.is_some()),
        agent,
        agent_path: clone_opt(&global.resolve_agent_path),
    }
}

// ---------------------------------------------------------------------------
// Observing
// ---------------------------------------------------------------------------

/// The next thing to find out before the action can be decided. A worktree
/// that cannot be looked at counts as dirty, and a branch whose owner cannot be
/// found as someone else's. Where the remote may not be contacted nothing can be
/// pushed, so no right to do so is looked for.
pub open spec fn open_question(c: BranchContext, a: Answers, analysis: MergeAnalysis) -> Option<
    TaskView,
> {
    if c.worktree is Some && a.dirty is Pending {
        Some(TaskView::CheckDirty { worktree: c.worktree->0@ })
    } else if c.may_contact && (analysis is LocalAhead || analysis is Diverged)
        && a.owner is Pending {
        Some(TaskView::CheckOwner)
    } else if c.may_contact && analysis is LocalAhead && !answer_or(a.owner, false)
        && a.merge_of_remote is Pending {
        Some(TaskView::CheckMergeOfRemote)
    } else {
        None
    }
}

/// What has been observed of a branch. Nobody has a right to write to a remote
/// that may not be contacted.
pub open spec fn observed(c: BranchContext, a: Answers, analysis: MergeAnalysis) -> BranchSyncInput {
    let is_owner = c.may_contact && (analysis is LocalAhead || analysis is Diverged) && answer_or(
        a.owner,
        false,
    );
    BranchSyncInput {
        merge_analysis: analysis,
        is_checked_out: c.worktree is Some,
        is_worktree_dirty: c.worktree is Some && answer_or(a.dirty, true),
        is_owner,
        is_merge_of_remote: c.may_contact && analysis is LocalAhead && !is_owner && answer_or(
            a.merge_of_remote,
            false,
        ),
        push_backoff_active: c.push_backoff_active,
    }
}

fn ask_open_question(c: &BranchContext, a: &Answers, analysis: MergeAnalysis) -> (r: Option<Task>)
    ensures
        match r {
            Some(task) => open_question(*c, *a, analysis) == Some(task@),
            None => open_question(*c, *a, analysis) is None,
        },
{
    if let Some(worktree) = &c.worktree {
        if matches!(a.dirty, Reply::Pending) {
            return Some(Task::CheckDirty { worktree: String::from_str(worktree.as_str()) });
        }
    }
    let two_sided = matches!(analysis, MergeAnalysis::LocalAhead | MergeAnalysis::Diverged);
    if !c.may_contact {
        return None;
    }
    if two_sided && matches!(a.owner, Reply::Pending) {
        return Some(Task::CheckOwner);
    }
    if matches!(analysis, MergeAnalysis::LocalAhead) && !reply_or(&a.owner, false) && matches!(
        a.merge_of_remote,
        Reply::Pending
    ) {
        return Some(Task::CheckMergeOfRemote);
    }
    None
}

fn observe(c: &BranchContext, a: &Answers, analysis: MergeAnalysis) -> (r: BranchSyncInput)
    ensures
        r == observed(*c, *a, analysis),
{
    let two_sided = matches!(analysis, MergeAnalysis::LocalAhead | MergeAnalysis::Diverged);
    let is_checked_out = c.worktree.is_some();
    let is_owner = c.may_contact && two_sided && reply_or(&a.owner, false);
    BranchSyncInput {
        merge_analysis: analysis,
        is_checked_out,
        is_worktree_dirty: is_checked_out && reply_or(&a.dirty, true),
        is_owner,
        is_merge_of_remote: c.may_contact && matches!(analysis, MergeAnalysis::LocalAhead)
            && !is_owner && reply_or(&a.merge_of_remote, false),
        push_backoff_active: c.push_backoff_active,
    }
}

// ---------------------------------------------------------------------------
// Acting
// ---------------------------------------------------------------------------

/// Nothing to record.
pub open spec fn nothing() -> ReportView {
    ReportView { state: None, event: None, backoff: BackoffChange::Keep, had_activity: false }
}

/// A branch event.
pub open spec fn event(
    c: BranchContext,
    i: BranchSyncInput,
    rewrite: Option<HistoryRewrite>,
    status: Seq<char>,
    detail: Seq<char>,
) -> BranchEventView {
    BranchEventView {
        branch: c.branch.name@,
        analysis: i.merge_analysis.name(),
        sync_action: action_for(i).name(),
        rewrite: match rewrite {
            Some(r) => Some(r.name()),
            None => None,
        },
        status,
        detail,
    }
}

/// A branch that stays where it is, with an explanation.
pub open spec fn at_rest(
    c: BranchContext,
    status: Seq<char>,
    message: Option<Seq<char>>,
) -> BranchRuntimeView {
    BranchRuntimeView {
        sync_status: status,
        last_pull_at: None,
        last_push_at: None,
        local_oid: Some(c.branch.local_oid@),
        remote_oid: view_opt(c.branch.remote_oid),
        error_message: message,
    }
}

/// A branch that now stands where its upstream stood.
pub open spec fn pulled(c: BranchContext, now: Seq<char>) -> BranchRuntimeView {
    BranchRuntimeView {
        sync_status: "synced"@,
        last_pull_at: Some(now),
        last_push_at: None,
        local_oid: view_opt(c.branch.remote_oid),
        remote_oid: view_opt(c.branch.remote_oid),
        error_message: None,
    }
}

/// A branch whose upstream now stands where it stands.
pub open spec fn pushed(c: BranchContext, now: Seq<char>) -> BranchRuntimeView {
    BranchRuntimeView {
        sync_status: "synced"@,
        last_pull_at: None,
        last_push_at: Some(now),
        local_oid: Some(c.branch.local_oid@),
        remote_oid: Some(c.branch.local_oid@),
        error_message: None,
    }
}

/// A report of a branch that is left alone.
pub open spec fn held(
    c: BranchContext,
    i: BranchSyncInput,
    rewrite: Option<HistoryRewrite>,
    status: Seq<char>,
    message: Option<Seq<char>>,
    detail: Seq<char>,
) -> ReportView {
    ReportView {
        state: Some(at_rest(c, status, message)),
        event: Some(event(c, i, rewrite, status, detail)),
        backoff: BackoffChange::Keep,
        had_activity: false,
    }
}

/// A report without an event.
pub open spec fn silent(
    c: BranchContext,
    status: Seq<char>,
    message: Seq<char>,
    backoff: BackoffChange,
) -> ReportView {
    ReportView {
        state: Some(at_rest(c, status, Some(message))),
        event: None,
        backoff,
        had_activity: false,
    }
}

/// The push of the branch.
pub open spec fn push_task(c: BranchContext) -> TaskView {
    TaskView::Push {
        path: c.work_path@,
        remote: c.branch.remote@,
        branch: c.branch.name@,
        remote_ref: c.branch.remote_ref@,
    }
}

/// The remote-tracking ref that the branch is rebased onto.
pub open spec fn rebase_target(c: BranchContext) -> Seq<char> {
    c.branch.remote@ + "/"@ + c.branch.remote_ref@
}

/// Fast-forwarding a branch that is checked out. Without a commit to move to
/// there is nothing to do.
pub open spec fn merge_step(
    c: BranchContext,
    a: Answers,
    i: BranchSyncInput,
    now: Seq<char>,
) -> StepView {
    if c.branch.remote_oid is None {
        StepView::Done(nothing())
    } else {
        match a.fast_forward {
            Reply::Pending => StepView::Ask(
                TaskView::FastForwardMerge {
                    worktree: c.worktree->0@,
                    upstream: c.branch.upstream_name->0@,
                },
            ),
            Reply::Got(_) => StepView::Done(
                ReportView {
                    state: Some(pulled(c, now)),
                    event: Some(event(c, i, None, "synced"@, "fast-forwarded"@)),
                    backoff: BackoffChange::Keep,
                    had_activity: true,
                },
            ),
            Reply::Failed(e) => StepView::Done(
                held(c, i, None, "error"@, Some(e@), "fast-forward failed"@),
            ),
        }
    }
}

/// Fast-forwarding a branch that is not checked out. Without a commit to move
/// to there is nothing to do.
pub open spec fn update_ref_step(
    c: BranchContext,
    a: Answers,
    i: BranchSyncInput,
    now: Seq<char>,
) -> StepView {
    if c.branch.remote_oid is None {
        StepView::Done(nothing())
    } else {
        match a.fast_forward {
            Reply::Pending => StepView::Ask(
                TaskView::UpdateRef {
                    ref_name: ref_of(c.branch.name@),
                    new_oid: c.branch.remote_oid->0@,
                    old_oid: c.branch.local_oid@,
                },
            ),
            Reply::Got(_) => StepView::Done(
                ReportView {
                    state: Some(pulled(c, now)),
                    event: Some(event(c, i, None, "synced"@, "fast-forwarded (ref update)"@)),
                    backoff: BackoffChange::Keep,
                    had_activity: true,
                },
            ),
            Reply::Failed(_) => StepView::Done(
                ReportView {
                    state: None,
                    event: Some(event(c, i, None, "error"@, "fast-forward ref update failed"@)),
                    backoff: BackoffChange::Keep,
                    had_activity: false,
                },
            ),
        }
    }
}

/// Pushing a branch that is ahead.
pub open spec fn push_step(
    c: BranchContext,
    a: Answers,
    i: BranchSyncInput,
    now: Seq<char>,
) -> StepView {
    match a.push {
        Reply::Pending => StepView::Ask(push_task(c)),
        Reply::Failed(_) => StepView::Done(
            ReportView {
                state: None,
                event: Some(event(c, i, None, "error"@, "push failed"@)),
                backoff: BackoffChange::Keep,
                had_activity: false,
            },
        ),
        Reply::Got(result) => StepView::Done(
            match result {
                PushResult::Success => ReportView {
                    state: Some(pushed(c, now)),
                    event: Some(event(c, i, None, "synced"@, "pushed"@)),
                    backoff: BackoffChange::PushSucceeded,
                    had_activity: true,
                },
                PushResult::Rejected(m) => silent(
                    c,
                    "push_rejected"@,
                    m@,
                    BackoffChange::PushFailed,
                ),
                PushResult::AuthFailed(m) => silent(
                    c,
                    "auth_failed"@,
                    m@,
                    BackoffChange::FetchFailed,
                ),
                PushResult::NetworkError(m) => silent(
                    c,
                    "network_error"@,
                    m@,
                    BackoffChange::FetchFailed,
                ),
                PushResult::HookTimeout => silent(
                    c,
                    "push_blocked_hook_timeout"@,
                    "push hook timed out"@,
                    BackoffChange::PushFailed,
                ),
            },
        ),
    }
}

/// The rewrite that was found. One that could not be looked for is none.
pub open spec fn rewrite_found(a: Answers) -> HistoryRewrite {
    match a.rewrite {
        Reply::Got(r) => r,
        _ => HistoryRewrite::NoRewrite,
    }
}

/// After a rebase without conflicts: the push.
pub open spec fn rebased_step(
    c: BranchContext,
    a: Answers,
    i: BranchSyncInput,
    now: Seq<char>,
) -> StepView {
    let rewrite = Some(HistoryRewrite::NoRewrite);
    match a.push {
        Reply::Pending => StepView::Ask(push_task(c)),
        Reply::Got(PushResult::Success) => StepView::Done(
            ReportView {
                state: Some(pushed(c, now)),
                event: Some(
                    event(
                        c,
                        i,
                        rewrite,
                        "synced"@,
                        "rebased onto "@ + rebase_target(c) + ", pushed"@,
                    ),
                ),
                backoff: BackoffChange::PushSucceeded,
                had_activity: true,
            },
        ),
        _ => StepView::Done(
            ReportView {
                state: Some(
                    at_rest(
                        c,
                        "diverged_yours"@,
                        Some("rebased but push failed — will retry"@),
                    ),
                ),
                event: Some(
                    event(
                        c,
                        i,
                        rewrite,
                        "diverged_yours"@,
                        "rebased onto "@ + rebase_target(c) + ", push failed"@,
                    ),
                ),
                backoff: BackoffChange::PushFailed,
                had_activity: false,
            },
        ),
    }
}

/// What is said of an agent that did not resolve everything.
pub open spec fn agent_message(output: Seq<char>) -> Seq<char> {
    if output.len() == 0 {
        "resolve agent could not fully resolve conflicts — finish manually or run `gitsitter auto-resolve`"@
    } else {
        "resolve agent partial: "@ + last_lines(output, 3)
    }
}

/// The status of a branch whose conflicts are not resolved. They are left in the
/// worktree of the branch, and go with a worktree that was made for it.
pub open spec fn unresolved_status(c: BranchContext) -> Seq<char> {
    if c.worktree is Some {
        "merge_conflict"@
    } else {
        "diverged_yours"@
    }
}

/// After a rebase with conflicts at `path`, with an agent to resolve them.
pub open spec fn agent_step(
    c: BranchContext,
    a: Answers,
    path: Seq<char>,
    now: Seq<char>,
) -> StepView {
    match a.agent {
        Reply::Pending => StepView::Ask(
            TaskView::RunAgent { path, agent: c.agent@, agent_path: view_opt(c.agent_path) },
        ),
        Reply::Failed(e) => StepView::Done(
            silent(
                c,
                unresolved_status(c),
                "resolve agent error: "@ + e@,
                BackoffChange::Keep,
            ),
        ),
        Reply::Got(result) => if !result.completed {
            StepView::Done(
                silent(
                    c,
                    unresolved_status(c),
                    agent_message(result.agent_output@),
                    BackoffChange::Keep,
                ),
            )
        } else {
            match a.push {
                Reply::Pending => StepView::Ask(push_task(c)),
                Reply::Got(PushResult::Success) => StepView::Done(
                    ReportView {
                        state: Some(pushed(c, now)),
                        event: None,
                        backoff: BackoffChange::PushSucceeded,
                        had_activity: true,
                    },
                ),
                _ => StepView::Done(
                    silent(
                        c,
                        "diverged_yours"@,
                        "resolved but push failed — will retry"@,
                        BackoffChange::PushFailed,
                    ),
                ),
            }
        },
    }
}

/// A rebase with conflicts that was undone.
pub open spec fn reverted(c: BranchContext, i: BranchSyncInput) -> ReportView {
    held(
        c,
        i,
        Some(HistoryRewrite::NoRewrite),
        "diverged_yours"@,
        Some("diverged — rebase has conflicts, resolve manually"@),
        "rebase conflicts, reverted"@,
    )
}

/// After a rebase with conflicts at `path`: the conflict policy. A worktree that
/// was made for the branch is removed in the end, so nothing is left in it and
/// nothing has to be undone there.
pub open spec fn conflict_step(
    c: BranchContext,
    a: Answers,
    i: BranchSyncInput,
    path: Seq<char>,
    now: Seq<char>,
) -> StepView {
    match c.conflict_action {
        EffectiveConflictAction::Revert => if c.worktree is Some && a.abort is Pending {
            StepView::Ask(TaskView::AbortRebase { path })
        } else {
            StepView::Done(reverted(c, i))
        },
        EffectiveConflictAction::Leave => if c.worktree is Some {
            StepView::Done(
                held(
                    c,
                    i,
                    Some(HistoryRewrite::NoRewrite),
                    "merge_conflict"@,
                    Some("rebase conflicts — resolve manually or run `gitsitter auto-resolve`"@),
                    "rebase conflicts, left in place"@,
                ),
            )
        } else {
            StepView::Done(reverted(c, i))
        },
        EffectiveConflictAction::ResolveAgent => agent_step(c, a, path, now),
    }
}

/// The worktree where the branch is rebased: the one where it is checked out, or
/// else the one that was made for it.
pub open spec fn own_place(c: BranchContext, a: Answers) -> Option<Seq<char>> {
    match c.worktree {
        Some(w) => Some(w@),
        None => match a.aside {
            Reply::Got(p) => Some(p@),
            _ => None,
        },
    }
}

/// Rebasing the branch in a worktree of its own, and pushing it.
pub open spec fn place_step(
    c: BranchContext,
    a: Answers,
    i: BranchSyncInput,
    now: Seq<char>,
) -> StepView {
    match own_place(c, a) {
        Some(path) => if a.rebase is Pending {
            StepView::Ask(
                TaskView::Rebase {
                    path,
                    branch: c.branch.name@,
                    upstream_ref: rebase_target(c),
                },
            )
        } else if answer_or(a.rebase, false) {
            rebased_step(c, a, i, now)
        } else {
            conflict_step(c, a, i, path, now)
        },
        None => match a.aside {
            Reply::Failed(e) => StepView::Done(
                held(
                    c,
                    i,
                    Some(HistoryRewrite::NoRewrite),
                    "diverged_yours"@,
                    Some("diverged — no worktree to rebase in: "@ + e@),
                    "no worktree to rebase in"@,
                ),
            ),
            _ => StepView::Ask(TaskView::AddWorktree { branch: c.branch.name@ }),
        },
    }
}

/// Rebasing and pushing a branch that diverged. A branch whose local history
/// was rewritten on purpose is left alone.
pub open spec fn rebase_step(
    c: BranchContext,
    a: Answers,
    i: BranchSyncInput,
    now: Seq<char>,
) -> StepView {
    if a.rewrite is Pending {
        StepView::Ask(TaskView::DetectRewrite)
    } else {
        match rewrite_found(a) {
            HistoryRewrite::RemoteUnchanged => StepView::Done(
                held(
                    c,
                    i,
                    Some(HistoryRewrite::RemoteUnchanged),
                    "history_rewritten_remote_unchanged"@,
                    Some("local history rewritten — push --force-with-lease when ready"@),
                    "history rewrite detected, remote unchanged — holding"@,
                ),
            ),
            HistoryRewrite::RemoteAdvanced => StepView::Done(
                held(
                    c,
                    i,
                    Some(HistoryRewrite::RemoteAdvanced),
                    "history_rewritten_remote_advanced"@,
                    Some(
                        "local history rewritten and remote advanced — force-push would discard remote commits; consider backing up and resetting to remote"@,
                    ),
                    "history rewrite detected, remote advanced — holding"@,
                ),
            ),
            HistoryRewrite::NoRewrite => place_step(c, a, i, now),
        }
    }
}

/// A step, but that the worktree that was made for the branch is removed before
/// anything is reported.
pub open spec fn tidied(c: BranchContext, a: Answers, step: StepView) -> StepView {
    if step is Done && c.worktree is None && a.aside is Got && a.removal is Pending {
        StepView::Ask(TaskView::RemoveWorktree { path: a.aside->Got_0@ })
    } else {
        step
    }
}

/// What to do about a branch once it has been observed.
pub open spec fn act_step(
    c: BranchContext,
    a: Answers,
    i: BranchSyncInput,
    now: Seq<char>,
) -> StepView {
    match action_for(i) {
        SyncAction::UpstreamGone => StepView::Done(
            ReportView {
                state: Some(
                    BranchRuntimeView {
                        remote_oid: None,
                        ..at_rest(c, "upstream_gone"@, Some("upstream ref deleted"@))
                    },
                ),
                event: Some(event(c, i, None, "upstream_gone"@, "upstream ref deleted"@)),
                backoff: BackoffChange::Keep,
                had_activity: false,
            },
        ),
        SyncAction::UpToDate => StepView::Done(
            held(c, i, None, "synced"@, None, "up to date"@),
        ),
        SyncAction::SkipDirty | SyncAction::SkipRebaseDirty => StepView::Done(
            held(
                c,
                i,
                None,
                "pending_dirty"@,
                Some("dirty worktree — commit or stash to sync"@),
                "skipped — worktree dirty"@,
            ),
        ),
        SyncAction::FastForwardMerge => merge_step(c, a, i, now),
        SyncAction::FastForwardRef => update_ref_step(c, a, i, now),
        SyncAction::LocalAheadNotOwned => StepView::Done(
            held(
                c,
                i,
                None,
                "local_ahead"@,
                Some(
                    if c.may_contact {
                        "local commits on non-owned branch — push manually or create a new branch"@
                    } else {
                        "local commits, and a remote that is disabled or not trusted"@
                    },
                ),
                if c.may_contact {
                    "local ahead, not owned — skipped"@
                } else {
                    "local ahead, remote not contacted — skipped"@
                },
            ),
        ),
        SyncAction::SkipPushBackoff => StepView::Done(nothing()),
        SyncAction::Push => push_step(c, a, i, now),
        SyncAction::DivergedNotOwned => StepView::Done(
            held(
                c,
                i,
                None,
                "diverged"@,
                Some(
                    if c.may_contact {
                        "diverged (last remote commit by someone else)"@
                    } else {
                        "diverged, and a remote that is disabled or not trusted"@
                    },
                ),
                if c.may_contact {
                    "diverged, not owned — flagged"@
                } else {
                    "diverged, remote not contacted — flagged"@
                },
            ),
        ),
        SyncAction::RebaseThenPush => tidied(c, a, rebase_step(c, a, i, now)),
    }
}

/// What to do next about a branch. A branch without an upstream is left out,
/// and so is one that cannot be compared with its upstream.
pub open spec fn step_for(c: BranchContext, a: Answers, now: Seq<char>) -> StepView {
    if c.branch.upstream_name is None {
        StepView::Done(nothing())
    } else {
        match a.analysis {
            Reply::Pending => StepView::Ask(TaskView::Analyze),
            Reply::Failed(_) => StepView::Done(nothing()),
            Reply::Got(analysis) => match open_question(c, a, analysis) {
                Some(task) => StepView::Ask(task),
                None => act_step(c, a, observed(c, a, analysis), now),
            },
        }
    }
}

// ---------------------------------------------------------------------------
// The steps, carried out
// ---------------------------------------------------------------------------

fn nothing_to_record() -> (r: Report)
    ensures
        is_report(r, nothing()),
{
    Report { state: None, event: None, backoff: BackoffChange::Keep, had_activity: false }
}

fn branch_event(
    c: &BranchContext,
    i: &BranchSyncInput,
    rewrite: Option<HistoryRewrite>,
    status: &str,
    detail: &str,
) -> (r: SyncEvent)
    ensures
        is_branch_event(r, event(*c, *i, rewrite, status@, detail@)),
{
    SyncEvent::Branch {
        branch: String::from_str(c.branch.name.as_str()),
        analysis: String::from_str(i.merge_analysis.label()),
        sync_action: String::from_str(decide_branch_action(i).label()),
        rewrite: match rewrite {
            Some(r) => Some(String::from_str(r.label())),
            None => None,
        },
        status: String::from_str(status),
        detail: String::from_str(detail),
    }
}

fn resting_state(c: &BranchContext, status: &str, message: Option<&str>) -> (r: BranchRuntimeState)
    ensures
        r@ == at_rest(
            *c,
            status@,
            match message {
                Some(m) => Some(m@),
                None => None,
            },
        ),
{
    BranchRuntimeState {
        sync_status: String::from_str(status),
        last_pull_at: None,
        last_push_at: None,
        local_oid: Some(String::from_str(c.branch.local_oid.as_str())),
        remote_oid: clone_opt(&c.branch.remote_oid),
        error_message: match message {
            Some(m) => Some(String::from_str(m)),
            None => None,
        },
    }
}

fn pulled_state(c: &BranchContext, now: &str) -> (r: BranchRuntimeState)
    ensures
        r@ == pulled(*c, now@),
{
    BranchRuntimeState {
        sync_status: String::from_str("synced"),
        last_pull_at: Some(String::from_str(now)),
        last_push_at: None,
        local_oid: clone_opt(&c.branch.remote_oid),
        remote_oid: clone_opt(&c.branch.remote_oid),
        error_message: None,
    }
}

fn pushed_state(c: &BranchContext, now: &str) -> (r: BranchRuntimeState)
    ensures
        r@ == pushed(*c, now@),
{
    BranchRuntimeState {
        sync_status: String::from_str("synced"),
        last_pull_at: None,
        last_push_at: Some(String::from_str(now)),
        local_oid: Some(String::from_str(c.branch.local_oid.as_str())),
        remote_oid: Some(String::from_str(c.branch.local_oid.as_str())),
        error_message: None,
    }
}

fn hold(
    c: &BranchContext,
    i: &BranchSyncInput,
    rewrite: Option<HistoryRewrite>,
    status: &str,
    message: Option<&str>,
    detail: &str,
) -> (r: Step)
    ensures
        is_step(
            r,
            StepView::Done(
                held(
                    *c,
                    *i,
                    rewrite,
                    status@,
                    match message {
                        Some(m) => Some(m@),
                        None => None,
                    },
                    detail@,
                ),
            ),
        ),
{
    Step::Done(
        Report {
            state: Some(resting_state(c, status, message)),
            event: Some(branch_event(c, i, rewrite, status, detail)),
            backoff: BackoffChange::Keep,
            had_activity: false,
        },
    )
}

fn record_silently(c: &BranchContext, status: &str, message: &str, backoff: BackoffChange) -> (r:
    Step)
    ensures
        is_step(r, StepView::Done(silent(*c, status@, message@, backoff))),
{
    Step::Done(
        Report {
            state: Some(resting_state(c, status, Some(message))),
            event: None,
            backoff,
            had_activity: false,
        },
    )
}

fn ask_push(c: &BranchContext) -> (r: Step)
    ensures
        is_step(r, StepView::Ask(push_task(*c))),
{
    Step::Ask(
        Task::Push {
            path: String::from_str(c.work_path.as_str()),
            remote: String::from_str(c.branch.remote.as_str()),
            branch: String::from_str(c.branch.name.as_str()),
            remote_ref: String::from_str(c.branch.remote_ref.as_str()),
        },
    )
}

fn target_of_rebase(c: &BranchContext) -> (r: String)
    ensures
        r@ == rebase_target(*c),
{
    let mut out = String::from_str(c.branch.remote.as_str());
    out.append("/");
    out.append(c.branch.remote_ref.as_str());
    out
}

fn fast_forward_merge(c: &BranchContext, a: &Answers, i: &BranchSyncInput, now: &str) -> (r: Step)
    requires
        c.branch.upstream_name is Some,
        c.worktree is Some,
    ensures
        is_step(r, merge_step(*c, *a, *i, now@)),
{
    if c.branch.remote_oid.is_none() {
        return Step::Done(nothing_to_record());
    }
    match &a.fast_forward {
        Reply::Pending => {
            let worktree = match &c.worktree {
                Some(w) => String::from_str(w.as_str()),
                None => String::new(),
            };
            let upstream = match &c.branch.upstream_name {
                Some(u) => String::from_str(u.as_str()),
                None => String::new(),
            };
            Step::Ask(Task::FastForwardMerge { worktree, upstream })
        },
        Reply::Got(_) => Step::Done(
            Report {
                state: Some(pulled_state(c, now)),
                event: Some(branch_event(c, i, None, "synced", "fast-forwarded")),
                backoff: BackoffChange::Keep,
                had_activity: true,
            },
        ),
        Reply::Failed(e) => hold(c, i, None, "error", Some(e.as_str()), "fast-forward failed"),
    }
}

fn fast_forward_ref(c: &BranchContext, a: &Answers, i: &BranchSyncInput, now: &str) -> (r: Step)
    ensures
        is_step(r, update_ref_step(*c, *a, *i, now@)),
{
    let remote_oid = match &c.branch.remote_oid {
        Some(oid) => oid,
        None => {
            return Step::Done(nothing_to_record());
        },
    };
    match &a.fast_forward {
        Reply::Pending => Step::Ask(
            Task::UpdateRef {
                ref_name: cat("refs/heads/", c.branch.name.as_str()),
                new_oid: String::from_str(remote_oid.as_str()),
                old_oid: String::from_str(c.branch.local_oid.as_str()),
            },
        ),
        Reply::Got(_) => Step::Done(
            Report {
                state: Some(pulled_state(c, now)),
                event: Some(branch_event(c, i, None, "synced", "fast-forwarded (ref update)")),
                backoff: BackoffChange::Keep,
                had_activity: true,
            },
        ),
        Reply::Failed(_) => Step::Done(
            Report {
                state: None,
                event: Some(branch_event(c, i, None, "error", "fast-forward ref update failed")),
                backoff: BackoffChange::Keep,
                had_activity: false,
            },
        ),
    }
}

fn push_ahead(c: &BranchContext, a: &Answers, i: &BranchSyncInput, now: &str) -> (r: Step)
    ensures
        is_step(r, push_step(*c, *a, *i, now@)),
{
    match &a.push {
        Reply::Pending => ask_push(c),
        Reply::Failed(_) => Step::Done(
            Report {
                state: None,
                event: Some(branch_event(c, i, None, "error", "push failed")),
                backoff: BackoffChange::Keep,
                had_activity: false,
            },
        ),
        Reply::Got(result) => match result {
            PushResult::Success => Step::Done(
                Report {
                    state: Some(pushed_state(c, now)),
                    event: Some(branch_event(c, i, None, "synced", "pushed")),
                    backoff: BackoffChange::PushSucceeded,
                    had_activity: true,
                },
            ),
            PushResult::Rejected(m) => record_silently(
                c,
                "push_rejected",
                m.as_str(),
                BackoffChange::PushFailed,
            ),
            PushResult::AuthFailed(m) => record_silently(
                c,
                "auth_failed",
                m.as_str(),
                BackoffChange::FetchFailed,
            ),
            PushResult::NetworkError(m) => record_silently(
                c,
                "network_error",
                m.as_str(),
                BackoffChange::FetchFailed,
            ),
            PushResult::HookTimeout => record_silently(
                c,
                "push_blocked_hook_timeout",
                "push hook timed out",
                BackoffChange::PushFailed,
            ),
        },
    }
}

fn push_rebased(c: &BranchContext, a: &Answers, i: &BranchSyncInput, now: &str) -> (r: Step)
    ensures
        is_step(r, rebased_step(*c, *a, *i, now@)),
{
    let target = target_of_rebase(c);
    let rewrite = Some(HistoryRewrite::NoRewrite);
    match &a.push {
        Reply::Pending => ask_push(c),
        Reply::Got(PushResult::Success) => {
            let mut detail = String::from_str("rebased onto ");
            detail.append(target.as_str());
            detail.append(", pushed");
            Step::Done(
                Report {
                    state: Some(pushed_state(c, now)),
                    event: Some(branch_event(c, i, rewrite, "synced", detail.as_str())),
                    backoff: BackoffChange::PushSucceeded,
                    had_activity: true,
                },
            )
        },
        _ => {
            let mut detail = String::from_str("rebased onto ");
            detail.append(target.as_str());
            detail.append(", push failed");
            Step::Done(
                Report {
                    state: Some(
                        resting_state(
                            c,
                            "diverged_yours",
                            Some("rebased but push failed — will retry"),
                        ),
                    ),
                    event: Some(branch_event(c, i, rewrite, "diverged_yours", detail.as_str())),
                    backoff: BackoffChange::PushFailed,
                    had_activity: false,
                },
            )
        },
    }
}

fn partial_agent_message(output: &str) -> (r: String)
    ensures
        r@ == agent_message(output@),
{
    if output.is_empty() {
        String::from_str(
            "resolve agent could not fully resolve conflicts — finish manually or run `gitsitter auto-resolve`",
        )
    } else {
        cat("resolve agent partial: ", tail_lines(output, 3).as_str())
    }
}

fn resolve_by_agent(c: &BranchContext, a: &Answers, path: &str, now: &str) -> (r: Step)
    ensures
        is_step(r, agent_step(*c, *a, path@, now@)),
{
    let unresolved = if c.worktree.is_some() {
        "merge_conflict"
    } else {
        "diverged_yours"
    };
    match &a.agent {
        Reply::Pending => Step::Ask(
            Task::RunAgent {
                path: String::from_str(path),
                agent: String::from_str(c.agent.as_str()),
                agent_path: clone_opt(&c.agent_path),
            },
        ),
        Reply::Failed(e) => {
            let message = cat("resolve agent error: ", e.as_str());
            record_silently(c, unresolved, message.as_str(), BackoffChange::Keep)
        },
        Reply::Got(result) => {
            if !result.completed {
                let message = partial_agent_message(result.agent_output.as_str());
                return record_silently(c, unresolved, message.as_str(), BackoffChange::Keep);
            }
            match &a.push {
                Reply::Pending => ask_push(c),
                Reply::Got(PushResult::Success) => Step::Done(
                    Report {
                        state: Some(pushed_state(c, now)),
                        event: None,
                        backoff: BackoffChange::PushSucceeded,
                        had_activity: true,
                    },
                ),
                _ => record_silently(
                    c,
                    "diverged_yours",
                    "resolved but push failed — will retry",
                    BackoffChange::PushFailed,
                ),
            }
        },
    }
}

fn report_reverted(c: &BranchContext, i: &BranchSyncInput) -> (r: Step)
    ensures
        is_step(r, StepView::Done(reverted(*c, *i))),
{
    hold(
        c,
        i,
        Some(HistoryRewrite::NoRewrite),
        "diverged_yours",
        Some("diverged — rebase has conflicts, resolve manually"),
        "rebase conflicts, reverted",
    )
}

fn apply_conflict_policy(
    c: &BranchContext,
    a: &Answers,
    i: &BranchSyncInput,
    path: &str,
    now: &str,
) -> (r: Step)
    ensures
        is_step(r, conflict_step(*c, *a, *i, path@, now@)),
{
    match c.conflict_action {
        EffectiveConflictAction::Revert => {
            if c.worktree.is_some() && matches!(a.abort, Reply::Pending) {
                return Step::Ask(Task::AbortRebase { path: String::from_str(path) });
            }
            report_reverted(c, i)
        },
        EffectiveConflictAction::Leave => {
            if c.worktree.is_none() {
                return report_reverted(c, i);
            }
            hold(
                c,
                i,
                Some(HistoryRewrite::NoRewrite),
                "merge_conflict",
                Some("rebase conflicts — resolve manually or run `gitsitter auto-resolve`"),
                "rebase conflicts, left in place",
            )
        },
        EffectiveConflictAction::ResolveAgent => resolve_by_agent(c, a, path, now),
    }
}

fn rebase_in_place(c: &BranchContext, a: &Answers, i: &BranchSyncInput, now: &str) -> (r: Step)
    ensures
        is_step(r, place_step(*c, *a, *i, now@)),
{
    let path = match &c.worktree {
        Some(w) => w.as_str(),
        None => match &a.aside {
            Reply::Got(p) => p.as_str(),
            Reply::Failed(e) => {
                let message = cat("diverged — no worktree to rebase in: ", e.as_str());
                return hold(
                    c,
                    i,
                    Some(HistoryRewrite::NoRewrite),
                    "diverged_yours",
                    Some(message.as_str()),
                    "no worktree to rebase in",
                );
            },
            Reply::Pending => {
                return Step::Ask(
                    Task::AddWorktree { branch: String::from_str(c.branch.name.as_str()) },
                );
            },
        },
    };
    if matches!(a.rebase, Reply::Pending) {
        return Step::Ask(
            Task::Rebase {
                path: String::from_str(path),
                branch: String::from_str(c.branch.name.as_str()),
                upstream_ref: target_of_rebase(c),
            },
        );
    }
    if reply_or(&a.rebase, false) {
        push_rebased(c, a, i, now)
    } else {
        apply_conflict_policy(c, a, i, path, now)
    }
}

fn rebase_then_push(c: &BranchContext, a: &Answers, i: &BranchSyncInput, now: &str) -> (r: Step)
    ensures
        is_step(r, rebase_step(*c, *a, *i, now@)),
{
    let rewrite = match a.rewrite {
        Reply::Pending => {
            return Step::Ask(Task::DetectRewrite);
        },
        Reply::Failed(_) => HistoryRewrite::NoRewrite,
        Reply::Got(r) => r,
    };
    match rewrite {
        HistoryRewrite::RemoteUnchanged => hold(
            c,
            i,
            Some(HistoryRewrite::RemoteUnchanged),
            "history_rewritten_remote_unchanged",
            Some("local history rewritten — push --force-with-lease when ready"),
            "history rewrite detected, remote unchanged — holding",
        ),
        HistoryRewrite::RemoteAdvanced => hold(
            c,
            i,
            Some(HistoryRewrite::RemoteAdvanced),
            "history_rewritten_remote_advanced",
            Some(
                "local history rewritten and remote advanced — force-push would discard remote commits; consider backing up and resetting to remote",
            ),
            "history rewrite detected, remote advanced — holding",
        ),
        HistoryRewrite::NoRewrite => rebase_in_place(c, a, i, now),
    }
}

fn tidy(c: &BranchContext, a: &Answers, step: Step, Ghost(v): Ghost<StepView>) -> (r: Step)
    requires
        is_step(step, v),
    ensures
        is_step(r, tidied(*c, *a, v)),
{
    if let Reply::Got(path) = &a.aside {
        if matches!(step, Step::Done(_)) && c.worktree.is_none() && matches!(
            a.removal,
            Reply::Pending
        ) {
            return Step::Ask(Task::RemoveWorktree { path: String::from_str(path.as_str()) });
        }
    }
    step
}

fn act(c: &BranchContext, a: &Answers, i: &BranchSyncInput, now: &str) -> (r: Step)
    requires
        c.branch.upstream_name is Some,
        i.is_checked_out == c.worktree is Some,
    ensures
        is_step(r, act_step(*c, *a, *i, now@)),
{
    match decide_branch_action(i) {
        SyncAction::UpstreamGone => {
            let mut state = resting_state(c, "upstream_gone", Some("upstream ref deleted"));
            state.remote_oid = None;
            Step::Done(
                Report {
                    state: Some(state),
                    event: Some(branch_event(c, i, None, "upstream_gone", "upstream ref deleted")),
                    backoff: BackoffChange::Keep,
                    had_activity: false,
                },
            )
        },
        SyncAction::UpToDate => hold(c, i, None, "synced", None, "up to date"),
        SyncAction::SkipDirty | SyncAction::SkipRebaseDirty => hold(
            c,
            i,
            None,
            "pending_dirty",
            Some("dirty worktree — commit or stash to sync"),
            "skipped — worktree dirty",
        ),
        SyncAction::FastForwardMerge => fast_forward_merge(c, a, i, now),
        SyncAction::FastForwardRef => fast_forward_ref(c, a, i, now),
        SyncAction::LocalAheadNotOwned => hold(
            c,
            i,
            None,
            "local_ahead",
            Some(
                if c.may_contact {
                    "local commits on non-owned branch — push manually or create a new branch"
                } else {
                    "local commits, and a remote that is disabled or not trusted"
                },
            ),
            if c.may_contact {
                "local ahead, not owned — skipped"
            } else {
                "local ahead, remote not contacted — skipped"
            },
        ),
        SyncAction::SkipPushBackoff => Step::Done(nothing_to_record()),
        SyncAction::Push => push_ahead(c, a, i, now),
        SyncAction::DivergedNotOwned => hold(
            c,
            i,
            None,
            "diverged",
            Some(
                if c.may_contact {
                    "diverged (last remote commit by someone else)"
                } else {
                    "diverged, and a remote that is disabled or not trusted"
                },
            ),
            if c.may_contact {
                "diverged, not owned — flagged"
            } else {
                "diverged, remote not contacted — flagged"
            },
        ),
        SyncAction::RebaseThenPush => {
            let step = rebase_then_push(c, a, i, now);
            tidy(c, a, step, Ghost(rebase_step(*c, *a, *i, now@)))
        },
    }
}

/// What to do next about a branch. `now` is the time of day as text.
pub fn next_step(c: &BranchContext, a: &Answers, now: &str) -> (r: Step)
    ensures
        is_step(r, step_for(*c, *a, now@)),
{
    if c.branch.upstream_name.is_none() {
        return Step::Done(nothing_to_record());
    }
    match a.analysis {
        Reply::Pending => Step::Ask(Task::Analyze),
        Reply::Failed(_) => Step::Done(nothing_to_record()),
        Reply::Got(analysis) => match ask_open_question(c, a, analysis) {
            Some(task) => Step::Ask(task),
            None => {
                let input = observe(c, a, analysis);
                act(c, a, &input, now)
            },
        },
    }
}

// ---------------------------------------------------------------------------
// What holds of every sync
// ---------------------------------------------------------------------------

/// Whether the answer to a task is still open.
pub open spec fn is_open(a: Answers, task: TaskView) -> bool {
    match task {
        TaskView::Analyze => a.analysis is Pending,
        TaskView::CheckDirty { .. } => a.dirty is Pending,
        TaskView::CheckOwner => a.owner is Pending,
        TaskView::CheckMergeOfRemote => a.merge_of_remote is Pending,
        TaskView::FastForwardMerge { .. } => a.fast_forward is Pending,
        TaskView::UpdateRef { .. } => a.fast_forward is Pending,
        TaskView::Push { .. } => a.push is Pending,
        TaskView::DetectRewrite => a.rewrite is Pending,
        TaskView::AddWorktree { .. } => a.aside is Pending,
        TaskView::Rebase { .. } => a.rebase is Pending,
        TaskView::AbortRebase { .. } => a.abort is Pending,
        TaskView::RunAgent { .. } => a.agent is Pending,
        TaskView::RemoveWorktree { .. } => a.removal is Pending,
    }
}

/// No question is asked twice, and nothing is done twice: a task is asked for
/// only while its answer is open. So the sync of a branch comes to an end.
pub proof fn law_no_task_is_repeated(c: BranchContext, a: Answers, now: Seq<char>)
    ensures
        step_for(c, a, now) matches StepView::Ask(task) ==> is_open(a, task),
{
}

/// Whether a task writes to the remote.
pub open spec fn writes_remote(task: TaskView) -> bool {
    task is Push
}

/// Whether a task rewrites the commits of the branch.
pub open spec fn rewrites_branch(task: TaskView) -> bool {
    task is Rebase || task is RunAgent
}

/// Whether a task changes the local branch or its worktree.
pub open spec fn changes_local(task: TaskView) -> bool {
    task is FastForwardMerge || task is UpdateRef || task is AbortRebase || rewrites_branch(task)
}

/// A push or a rebase of a branch is asked for only if the user was found to
/// own it, or the push if the local tip was found to merge the remote one.
pub proof fn law_write_needs_a_right(c: BranchContext, a: Answers, now: Seq<char>)
    ensures
        step_for(c, a, now) matches StepView::Ask(task) ==> {
            &&& writes_remote(task) ==> a.owner == Reply::Got(true) || a.merge_of_remote
                == Reply::Got(true)
            &&& rewrites_branch(task) ==> a.owner == Reply::Got(true)
        },
{
}

/// Nothing is pushed to a remote that is disabled or not trusted, and who owns a
/// branch there is not asked for. The context is one that `branch_context` gives.
pub proof fn law_only_allowed_remotes_are_written(
    c: BranchContext,
    a: Answers,
    now: Seq<char>,
    config: UserConfig,
    repo_id: Seq<char>,
    urls: Map<Seq<char>, String>,
)
    requires
        c.may_contact == may_fetch(config, repo_id, urls, c.branch.remote@),
    ensures
        step_for(c, a, now) matches StepView::Ask(TaskView::Push { remote, .. }) ==> may_fetch(
            config,
            repo_id,
            urls,
            remote,
        ),
        step_for(c, a, now) matches StepView::Ask(task) ==> {
            rewrites_branch(task) || task is CheckOwner ==> may_fetch(
                config,
                repo_id,
                urls,
                c.branch.remote@,
            )
        },
{
}

/// The worktree that a task changes.
pub open spec fn changed_worktree(task: TaskView) -> Option<Seq<char>> {
    match task {
        TaskView::FastForwardMerge { worktree, .. } => Some(worktree),
        TaskView::Rebase { path, .. } => Some(path),
        TaskView::AbortRebase { path } => Some(path),
        TaskView::RunAgent { path, .. } => Some(path),
        TaskView::RemoveWorktree { path } => Some(path),
        _ => None,
    }
}

/// No worktree is changed but the branch's own: the one where it is checked out,
/// if that is clean, or the one that was made for a branch that has none. Only
/// the latter is removed. A rebase names the branch, and its ref is moved only
/// where it is not checked out.
pub proof fn law_only_own_worktree_is_changed(c: BranchContext, a: Answers, now: Seq<char>)
    ensures
        step_for(c, a, now) matches StepView::Ask(task) ==> {
            &&& changed_worktree(task) matches Some(path) ==> {
                ||| c.worktree matches Some(w) && path == w@ && a.dirty == Reply::Got(false)
                    && !(task is RemoveWorktree)
                ||| c.worktree is None && (a.aside matches Reply::Got(p) && path == p@)
            }
            &&& task matches TaskView::Rebase { branch, .. } ==> branch == c.branch.name@
            &&& task matches TaskView::UpdateRef { ref_name, .. } ==> c.worktree is None
                && ref_name == ref_of(c.branch.name@)
            &&& task is AddWorktree ==> c.worktree is None
        },
{
}

/// A worktree that was made for a branch is removed before anything is reported
/// of the branch.
pub proof fn law_made_worktree_is_removed(c: BranchContext, a: Answers, now: Seq<char>)
    requires
        c.branch.upstream_name is Some,
        c.worktree is None,
        c.may_contact,
        a.analysis == Reply::Got(MergeAnalysis::Diverged),
        a.owner == Reply::Got(true),
        a.aside is Got,
        a.removal is Pending,
    ensures
        step_for(c, a, now) is Ask,
{
}

/// Nothing local is changed while the worktree of the branch is dirty, or could
/// not be looked at.
pub proof fn law_dirty_worktree_is_left_alone(c: BranchContext, a: Answers, now: Seq<char>)
    requires
        c.worktree is Some,
        a.dirty != Reply::Got(false),
    ensures
        step_for(c, a, now) matches StepView::Ask(task) ==> !changes_local(task),
{
}

/// A branch that diverged because its history was rewritten is neither rebased
/// nor pushed.
pub proof fn law_rewritten_history_is_held(c: BranchContext, a: Answers, now: Seq<char>)
    requires
        a.analysis == Reply::Got(MergeAnalysis::Diverged),
        rewrite_found(a) != HistoryRewrite::NoRewrite,
    ensures
        step_for(c, a, now) matches StepView::Ask(task) ==> !changes_local(task) && !writes_remote(
            task,
        ),
{
}

/// A branch that is in sync, lost its upstream or is ahead is not changed
/// locally; a branch that is behind is not pushed.
pub proof fn law_writes_go_one_way(
    c: BranchContext,
    a: Answers,
    now: Seq<char>,
    analysis: MergeAnalysis,
)
    requires
        a.analysis == Reply::Got(analysis),
    ensures
        step_for(c, a, now) matches StepView::Ask(task) ==> {
            &&& analysis is UpToDate || analysis is UpstreamGone ==> !changes_local(task)
                && !writes_remote(task)
            &&& analysis is LocalAhead ==> !changes_local(task)
            &&& analysis is FastForward ==> !writes_remote(task) && !rewrites_branch(task)
        },
{
}

/// A branch is reported as synced only if it was in sync to begin with, or was
/// fast-forwarded or pushed.
pub proof fn law_synced_is_earned(c: BranchContext, a: Answers, now: Seq<char>)
    requires
        step_for(c, a, now) is Done,
        step_for(c, a, now)->Done_0.state is Some,
        step_for(c, a, now)->Done_0.state->0.sync_status == "synced"@,
    ensures
        ({
            ||| a.analysis == Reply::Got(MergeAnalysis::UpToDate)
            ||| a.fast_forward is Got
            ||| a.push == Reply::Got(PushResult::Success)
        }),
{
    reveal_strlit("synced");
    reveal_strlit("upstream_gone");
    reveal_strlit("pending_dirty");
    reveal_strlit("local_ahead");
    reveal_strlit("diverged");
    reveal_strlit("error");
    reveal_strlit("push_rejected");
    reveal_strlit("auth_failed");
    reveal_strlit("network_error");
    reveal_strlit("push_blocked_hook_timeout");
    reveal_strlit("diverged_yours");
    reveal_strlit("merge_conflict");
    reveal_strlit("history_rewritten_remote_unchanged");
    reveal_strlit("history_rewritten_remote_advanced");
    assert("synced"@.len() == 6);
    assert("upstream_gone"@.len() == 13);
    assert("pending_dirty"@.len() == 13);
    assert("local_ahead"@.len() == 11);
    assert("diverged"@.len() == 8);
    assert("error"@.len() == 5);
    assert("push_rejected"@.len() == 13);
    assert("auth_failed"@.len() == 11);
    assert("network_error"@.len() == 13);
    assert("push_blocked_hook_timeout"@.len() == 25);
    assert("diverged_yours"@.len() == 14);
    assert("merge_conflict"@.len() == 14);
    assert("history_rewritten_remote_unchanged"@.len() == 34);
    assert("history_rewritten_remote_advanced"@.len() == 33);
}

/// Whether the worktree of a branch can be changed: it is clean, or there is none.
pub open spec fn is_clear(c: BranchContext, a: Answers) -> bool {
    c.worktree is Some ==> a.dirty == Reply::Got(false)
}

/// Whether a step reports the branch as synced, with both sides at one commit.
pub open spec fn reports_synced(step: StepView) -> bool {
    &&& step is Done
    &&& step->Done_0.state is Some
    &&& step->Done_0.state->0.sync_status == "synced"@
    &&& step->Done_0.state->0.local_oid == step->Done_0.state->0.remote_oid
}

/// If the remote is ahead the local branch is fast-forwarded, whether it is
/// checked out or not, and once that is done the branch is synced.
pub proof fn law_branch_behind_is_fast_forwarded(c: BranchContext, a: Answers, now: Seq<char>)
    requires
        c.branch.upstream_name is Some,
        c.branch.remote_oid is Some,
        a.analysis == Reply::Got(MergeAnalysis::FastForward),
        is_clear(c, a),
    ensures
        a.fast_forward is Pending ==> (step_for(c, a, now) matches StepView::Ask(task) && (
        if c.worktree is Some {
            task is FastForwardMerge
        } else {
            task is UpdateRef
        })),
        a.fast_forward is Got ==> reports_synced(step_for(c, a, now)),
{
}

/// If the local branch is ahead and the user owns it, it is pushed, and once
/// that is done the branch is synced.
pub proof fn law_own_branch_ahead_is_pushed(c: BranchContext, a: Answers, now: Seq<char>)
    requires
        c.branch.upstream_name is Some,
        a.analysis == Reply::Got(MergeAnalysis::LocalAhead),
        c.worktree is Some ==> !(a.dirty is Pending),
        a.owner == Reply::Got(true),
        c.may_contact,
        !c.push_backoff_active,
    ensures
        a.push is Pending ==> step_for(c, a, now) == StepView::Ask(push_task(c)),
        a.push == Reply::Got(PushResult::Success) ==> reports_synced(step_for(c, a, now)),
{
}

/// If the two sides diverged, the user owns the branch and history was not
/// rewritten, the branch is rebased onto the remote and then pushed, and once
/// that is done it is synced. A branch that is not checked out is rebased in a
/// worktree that is made for it.
pub proof fn law_own_diverged_branch_is_rebased(c: BranchContext, a: Answers, now: Seq<char>)
    requires
        c.branch.upstream_name is Some,
        a.analysis == Reply::Got(MergeAnalysis::Diverged),
        is_clear(c, a),
        a.owner == Reply::Got(true),
        c.may_contact,
        a.rewrite == Reply::Got(HistoryRewrite::NoRewrite),
    ensures
        c.worktree is None && a.aside is Pending ==> step_for(c, a, now) == StepView::Ask(
            TaskView::AddWorktree { branch: c.branch.name@ },
        ),
        own_place(c, a) matches Some(path) ==> {
            &&& a.rebase is Pending ==> step_for(c, a, now) == StepView::Ask(
                TaskView::Rebase {
                    path,
                    branch: c.branch.name@,
                    upstream_ref: rebase_target(c),
                },
            )
            &&& a.rebase == Reply::Got(true) && a.push is Pending ==> step_for(c, a, now)
                == StepView::Ask(push_task(c))
            &&& a.rebase == Reply::Got(true) && a.push == Reply::Got(PushResult::Success) && (
            c.worktree is Some || !(a.removal is Pending)) ==> reports_synced(
                step_for(c, a, now),
            )
        },
{
}

/// Activity is reported exactly with a pull or a push, and the backoff of
/// pushes is cleared exactly with a push.
pub proof fn law_activity_is_a_pull_or_a_push(c: BranchContext, a: Answers, now: Seq<char>)
    requires
        step_for(c, a, now) is Done,
    ensures
        ({
            let report = step_for(c, a, now)->Done_0;
            &&& report.had_activity <==> report.state is Some && (report.state->0.last_pull_at
                is Some || report.state->0.last_push_at is Some)
            &&& report.backoff is PushSucceeded <==> report.state is Some
                && report.state->0.last_push_at is Some
            &&& report.had_activity ==> report.state->0.local_oid
                == report.state->0.remote_oid
        }),
{
}

// ---------------------------------------------------------------------------
// What the tasks are about, and what is told in the end
// ---------------------------------------------------------------------------

/// A push takes the commits of the branch to the branch that it tracks on its
/// remote, and to no other.
pub proof fn law_push_goes_to_the_tracked_branch(
    c: BranchContext,
    a: Answers,
    now: Seq<char>,
    r: Step,
)
    requires
        is_step(r, step_for(c, a, now)),
    ensures
        r matches Step::Ask(Task::Push { path, remote, branch, remote_ref }) ==> {
            &&& path@ == c.work_path@
            &&& remote@ == c.branch.remote@
            &&& branch@ == c.branch.name@
            &&& remote_ref@ == c.branch.remote_ref@
        },
{
}

/// A rebase puts the commits of the branch onto the branch that it tracks on its
/// remote, and onto no other.
pub proof fn law_rebase_goes_onto_the_tracked_branch(
    c: BranchContext,
    a: Answers,
    now: Seq<char>,
    r: Step,
)
    requires
        is_step(r, step_for(c, a, now)),
    ensures
        r matches Step::Ask(Task::Rebase { path, branch, upstream_ref }) ==> {
            &&& branch@ == c.branch.name@
            &&& upstream_ref@ == c.branch.remote@ + "/"@ + c.branch.remote_ref@
            &&& match c.worktree {
                Some(w) => path@ == w@,
                None => a.aside matches Reply::Got(p) && path@ == p@,
            }
        },
{
}

/// Branches that track different branches of one remote are never rebased onto the
/// same ref.
pub proof fn law_rebases_are_told_apart(
    c: BranchContext,
    a: Answers,
    r: Step,
    c2: BranchContext,
    a2: Answers,
    r2: Step,
    now: Seq<char>,
)
    requires
        is_step(r, step_for(c, a, now)),
        is_step(r2, step_for(c2, a2, now)),
        c.branch.remote@ == c2.branch.remote@,
        c.branch.remote_ref@ != c2.branch.remote_ref@,
    ensures
        r matches Step::Ask(Task::Rebase { upstream_ref: x, .. }) ==> (r2 matches Step::Ask(
            Task::Rebase { upstream_ref: y, .. },
        ) ==> x@ != y@),
{
    if let Step::Ask(Task::Rebase { upstream_ref: x, .. }) = r {
        if let Step::Ask(Task::Rebase { upstream_ref: y, .. }) = r2 {
            let head = c.branch.remote@ + "/"@;
            assert(x@.skip(head.len() as int) =~= c.branch.remote_ref@);
            assert(y@.skip(head.len() as int) =~= c2.branch.remote_ref@);
        }
    }
}

/// A ref is moved from where the branch stands to where its upstream stands, and a
/// worktree is fast-forwarded to the upstream of the branch that is checked out there.
pub proof fn law_fast_forward_goes_to_the_upstream(
    c: BranchContext,
    a: Answers,
    now: Seq<char>,
    r: Step,
)
    requires
        is_step(r, step_for(c, a, now)),
    ensures
        r matches Step::Ask(Task::UpdateRef { ref_name, new_oid, old_oid }) ==> {
            &&& c.worktree is None
            &&& ref_name@ == "refs/heads/"@ + c.branch.name@
            &&& c.branch.remote_oid matches Some(o) && new_oid@ == o@
            &&& old_oid@ == c.branch.local_oid@
        },
        r matches Step::Ask(Task::FastForwardMerge { worktree, upstream }) ==> {
            &&& c.worktree matches Some(w) && worktree@ == w@
            &&& c.branch.upstream_name matches Some(u) && upstream@ == u@
            &&& c.branch.remote_oid is Some
        },
{
}

/// The commit that a ref was moved to is the one that is then told as the commit of
/// both sides.
pub proof fn law_moved_ref_is_told(
    c: BranchContext,
    a: Answers,
    now: Seq<char>,
    asked: Step,
    done: Answers,
    told: Step,
)
    requires
        is_step(asked, step_for(c, a, now)),
        done == (Answers { fast_forward: Reply::Got(()), ..a }),
        is_step(told, step_for(c, done, now)),
    ensures
        asked matches Step::Ask(Task::UpdateRef { new_oid, .. }) ==> (told matches Step::Done(p)
            && p.state matches Some(s) && {
            &&& s.local_oid matches Some(l) && l@ == new_oid@
            &&& s.remote_oid matches Some(o) && o@ == new_oid@
            &&& s.sync_status@ == "synced"@
        }),
{
}

/// The other tasks are about the branch, its worktree, the one that was made for it,
/// and the agent that is configured.
pub proof fn law_tasks_stay_with_the_branch(
    c: BranchContext,
    a: Answers,
    now: Seq<char>,
    r: Step,
)
    requires
        is_step(r, step_for(c, a, now)),
    ensures
        r matches Step::Ask(Task::CheckDirty { worktree }) ==> (c.worktree matches Some(w)
            && worktree@ == w@),
        r matches Step::Ask(Task::AddWorktree { branch }) ==> c.worktree is None && branch@
            == c.branch.name@,
        r matches Step::Ask(Task::AbortRebase { path }) ==> (c.worktree matches Some(w) && path@
            == w@),
        r matches Step::Ask(Task::RunAgent { path, agent, agent_path }) ==> {
            &&& agent@ == c.agent@
            &&& match (agent_path, c.agent_path) {
                (Some(x), Some(y)) => x@ == y@,
                (None, None) => true,
                _ => false,
            }
            &&& match c.worktree {
                Some(w) => path@ == w@,
                None => a.aside matches Reply::Got(p) && path@ == p@,
            }
        },
        r matches Step::Ask(Task::RemoveWorktree { path }) ==> c.worktree is None && (
        a.aside matches Reply::Got(p) && path@ == p@),
{
}

/// Whether all that has to be known of the worktree is known.
pub open spec fn is_looked_at(c: BranchContext, a: Answers) -> bool {
    c.worktree is None || !(a.dirty is Pending)
}

/// A branch without an upstream is left out, and so is one that cannot be compared.
/// How a branch stands to its upstream is asked first; then whether its worktree is
/// dirty; then, if there is something to push and the remote may be contacted, who
/// owns it; and last, of a branch of someone else that is ahead, whether it merges
/// the remote.
pub proof fn law_questions_come_in_order(
    c: BranchContext,
    a: Answers,
    now: Seq<char>,
    r: Step,
    x: MergeAnalysis,
)
    requires
        is_step(r, step_for(c, a, now)),
    ensures
        c.branch.upstream_name is None || a.analysis is Failed ==> (r matches Step::Done(p) ==> {
            &&& p.state is None
            &&& p.event is None
            &&& p.backoff is Keep
            &&& !p.had_activity
        }),
        c.branch.upstream_name is None ==> r is Done,
        c.branch.upstream_name is Some && a.analysis is Failed ==> r is Done,
        c.branch.upstream_name is Some && a.analysis is Pending ==> r == Step::Ask(Task::Analyze),
        c.branch.upstream_name is Some && a.analysis == Reply::Got(x) ==> {
            &&& !is_looked_at(c, a) <==> (r matches Step::Ask(t) && t is CheckDirty)
            &&& is_looked_at(c, a) && c.may_contact && (x is LocalAhead || x is Diverged)
                && a.owner is Pending <==> r == Step::Ask(Task::CheckOwner)
            &&& is_looked_at(c, a) && c.may_contact && x is LocalAhead && !(a.owner is Pending)
                && a.owner != Reply::Got(true) && a.merge_of_remote is Pending <==> r
                == Step::Ask(Task::CheckMergeOfRemote)
        },
{
}

/// A report without activity tells where the two sides stood all along, and one with
/// activity tells the one commit where both stand now, and when that came about.
pub proof fn law_reports_tell_where_the_sides_stand(
    c: BranchContext,
    a: Answers,
    now: Seq<char>,
    r: Step,
)
    requires
        is_step(r, step_for(c, a, now)),
    ensures
        r matches Step::Done(p) ==> (p.state matches Some(s) ==> {
            &&& !p.had_activity ==> {
                &&& s.last_pull_at is None
                &&& s.last_push_at is None
                &&& s.local_oid matches Some(l) && l@ == c.branch.local_oid@
                &&& a.analysis == Reply::Got(MergeAnalysis::UpstreamGone) ==> s.remote_oid is None
                &&& a.analysis != Reply::Got(MergeAnalysis::UpstreamGone) ==> match (
                    s.remote_oid,
                    c.branch.remote_oid,
                ) {
                    (Some(x), Some(y)) => x@ == y@,
                    (None, None) => true,
                    _ => false,
                }
            }
            &&& p.had_activity && a.analysis == Reply::Got(MergeAnalysis::FastForward) ==> {
                &&& s.last_pull_at matches Some(t) && t@ == now
                &&& s.last_push_at is None
                &&& s.local_oid matches Some(l) && c.branch.remote_oid matches Some(o) && l@ == o@
                &&& s.remote_oid matches Some(l) && c.branch.remote_oid matches Some(o) && l@ == o@
                &&& s.error_message is None
            }
            &&& p.had_activity && a.analysis != Reply::Got(MergeAnalysis::FastForward) ==> {
                &&& s.last_push_at matches Some(t) && t@ == now
                &&& s.last_pull_at is None
                &&& s.local_oid matches Some(l) && l@ == c.branch.local_oid@
                &&& s.remote_oid matches Some(l) && l@ == c.branch.local_oid@
                &&& s.error_message is None
            }
        }),
        r matches Step::Done(p) ==> (p.had_activity ==> p.state is Some),
{
}

/// An event is about the branch, tells how it stood to its upstream, and gives the
/// status that is kept of it.
pub proof fn law_events_are_about_the_branch(
    c: BranchContext,
    a: Answers,
    now: Seq<char>,
    r: Step,
)
    requires
        is_step(r, step_for(c, a, now)),
    ensures
        r matches Step::Done(p) ==> (p.event matches Some(e) ==> (e matches SyncEvent::Branch {
            branch,
            analysis,
            rewrite,
            status,
            ..
        } && {
            &&& branch@ == c.branch.name@
            &&& p.state matches Some(s) ==> status@ == s.sync_status@
            &&& p.state is None ==> status@ == "error"@
            &&& a.analysis == Reply::Got(MergeAnalysis::UpToDate) ==> analysis@ == "UpToDate"@
            &&& a.analysis == Reply::Got(MergeAnalysis::FastForward) ==> analysis@
                == "FastForward"@
            &&& a.analysis == Reply::Got(MergeAnalysis::LocalAhead) ==> analysis@ == "LocalAhead"@
            &&& a.analysis == Reply::Got(MergeAnalysis::Diverged) ==> analysis@ == "Diverged"@
            &&& a.analysis == Reply::Got(MergeAnalysis::UpstreamGone) ==> analysis@
                == "UpstreamGone"@
            &&& rewrite is Some <==> a.analysis == Reply::Got(MergeAnalysis::Diverged) && is_clear(
                c,
                a,
            ) && c.may_contact && a.owner == Reply::Got(true)
            &&& rewrite matches Some(w) ==> w@ == (match a.rewrite {
                Reply::Got(HistoryRewrite::RemoteUnchanged) => "RemoteUnchanged"@,
                Reply::Got(HistoryRewrite::RemoteAdvanced) => "RemoteAdvanced"@,
                _ => "None"@,
            })
        })),
{
}

/// Whether a step is a report of a branch in a status, with a message.
pub open spec fn tells(r: Step, status: Seq<char>, message: Option<Seq<char>>) -> bool {
    r matches Step::Done(p) && p.state matches Some(s) && s.sync_status@ == status && (match (
        s.error_message,
        message,
    ) {
        (Some(x), Some(y)) => x@ == y,
        (None, None) => true,
        _ => false,
    })
}

/// Whether a step is a report that neither counts as activity nor changes a backoff.
pub open spec fn is_restful(r: Step) -> bool {
    r matches Step::Done(p) && !p.had_activity && p.backoff is Keep
}

/// A branch that needs nothing, or that nothing may be done to, is told as it is: in
/// sync, without its upstream, held by a dirty worktree, or left to someone else.
pub proof fn law_held_branches_are_told(c: BranchContext, a: Answers, now: Seq<char>, r: Step)
    requires
        is_step(r, step_for(c, a, now)),
        c.branch.upstream_name is Some,
        is_looked_at(c, a),
    ensures
        a.analysis == Reply::Got(MergeAnalysis::UpToDate) ==> is_restful(r) && tells(
            r,
            "synced"@,
            None,
        ),
        a.analysis == Reply::Got(MergeAnalysis::UpstreamGone) ==> is_restful(r) && tells(
            r,
            "upstream_gone"@,
            Some("upstream ref deleted"@),
        ),
        c.worktree is Some && a.dirty != Reply::Got(false) && (a.analysis == Reply::Got(
            MergeAnalysis::FastForward,
        ) || (a.analysis == Reply::Got(MergeAnalysis::Diverged) && c.may_contact && a.owner
            == Reply::Got(true))) ==> is_restful(r) && tells(
            r,
            "pending_dirty"@,
            Some("dirty worktree — commit or stash to sync"@),
        ),
        a.analysis == Reply::Got(MergeAnalysis::Diverged) && (!c.may_contact || !(a.owner
            is Pending || a.owner == Reply::Got(true))) ==> is_restful(r) && tells(
            r,
            "diverged"@,
            Some(
                if c.may_contact {
                    "diverged (last remote commit by someone else)"@
                } else {
                    "diverged, and a remote that is disabled or not trusted"@
                },
            ),
        ),
        a.analysis == Reply::Got(MergeAnalysis::LocalAhead) && (!c.may_contact || (!(a.owner
            is Pending || a.owner == Reply::Got(true)) && !(a.merge_of_remote is Pending
            || a.merge_of_remote == Reply::Got(true)))) ==> is_restful(r) && tells(
            r,
            "local_ahead"@,
            Some(
                if c.may_contact {
                    "local commits on non-owned branch — push manually or create a new branch"@
                } else {
                    "local commits, and a remote that is disabled or not trusted"@
                },
            ),
        ),
{
}

/// A branch that is behind is fast-forwarded where its worktree is clean or it has
/// none, and a fast-forward that failed is told as an error.
pub proof fn law_branch_behind_is_moved(c: BranchContext, a: Answers, now: Seq<char>, r: Step)
    requires
        is_step(r, step_for(c, a, now)),
        c.branch.upstream_name is Some,
        a.analysis == Reply::Got(MergeAnalysis::FastForward),
        is_clear(c, a),
    ensures
        c.branch.remote_oid is None ==> (r matches Step::Done(p) && p.state is None && p.event
            is None && p.backoff is Keep && !p.had_activity),
        c.branch.remote_oid is Some && a.fast_forward is Pending ==> (r matches Step::Ask(t) && (
        if c.worktree is Some {
            t is FastForwardMerge
        } else {
            t is UpdateRef
        })),
        c.branch.remote_oid is Some && a.fast_forward is Got ==> tells(r, "synced"@, None) && (
        r matches Step::Done(p) && p.had_activity && p.backoff is Keep && p.event is Some),
        c.branch.remote_oid is Some && a.fast_forward is Failed ==> is_restful(r) && (
        r matches Step::Done(p) && p.event is Some && (p.state is None <==> c.worktree is None)),
        c.branch.remote_oid is Some && c.worktree is Some ==> (a.fast_forward matches Reply::Failed(
            e,
        ) ==> tells(r, "error"@, Some(e@))),
{
}

/// A branch that is ahead, and that the user may write to, is pushed unless its pushes
/// are held back. What the remote answered is told, and a failure holds back what
/// failed: the ref where it was refused, the remote where it could not be used.
pub proof fn law_branch_ahead_is_pushed(c: BranchContext, a: Answers, now: Seq<char>, r: Step)
    requires
        is_step(r, step_for(c, a, now)),
        c.branch.upstream_name is Some,
        a.analysis == Reply::Got(MergeAnalysis::LocalAhead),
        is_looked_at(c, a),
        c.may_contact,
        a.owner == Reply::Got(true) || (!(a.owner is Pending) && a.merge_of_remote == Reply::Got(
            true,
        )),
    ensures
        c.push_backoff_active ==> (r matches Step::Done(p) && p.state is None && p.event is None
            && p.backoff is Keep && !p.had_activity),
        !c.push_backoff_active ==> {
            &&& a.push is Pending ==> (r matches Step::Ask(t) && t is Push)
            &&& a.push is Failed ==> is_restful(r) && (r matches Step::Done(p) && p.state is None
                && p.event is Some)
            &&& a.push == Reply::Got(PushResult::Success) ==> tells(r, "synced"@, None) && (
            r matches Step::Done(p) && p.had_activity && p.backoff is PushSucceeded && p.event
                is Some)
            &&& a.push matches Reply::Got(PushResult::Rejected(m)) ==> tells(
                r,
                "push_rejected"@,
                Some(m@),
            ) && (r matches Step::Done(p) && !p.had_activity && p.backoff is PushFailed)
            &&& a.push matches Reply::Got(PushResult::AuthFailed(m)) ==> tells(
                r,
                "auth_failed"@,
                Some(m@),
            ) && (r matches Step::Done(p) && !p.had_activity && p.backoff is FetchFailed)
            &&& a.push matches Reply::Got(PushResult::NetworkError(m)) ==> tells(
                r,
                "network_error"@,
                Some(m@),
            ) && (r matches Step::Done(p) && !p.had_activity && p.backoff is FetchFailed)
            &&& a.push == Reply::Got(PushResult::HookTimeout) ==> tells(
                r,
                "push_blocked_hook_timeout"@,
                Some("push hook timed out"@),
            ) && (r matches Step::Done(p) && !p.had_activity && p.backoff is PushFailed)
        },
{
}

/// Whether the user's own branch diverged and may be changed.
pub open spec fn is_own_divergence(c: BranchContext, a: Answers) -> bool {
    &&& c.branch.upstream_name is Some
    &&& a.analysis == Reply::Got(MergeAnalysis::Diverged)
    &&& is_clear(c, a)
    &&& c.may_contact
    &&& a.owner == Reply::Got(true)
}

/// A branch of the user that diverged is looked at for rewritten history. One that
/// was rewritten is held and told as such; any other gets a worktree of its own if it
/// has none, and is rebased there.
pub proof fn law_own_divergence_is_rebased(c: BranchContext, a: Answers, now: Seq<char>, r: Step)
    requires
        is_step(r, step_for(c, a, now)),
        is_own_divergence(c, a),
        a.aside is Pending || c.worktree is Some || !(a.removal is Pending),
    ensures
        a.rewrite is Pending ==> r == Step::Ask(Task::DetectRewrite),
        a.rewrite == Reply::Got(HistoryRewrite::RemoteUnchanged) ==> is_restful(r) && tells(
            r,
            "history_rewritten_remote_unchanged"@,
            Some("local history rewritten — push --force-with-lease when ready"@),
        ),
        a.rewrite == Reply::Got(HistoryRewrite::RemoteAdvanced) ==> is_restful(r) && tells(
            r,
            "history_rewritten_remote_advanced"@,
            Some(
                "local history rewritten and remote advanced — force-push would discard remote commits; consider backing up and resetting to remote"@,
            ),
        ),
        a.rewrite is Failed || a.rewrite == Reply::Got(HistoryRewrite::NoRewrite) ==> {
            &&& c.worktree is None && a.aside is Pending ==> (r matches Step::Ask(t) && t
                is AddWorktree)
            &&& c.worktree is None ==> (a.aside matches Reply::Failed(e) ==> is_restful(r)
                && tells(
                r,
                "diverged_yours"@,
                Some("diverged — no worktree to rebase in: "@ + e@),
            ))
            &&& (c.worktree is Some || a.aside is Got) && a.rebase is Pending ==> (
            r matches Step::Ask(t) && t is Rebase)
        },
{
}

/// Whether the rebase of the user's own branch was tried, and what came of it stands
/// in a worktree that is still there or already removed.
pub open spec fn was_rebased(c: BranchContext, a: Answers, ok: bool) -> bool {
    &&& is_own_divergence(c, a)
    &&& a.rewrite is Failed || a.rewrite == Reply::Got(HistoryRewrite::NoRewrite)
    &&& c.worktree is Some || a.aside is Got
    &&& !(a.rebase is Pending)
    &&& (a.rebase == Reply::Got(true)) == ok
}

/// A branch that was rebased is pushed. It is told as synced only if the push went
/// through, and a push that did not is tried again later. Before anything is told, the
/// worktree that was made for the branch is removed.
pub proof fn law_rebased_branch_is_pushed(c: BranchContext, a: Answers, now: Seq<char>, r: Step)
    requires
        is_step(r, step_for(c, a, now)),
        was_rebased(c, a, true),
    ensures
        a.push is Pending ==> (r matches Step::Ask(t) && t is Push),
        !(a.push is Pending) && c.worktree is None && a.removal is Pending ==> (
        r matches Step::Ask(t) && t is RemoveWorktree),
        !(a.push is Pending) && (c.worktree is Some || !(a.removal is Pending)) ==> {
            &&& a.push == Reply::Got(PushResult::Success) ==> tells(r, "synced"@, None) && (
            r matches Step::Done(p) && p.had_activity && p.backoff is PushSucceeded)
            &&& a.push != Reply::Got(PushResult::Success) ==> tells(
                r,
                "diverged_yours"@,
                Some("rebased but push failed — will retry"@),
            ) && (r matches Step::Done(p) && !p.had_activity && p.backoff is PushFailed)
        },
{
}

/// Conflicts are treated as the policy says. In the worktree of the branch they are
/// undone or left in place; in a worktree that was made for it they go with it.
pub proof fn law_conflicts_follow_the_policy(c: BranchContext, a: Answers, now: Seq<char>, r: Step)
    requires
        is_step(r, step_for(c, a, now)),
        was_rebased(c, a, false),
        !(c.conflict_action is ResolveAgent),
    ensures
        c.worktree is None && a.removal is Pending ==> (r matches Step::Ask(t) && t
            is RemoveWorktree),
        c.conflict_action is Revert && c.worktree is Some && a.abort is Pending ==> (
        r matches Step::Ask(t) && t is AbortRebase),
        (c.worktree is None && !(a.removal is Pending)) || (c.conflict_action is Revert
            && c.worktree is Some && !(a.abort is Pending)) ==> is_restful(r) && tells(
            r,
            "diverged_yours"@,
            Some("diverged — rebase has conflicts, resolve manually"@),
        ),
        c.conflict_action is Leave && c.worktree is Some ==> is_restful(r) && tells(
            r,
            "merge_conflict"@,
            Some("rebase conflicts — resolve manually or run `gitsitter auto-resolve`"@),
        ),
{
}

/// Where an agent resolves conflicts it is run once, and what it has completed is
/// pushed. What it has not completed is told as a conflict where the files are left,
/// and as a divergence where they went with the worktree that was made.
pub proof fn law_agent_resolves_conflicts(c: BranchContext, a: Answers, now: Seq<char>, r: Step)
    requires
        is_step(r, step_for(c, a, now)),
        was_rebased(c, a, false),
        c.conflict_action is ResolveAgent,
    ensures
        a.agent is Pending ==> (r matches Step::Ask(t) && t is RunAgent),
        a.agent matches Reply::Got(result) ==> {
            &&& result.completed && a.push is Pending ==> (r matches Step::Ask(t) && t is Push)
            &&& result.completed && !(a.push is Pending) && (c.worktree is Some || !(a.removal
                is Pending)) ==> {
                &&& a.push == Reply::Got(PushResult::Success) ==> tells(r, "synced"@, None) && (
                r matches Step::Done(p) && p.had_activity && p.backoff is PushSucceeded)
                &&& a.push != Reply::Got(PushResult::Success) ==> tells(
                    r,
                    "diverged_yours"@,
                    Some("resolved but push failed — will retry"@),
                ) && (r matches Step::Done(p) && !p.had_activity && p.backoff is PushFailed)
            }
            &&& !result.completed && c.worktree is Some ==> is_restful(r) && (
            r matches Step::Done(p) && p.state matches Some(s) && s.sync_status@
                == "merge_conflict"@)
            &&& !result.completed && c.worktree is None && !(a.removal is Pending) ==> is_restful(r)
                && (r matches Step::Done(p) && p.state matches Some(s) && s.sync_status@
                == "diverged_yours"@)
            &&& !result.completed && result.agent_output@.len() == 0 && (c.worktree is Some || !(
            a.removal is Pending)) ==> (r matches Step::Done(p) && p.state matches Some(s)
                && s.error_message matches Some(m) && m@
                == "resolve agent could not fully resolve conflicts — finish manually or run `gitsitter auto-resolve`"@)
            &&& !result.completed && result.agent_output@.len() > 0 && (c.worktree is Some || !(
            a.removal is Pending)) ==> (r matches Step::Done(p) && p.state matches Some(s)
                && s.error_message matches Some(m) && m@ == "resolve agent partial: "@
                + last_lines(result.agent_output@, 3))
        },
        a.agent matches Reply::Failed(e) ==> (c.worktree is Some || !(a.removal is Pending)
            ==> is_restful(r) && tells(
            r,
            if c.worktree is Some {
                "merge_conflict"@
            } else {
                "diverged_yours"@
            },
            Some("resolve agent error: "@ + e@),
        )),
        c.worktree is None && a.removal is Pending && !(a.agent is Pending) && !(
        a.agent matches Reply::Got(result) && result.completed && a.push is Pending) ==> (
        r matches Step::Ask(t) && t is RemoveWorktree),
{
}

/// Whether a step is a report with an event that names an action and a detail.
pub open spec fn notes(r: Step, action: Seq<char>, told: Seq<char>) -> bool {
    r matches Step::Done(p) && p.event matches Some(SyncEvent::Branch { sync_action, detail, .. })
        && sync_action@ == action && detail@ == told
}

/// Events name what was decided, and tell what came of it.
pub proof fn law_events_tell_what_was_done(c: BranchContext, a: Answers, now: Seq<char>, r: Step)
    requires
        is_step(r, step_for(c, a, now)),
        r is Done,
        c.branch.upstream_name is Some,
    ensures
        a.analysis == Reply::Got(MergeAnalysis::UpToDate) ==> notes(r, "UpToDate"@, "up to date"@),
        a.analysis == Reply::Got(MergeAnalysis::UpstreamGone) ==> notes(
            r,
            "UpstreamGone"@,
            "upstream ref deleted"@,
        ),
        a.analysis == Reply::Got(MergeAnalysis::FastForward) && c.branch.remote_oid is Some ==> {
            &&& c.worktree is Some && a.dirty != Reply::Got(false) ==> notes(
                r,
                "SkipDirty"@,
                "skipped — worktree dirty"@,
            )
            &&& c.worktree is Some && a.dirty == Reply::Got(false) ==> notes(
                r,
                "FastForwardMerge"@,
                if a.fast_forward is Got {
                    "fast-forwarded"@
                } else {
                    "fast-forward failed"@
                },
            )
            &&& c.worktree is None ==> notes(
                r,
                "FastForwardRef"@,
                if a.fast_forward is Got {
                    "fast-forwarded (ref update)"@
                } else {
                    "fast-forward ref update failed"@
                },
            )
        },
        a.analysis == Reply::Got(MergeAnalysis::LocalAhead) ==> {
            &&& !c.may_contact ==> notes(
                r,
                "LocalAheadNotOwned"@,
                "local ahead, remote not contacted — skipped"@,
            )
            &&& c.may_contact && a.owner != Reply::Got(true) && a.merge_of_remote != Reply::Got(
                true,
            ) ==> notes(r, "LocalAheadNotOwned"@, "local ahead, not owned — skipped"@)
            &&& c.may_contact && a.owner == Reply::Got(true) && !c.push_backoff_active ==> {
                &&& a.push == Reply::Got(PushResult::Success) ==> notes(r, "Push"@, "pushed"@)
                &&& a.push is Failed ==> notes(r, "Push"@, "push failed"@)
            }
        },
        a.analysis == Reply::Got(MergeAnalysis::Diverged) ==> {
            &&& !c.may_contact ==> notes(
                r,
                "DivergedNotOwned"@,
                "diverged, remote not contacted — flagged"@,
            )
            &&& c.may_contact && a.owner != Reply::Got(true) ==> notes(
                r,
                "DivergedNotOwned"@,
                "diverged, not owned — flagged"@,
            )
            &&& c.may_contact && a.owner == Reply::Got(true) && !is_clear(c, a) ==> notes(
                r,
                "SkipRebaseDirty"@,
                "skipped — worktree dirty"@,
            )
        },
        was_rebased(c, a, true) ==> notes(
            r,
            "RebaseThenPush"@,
            "rebased onto "@ + (c.branch.remote@ + "/"@ + c.branch.remote_ref@) + (if a.push
                == Reply::Got(PushResult::Success) {
                ", pushed"@
            } else {
                ", push failed"@
            }),
        ),
{
}

/// Conflicts are reverted or left as it is configured; to an agent they go only where
/// one is configured, and else they are left.
pub proof fn law_policy_is_the_configured_one(global: GlobalSettings)
    ensures
        global.on_conflict is Revert ==> conflict_action_of(global) is Revert,
        global.on_conflict is Leave ==> conflict_action_of(global) is Leave,
        global.on_conflict is ResolveAgent || global.on_conflict is Auto ==> {
            &&& global.resolve_agent is Some ==> conflict_action_of(global) is ResolveAgent
            &&& global.resolve_agent is None ==> conflict_action_of(global) is Leave
        },
{
}

/// Git runs in the first worktree, or in the repo where there is none.
pub proof fn law_git_runs_in_the_first_worktree(worktrees: Seq<WorktreeInfo>, repo: Seq<char>)
    ensures
        worktrees.len() == 0 ==> work_path_of(worktrees, repo) == repo,
        worktrees.len() > 0 ==> work_path_of(worktrees, repo) == worktrees.first().path@,
{
}

// ---------------------------------------------------------------------------
// Recording
// ---------------------------------------------------------------------------

impl TrackedRepo {
    /// Records the report on a branch. Gives back the event to pass on.
    pub fn record(&mut self, branch: &str, report: Report, now: Duration) -> (r: Option<SyncEvent>)
        requires
            report.backoff is FetchFailed ==> old(self).backoff.fetch_consecutive_failures
                < u32::MAX && clock_reaches(now),
            report.backoff is PushFailed ==> old(self).backoff.push_failures(ref_of(branch@))
                < u32::MAX && clock_reaches(now),
        ensures
            r == report.event,
            final(self).branches@ == (match report.state {
                Some(state) => old(self).branches@.insert(branch@, state),
                None => old(self).branches@,
            }),
            match report.backoff {
                BackoffChange::Keep => final(self).backoff == old(self).backoff,
                BackoffChange::PushSucceeded => final(self).backoff.after_push_success(
                    old(self).backoff,
                    ref_of(branch@),
                ),
                BackoffChange::PushFailed => final(self).backoff.after_push_failure(
                    old(self).backoff,
                    ref_of(branch@),
                    now,
                ),
                BackoffChange::FetchFailed => final(self).backoff.after_fetch_failure(
                    old(self).backoff,
                    now,
                ),
            },
            *final(self) == (TrackedRepo {
                branches: final(self).branches,
                backoff: final(self).backoff,
                ..*old(self)
            }),
    {
        let ref_name = cat("refs/heads/", branch);
        match report.backoff {
            BackoffChange::Keep => {},
            BackoffChange::PushSucceeded => {
                self.backoff.reset_push_backoff(ref_name.as_str());
            },
            BackoffChange::PushFailed => {
                self.backoff.record_push_failure(ref_name.as_str(), now);
            },
            BackoffChange::FetchFailed => {
                self.backoff.record_fetch_failure(now);
            },
        }
        if let Some(state) = report.state {
            self.set_branch(branch, state);
        }
        report.event
    }
}

/// The event of a rebase with conflicts tells what became of them, and so does that of
/// one for which there was no place.
pub proof fn law_conflict_events_tell_what_became_of_them(
    c: BranchContext,
    a: Answers,
    now: Seq<char>,
    r: Step,
)
    requires
        is_step(r, step_for(c, a, now)),
        r is Done,
    ensures
        was_rebased(c, a, false) && c.conflict_action is Leave && c.worktree is Some ==> notes(
            r,
            "RebaseThenPush"@,
            "rebase conflicts, left in place"@,
        ),
        was_rebased(c, a, false) && (c.conflict_action is Revert || (c.conflict_action is Leave
            && c.worktree is None)) ==> notes(
            r,
            "RebaseThenPush"@,
            "rebase conflicts, reverted"@,
        ),
        is_own_divergence(c, a) && (a.rewrite is Failed || a.rewrite == Reply::Got(
            HistoryRewrite::NoRewrite,
        )) && c.worktree is None ==> (a.aside matches Reply::Failed(e) ==> notes(
            r,
            "RebaseThenPush"@,
            "no worktree to rebase in"@,
        ) && tells(
            r,
            "diverged_yours"@,
            Some("diverged — no worktree to rebase in: "@ + e@),
        )),
{
}

/// Before anything was asked no answer is known, so that the first question is asked.
pub proof fn law_nothing_is_known_at_first(a: Answers)
    requires
        a.is_fresh(),
    ensures
        a.analysis is Pending && a.dirty is Pending && a.owner is Pending && a.merge_of_remote
            is Pending,
        a.fast_forward is Pending && a.rewrite is Pending && a.aside is Pending && a.rebase
            is Pending,
        a.abort is Pending && a.agent is Pending && a.push is Pending && a.removal is Pending,
{
}

} // verus!
