//! Typed branch sync model.
//!
//! Three concerns are kept deliberately separate:
//!
//! - [`BranchState`]: the *observable* state of a branch (what **is**).
//! - [`SyncAction`]: what the executor should *do*. Only real executor
//!   instructions, plus `Hold` for the cases where gitsitter won't act.
//! - [`ActionError`]: why a write action failed, recorded *separately* from the
//!   branch's observable state.
//!
//! [`decide_branch_action`] is the pure policy function mapping observed inputs
//! to a [`SyncAction`].

use vstd::prelude::*;

use crate::git_ops::{HistoryRewrite, MergeAnalysis};
use crate::text::text_eq;

verus! {

/// Reason a write action (push / fast-forward) failed. Recorded alongside the
/// branch's [`BranchState`] rather than conflated into it.
#[derive(Debug, Clone, Copy, PartialEq, Eq, Structural)]
pub enum ActionError {
    PushRejected,
    AuthFailed,
    NetworkError,
    HookTimeout,
    /// Catch-all for fast-forward / update-ref / transport-level failures.
    Other,
}

/// Observable state of a tracked branch: *what is*, not what to do about it.
#[derive(Debug, Clone, Copy, PartialEq, Eq, Structural)]
pub enum BranchState {
    /// Up to date with the remote (already synced, fast-forwarded, or pushed).
    Synced,
    /// Local commits on a branch the user doesn't own: held, not pushed.
    LocalAheadNotOwned,
    /// Fast-forward available but the worktree is dirty: held.
    DirtyWorktree,
    /// Upstream tracking ref was deleted.
    UpstreamGone,
    /// Diverged, and the remote tip looks like someone else's work: flagged.
    DivergedNotOwned,
    /// Diverged on an owned branch: held for manual resolution.
    Diverged,
    /// Local history was rewritten; remote has not advanced past the old tip.
    HistoryRewritten,
    /// Local history was rewritten and the remote advanced past the old tip.
    HistoryRewrittenRemoteAdvanced,
    /// Worktree is mid-merge/rebase with conflicts.
    MergeConflict,
    /// A write action failed; the error is the reason, recorded apart from state.
    Failed(ActionError),
}

impl ActionError {
    /// The status string of the error.
    pub open spec fn status(self) -> Seq<char> {
        match self {
            ActionError::PushRejected => "push_rejected"@,
            ActionError::AuthFailed => "auth_failed"@,
            ActionError::NetworkError => "network_error"@,
            ActionError::HookTimeout => "push_blocked_hook_timeout"@,
            ActionError::Other => "error"@,
        }
    }

    /// The status string of the error.
    pub fn status_str(&self) -> (r: &'static str)
        ensures
            r@ == self.status(),
    {
        match self {
            ActionError::PushRejected => "push_rejected",
            ActionError::AuthFailed => "auth_failed",
            ActionError::NetworkError => "network_error",
            ActionError::HookTimeout => "push_blocked_hook_timeout",
            ActionError::Other => "error",
        }
    }
}

impl BranchState {
    /// The status string of the state.
    pub open spec fn status(self) -> Seq<char> {
        match self {
            BranchState::Synced => "synced"@,
            BranchState::LocalAheadNotOwned => "local_ahead"@,
            BranchState::DirtyWorktree => "pending_dirty"@,
            BranchState::UpstreamGone => "upstream_gone"@,
            BranchState::DivergedNotOwned => "diverged"@,
            BranchState::Diverged => "diverged_yours"@,
            BranchState::HistoryRewritten => "history_rewritten_remote_unchanged"@,
            BranchState::HistoryRewrittenRemoteAdvanced => "history_rewritten_remote_advanced"@,
            BranchState::MergeConflict => "merge_conflict"@,
            BranchState::Failed(e) => e.status(),
        }
    }

    /// The event detail of the state.
    pub open spec fn detail(self) -> Seq<char> {
        match self {
            BranchState::LocalAheadNotOwned => "local ahead, not owned — skipped"@,
            BranchState::DirtyWorktree => "skipped — worktree dirty"@,
            BranchState::UpstreamGone => "upstream ref deleted"@,
            BranchState::DivergedNotOwned => "diverged, not owned — flagged"@,
            BranchState::Diverged => "diverged — holding for manual resolution"@,
            BranchState::HistoryRewritten => "history rewrite detected, remote unchanged — holding"@,
            BranchState::HistoryRewrittenRemoteAdvanced => "history rewrite detected, remote advanced — holding"@,
            BranchState::MergeConflict => "merge conflict — resolve manually"@,
            BranchState::Synced => "up to date"@,
            BranchState::Failed(_) => "action failed"@,
        }
    }

    /// The stored explanation of the state, if it has one.
    pub open spec fn explanation(self) -> Option<Seq<char>> {
        match self {
            BranchState::LocalAheadNotOwned => Some(
                "local commits on non-owned branch — push manually or create a new branch"@,
            ),
            BranchState::DirtyWorktree => Some("dirty worktree — commit or stash to sync"@),
            BranchState::UpstreamGone => Some("upstream ref deleted"@),
            BranchState::DivergedNotOwned => Some("diverged (last remote commit by someone else)"@),
            BranchState::Diverged => Some("diverged — resolve manually (merge or rebase)"@),
            BranchState::HistoryRewritten => Some(
                "local history rewritten — push --force-with-lease when ready"@,
            ),
            BranchState::HistoryRewrittenRemoteAdvanced => Some(
                "local history rewritten and remote advanced — force-push would discard remote commits; consider backing up and resetting to remote"@,
            ),
            BranchState::MergeConflict => Some("merge conflict — resolve manually"@),
            BranchState::Synced | BranchState::Failed(_) => None,
        }
    }

    /// Stable status string for transport, prompt, and status display.
    pub fn status_str(&self) -> (r: &'static str)
        ensures
            r@ == self.status(),
    {
        match self {
            BranchState::Synced => "synced",
            BranchState::LocalAheadNotOwned => "local_ahead",
            BranchState::DirtyWorktree => "pending_dirty",
            BranchState::UpstreamGone => "upstream_gone",
            BranchState::DivergedNotOwned => "diverged",
            BranchState::Diverged => "diverged_yours",
            BranchState::HistoryRewritten => "history_rewritten_remote_unchanged",
            BranchState::HistoryRewrittenRemoteAdvanced => "history_rewritten_remote_advanced",
            BranchState::MergeConflict => "merge_conflict",
            BranchState::Failed(e) => e.status_str(),
        }
    }

    /// Event detail line for a held state (the cases the executor records
    /// without performing a write).
    pub fn hold_detail(&self) -> (r: &'static str)
        ensures
            r@ == self.detail(),
    {
        match self {
            BranchState::LocalAheadNotOwned => "local ahead, not owned — skipped",
            BranchState::DirtyWorktree => "skipped — worktree dirty",
            BranchState::UpstreamGone => "upstream ref deleted",
            BranchState::DivergedNotOwned => "diverged, not owned — flagged",
            BranchState::Diverged => "diverged — holding for manual resolution",
            BranchState::HistoryRewritten => "history rewrite detected, remote unchanged — holding",
            BranchState::HistoryRewrittenRemoteAdvanced => {
                "history rewrite detected, remote advanced — holding"
            },
            BranchState::MergeConflict => "merge conflict — resolve manually",
            BranchState::Synced => "up to date",
            BranchState::Failed(_) => "action failed",
        }
    }

    /// Stored error/explanation message for a held state, if any.
    pub fn hold_message(&self) -> (r: Option<&'static str>)
        ensures
            match r {
                Some(m) => self.explanation() == Some(m@),
                None => self.explanation() is None,
            },
    {
        match self {
            BranchState::LocalAheadNotOwned => {
                Some("local commits on non-owned branch — push manually or create a new branch")
            },
            BranchState::DirtyWorktree => Some("dirty worktree — commit or stash to sync"),
            BranchState::UpstreamGone => Some("upstream ref deleted"),
            BranchState::DivergedNotOwned => Some("diverged (last remote commit by someone else)"),
            BranchState::Diverged => Some("diverged — resolve manually (merge or rebase)"),
            BranchState::HistoryRewritten => {
                Some("local history rewritten — push --force-with-lease when ready")
            },
            BranchState::HistoryRewrittenRemoteAdvanced => Some(
                "local history rewritten and remote advanced — force-push would discard remote commits; consider backing up and resetting to remote",
            ),
            BranchState::MergeConflict => Some("merge conflict — resolve manually"),
            BranchState::Synced | BranchState::Failed(_) => None,
        }
    }
}

impl BranchState {
    /// The state with the status string `s`, if there is one.
    pub fn from_status(s: &str) -> (r: Option<BranchState>)
        ensures
            match r {
                Some(state) => state.status() == s@,
                None => forall|state: BranchState| #[trigger] state.status() != s@,
            },
    {
        if text_eq(s, "synced") {
            Some(BranchState::Synced)
        } else if text_eq(s, "local_ahead") {
            Some(BranchState::LocalAheadNotOwned)
        } else if text_eq(s, "pending_dirty") {
            Some(BranchState::DirtyWorktree)
        } else if text_eq(s, "upstream_gone") {
            Some(BranchState::UpstreamGone)
        } else if text_eq(s, "diverged") {
            Some(BranchState::DivergedNotOwned)
        } else if text_eq(s, "diverged_yours") {
            Some(BranchState::Diverged)
        } else if text_eq(s, "history_rewritten_remote_unchanged") {
            Some(BranchState::HistoryRewritten)
        } else if text_eq(s, "history_rewritten_remote_advanced") {
            Some(BranchState::HistoryRewrittenRemoteAdvanced)
        } else if text_eq(s, "merge_conflict") {
            Some(BranchState::MergeConflict)
        } else if text_eq(s, "push_rejected") {
            Some(BranchState::Failed(ActionError::PushRejected))
        } else if text_eq(s, "auth_failed") {
            Some(BranchState::Failed(ActionError::AuthFailed))
        } else if text_eq(s, "network_error") {
            Some(BranchState::Failed(ActionError::NetworkError))
        } else if text_eq(s, "push_blocked_hook_timeout") {
            Some(BranchState::Failed(ActionError::HookTimeout))
        } else if text_eq(s, "error") {
            Some(BranchState::Failed(ActionError::Other))
        } else {
            None
        }
    }
}

/// Each state has a status string of its own.
pub proof fn law_status_strings_are_distinct(a: BranchState, b: BranchState)
    requires
        a.status() == b.status(),
    ensures
        a == b,
{
    reveal_strlit("synced");
    reveal_strlit("local_ahead");
    reveal_strlit("pending_dirty");
    reveal_strlit("upstream_gone");
    reveal_strlit("diverged");
    reveal_strlit("diverged_yours");
    reveal_strlit("history_rewritten_remote_unchanged");
    reveal_strlit("history_rewritten_remote_advanced");
    reveal_strlit("merge_conflict");
    reveal_strlit("push_rejected");
    reveal_strlit("auth_failed");
    reveal_strlit("network_error");
    reveal_strlit("push_blocked_hook_timeout");
    reveal_strlit("error");
    let s = a.status();
    let t = b.status();
    assert(s.len() == t.len());
    assert(s[0] == t[0] && s[1] == t[1]);
}

/// What the executor should do with a single branch.
#[derive(Debug, Clone, Copy, PartialEq, Eq, Structural)]
pub enum SyncAction {
    /// Already in sync: record `Synced`, nothing to write.
    Noop,
    /// Fast-forward the checked-out worktree via merge.
    FastForwardMerge,
    /// Fast-forward via `update-ref` (branch not checked out).
    FastForwardRef,
    /// Push local commits to the remote.
    Push,
    /// Skip the push silently: a push backoff is active.
    SkipPushBackoff,
    /// Don't act; record the given observable state and hold.
    Hold(BranchState),
}

impl SyncAction {
    /// The stable name of the action.
    pub open spec fn name(self) -> Seq<char> {
        match self {
            SyncAction::Noop => "UpToDate"@,
            SyncAction::FastForwardMerge => "FastForwardMerge"@,
            SyncAction::FastForwardRef => "FastForwardRef"@,
            SyncAction::Push => "Push"@,
            SyncAction::SkipPushBackoff => "SkipPushBackoff"@,
            SyncAction::Hold(state) => match state {
                BranchState::UpstreamGone => "UpstreamGone"@,
                BranchState::DirtyWorktree => "SkipDirty"@,
                BranchState::LocalAheadNotOwned => "LocalAheadNotOwned"@,
                BranchState::DivergedNotOwned => "DivergedNotOwned"@,
                _ => "Diverged"@,
            },
        }
    }

    /// Whether the action writes to the local repo or to the remote.
    pub open spec fn writes(self) -> bool {
        self is FastForwardMerge || self is FastForwardRef || self is Push
    }

    /// Stable name for the `sync_action` field of a sync event.
    pub fn label(&self) -> (r: &'static str)
        ensures
            r@ == self.name(),
    {
        match self {
            SyncAction::Noop => "UpToDate",
            SyncAction::FastForwardMerge => "FastForwardMerge",
            SyncAction::FastForwardRef => "FastForwardRef",
            SyncAction::Push => "Push",
            SyncAction::SkipPushBackoff => "SkipPushBackoff",
            SyncAction::Hold(state) => match state {
                BranchState::UpstreamGone => "UpstreamGone",
                BranchState::DirtyWorktree => "SkipDirty",
                BranchState::LocalAheadNotOwned => "LocalAheadNotOwned",
                BranchState::DivergedNotOwned => "DivergedNotOwned",
                _ => "Diverged",
            },
        }
    }
}

/// Observed inputs to the pure decision function. All the state needed to
/// decide what to do with a single branch, with no side effects.
#[derive(Debug, Clone, Copy)]
pub struct BranchInputs {
    pub analysis: MergeAnalysis,
    pub is_checked_out: bool,
    pub is_worktree_dirty: bool,
    pub is_owner: bool,
    /// `LocalAhead` with a merge commit incorporating remote changes.
    pub is_merge_of_remote: bool,
    pub push_backoff_active: bool,
    /// History-rewrite classification: only meaningful for owned divergence.
    pub rewrite: HistoryRewrite,
}

/// The action for a branch in the given situation.
pub open spec fn action_for(input: BranchInputs) -> SyncAction {
    match input.analysis {
        MergeAnalysis::UpstreamGone => SyncAction::Hold(BranchState::UpstreamGone),
        MergeAnalysis::UpToDate => SyncAction::Noop,
        MergeAnalysis::FastForward => if !input.is_checked_out {
            SyncAction::FastForwardRef
        } else if input.is_worktree_dirty {
            SyncAction::Hold(BranchState::DirtyWorktree)
        } else {
            SyncAction::FastForwardMerge
        },
        MergeAnalysis::LocalAhead => if !input.is_owner && !input.is_merge_of_remote {
            SyncAction::Hold(BranchState::LocalAheadNotOwned)
        } else if input.push_backoff_active {
            SyncAction::SkipPushBackoff
        } else {
            SyncAction::Push
        },
        MergeAnalysis::Diverged => SyncAction::Hold(
            if !input.is_owner {
                BranchState::DivergedNotOwned
            } else {
                match input.rewrite {
                    HistoryRewrite::RemoteUnchanged => BranchState::HistoryRewritten,
                    HistoryRewrite::RemoteAdvanced => BranchState::HistoryRewrittenRemoteAdvanced,
                    HistoryRewrite::NoRewrite => BranchState::Diverged,
                }
            },
        ),
    }
}

/// Decide what sync action to take for a branch, purely from observed state.
pub fn decide_branch_action(input: &BranchInputs) -> (r: SyncAction)
    ensures
        r == action_for(*input),
{
    match input.analysis {
        MergeAnalysis::UpstreamGone => SyncAction::Hold(BranchState::UpstreamGone),
        MergeAnalysis::UpToDate => SyncAction::Noop,
        MergeAnalysis::FastForward => {
            if input.is_checked_out {
                if input.is_worktree_dirty {
                    SyncAction::Hold(BranchState::DirtyWorktree)
                } else {
                    SyncAction::FastForwardMerge
                }
            } else {
                SyncAction::FastForwardRef
            }
        },
        MergeAnalysis::LocalAhead => {
            if !input.is_owner && !input.is_merge_of_remote {
                SyncAction::Hold(BranchState::LocalAheadNotOwned)
            } else if input.push_backoff_active {
                SyncAction::SkipPushBackoff
            } else {
                SyncAction::Push
            }
        },
        MergeAnalysis::Diverged => {
            if !input.is_owner {
                return SyncAction::Hold(BranchState::DivergedNotOwned);
            }
            match input.rewrite {
                HistoryRewrite::RemoteUnchanged => SyncAction::Hold(BranchState::HistoryRewritten),
                HistoryRewrite::RemoteAdvanced => {
                    SyncAction::Hold(BranchState::HistoryRewrittenRemoteAdvanced)
                },
                HistoryRewrite::NoRewrite => SyncAction::Hold(BranchState::Diverged),
            }
        },
    }
}

/// The only writes are fast-forwards and pushes: a branch that diverged or lost
/// its upstream is held, whatever else holds of it.
pub proof fn law_divergence_is_held(input: BranchInputs)
    requires
        input.analysis is Diverged || input.analysis is UpstreamGone,
    ensures
        action_for(input) is Hold,
        !action_for(input).writes(),
{
}

/// A push happens only where the local branch is ahead, no backoff is active,
/// and the branch is the user's own or its tip merges the remote.
pub proof fn law_push_needs_a_right(input: BranchInputs)
    ensures
        action_for(input) is Push <==> input.analysis is LocalAhead && (input.is_owner
            || input.is_merge_of_remote) && !input.push_backoff_active,
{
}

/// A dirty worktree is never merged into, and a checked-out branch never moved
/// under its worktree.
pub proof fn law_worktree_is_safe(input: BranchInputs)
    ensures
        action_for(input) is FastForwardMerge ==> input.is_checked_out && !input.is_worktree_dirty,
        action_for(input) is FastForwardRef ==> !input.is_checked_out,
        input.is_checked_out && input.is_worktree_dirty ==> !(action_for(input) is FastForwardMerge)
            && !(action_for(input) is FastForwardRef),
{
}

/// What is known of the history rewrite matters on an owned, diverged branch alone.
pub proof fn law_rewrite_matters_for_owned_divergence(input: BranchInputs, other: HistoryRewrite)
    requires
        !(input.analysis is Diverged && input.is_owner),
    ensures
        action_for(input) == action_for(BranchInputs { rewrite: other, ..input }),
{
}

// ---------------------------------------------------------------------------
// What is decided
// ---------------------------------------------------------------------------

/// The word by which each state is stored and sent.
pub proof fn law_states_are_stored_by_their_words(state: BranchState)
    ensures
        match state {
            BranchState::Synced => state.status() == "synced"@,
            BranchState::LocalAheadNotOwned => state.status() == "local_ahead"@,
            BranchState::DirtyWorktree => state.status() == "pending_dirty"@,
            BranchState::UpstreamGone => state.status() == "upstream_gone"@,
            BranchState::DivergedNotOwned => state.status() == "diverged"@,
            BranchState::Diverged => state.status() == "diverged_yours"@,
            BranchState::HistoryRewritten => state.status()
                == "history_rewritten_remote_unchanged"@,
            BranchState::HistoryRewrittenRemoteAdvanced => state.status()
                == "history_rewritten_remote_advanced"@,
            BranchState::MergeConflict => state.status() == "merge_conflict"@,
            BranchState::Failed(ActionError::PushRejected) => state.status() == "push_rejected"@,
            BranchState::Failed(ActionError::AuthFailed) => state.status() == "auth_failed"@,
            BranchState::Failed(ActionError::NetworkError) => state.status() == "network_error"@,
            BranchState::Failed(ActionError::HookTimeout) => state.status()
                == "push_blocked_hook_timeout"@,
            BranchState::Failed(ActionError::Other) => state.status() == "error"@,
        },
{
}

/// What is said of a branch that is held, on a line and to the user.
pub proof fn law_held_states_are_explained(state: BranchState)
    ensures
        state is Synced || state is Failed <==> state.explanation() is None,
        state is Synced ==> state.detail() == "up to date"@,
        state is Failed ==> state.detail() == "action failed"@,
        state is LocalAheadNotOwned ==> state.detail() == "local ahead, not owned — skipped"@
            && state.explanation() == Some(
            "local commits on non-owned branch — push manually or create a new branch"@,
        ),
        state is DirtyWorktree ==> state.detail() == "skipped — worktree dirty"@
            && state.explanation() == Some("dirty worktree — commit or stash to sync"@),
        state is UpstreamGone ==> state.detail() == "upstream ref deleted"@ && state.explanation()
            == Some("upstream ref deleted"@),
        state is DivergedNotOwned ==> state.detail() == "diverged, not owned — flagged"@
            && state.explanation() == Some("diverged (last remote commit by someone else)"@),
        state is Diverged ==> state.detail() == "diverged — holding for manual resolution"@
            && state.explanation() == Some("diverged — resolve manually (merge or rebase)"@),
        state is HistoryRewritten ==> state.detail()
            == "history rewrite detected, remote unchanged — holding"@ && state.explanation()
            == Some("local history rewritten — push --force-with-lease when ready"@),
        state is HistoryRewrittenRemoteAdvanced ==> state.detail()
            == "history rewrite detected, remote advanced — holding"@ && state.explanation()
            == Some(
            "local history rewritten and remote advanced — force-push would discard remote commits; consider backing up and resetting to remote"@,
        ),
        state is MergeConflict ==> state.detail() == "merge conflict — resolve manually"@
            && state.explanation() == Some("merge conflict — resolve manually"@),
{
}

/// What an action is called in an event.
pub proof fn law_actions_are_named(action: SyncAction)
    ensures
        action is Noop ==> action.name() == "UpToDate"@,
        action is FastForwardMerge ==> action.name() == "FastForwardMerge"@,
        action is FastForwardRef ==> action.name() == "FastForwardRef"@,
        action is Push ==> action.name() == "Push"@,
        action is SkipPushBackoff ==> action.name() == "SkipPushBackoff"@,
        action == SyncAction::Hold(BranchState::UpstreamGone) ==> action.name()
            == "UpstreamGone"@,
        action == SyncAction::Hold(BranchState::DirtyWorktree) ==> action.name() == "SkipDirty"@,
        action == SyncAction::Hold(BranchState::LocalAheadNotOwned) ==> action.name()
            == "LocalAheadNotOwned"@,
        action == SyncAction::Hold(BranchState::DivergedNotOwned) ==> action.name()
            == "DivergedNotOwned"@,
        action == SyncAction::Hold(BranchState::Diverged) || action == SyncAction::Hold(
            BranchState::HistoryRewritten,
        ) || action == SyncAction::Hold(BranchState::HistoryRewrittenRemoteAdvanced)
            ==> action.name() == "Diverged"@,
{
}

/// When each action is taken, and when a branch is held and as what.
pub proof fn law_each_action_has_its_reason(input: BranchInputs)
    ensures
        action_for(input) is Noop <==> input.analysis is UpToDate,
        action_for(input) is FastForwardRef <==> input.analysis is FastForward
            && !input.is_checked_out,
        action_for(input) is FastForwardMerge <==> input.analysis is FastForward
            && input.is_checked_out && !input.is_worktree_dirty,
        action_for(input) == SyncAction::Hold(BranchState::DirtyWorktree) <==> input.analysis
            is FastForward && input.is_checked_out && input.is_worktree_dirty,
        action_for(input) == SyncAction::Hold(BranchState::UpstreamGone) <==> input.analysis
            is UpstreamGone,
        action_for(input) is SkipPushBackoff <==> input.analysis is LocalAhead && (input.is_owner
            || input.is_merge_of_remote) && input.push_backoff_active,
        action_for(input) == SyncAction::Hold(BranchState::LocalAheadNotOwned) <==> input.analysis
            is LocalAhead && !input.is_owner && !input.is_merge_of_remote,
        action_for(input) == SyncAction::Hold(BranchState::DivergedNotOwned) <==> input.analysis
            is Diverged && !input.is_owner,
        action_for(input) == SyncAction::Hold(BranchState::Diverged) <==> input.analysis
            is Diverged && input.is_owner && input.rewrite is NoRewrite,
        action_for(input) == SyncAction::Hold(BranchState::HistoryRewritten) <==> input.analysis
            is Diverged && input.is_owner && input.rewrite is RemoteUnchanged,
        action_for(input) == SyncAction::Hold(BranchState::HistoryRewrittenRemoteAdvanced)
            <==> input.analysis is Diverged && input.is_owner && input.rewrite is RemoteAdvanced,
{
}

} // verus!
