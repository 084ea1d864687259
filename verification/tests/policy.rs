use gitsitter::daemon;
use gitsitter::daemon::BranchSyncInput;
use gitsitter::git_ops::{HistoryRewrite, MergeAnalysis};
use gitsitter::sync;
use gitsitter::sync::{ActionError, BranchInputs, BranchState};

// --- The policy of the daemon ---

fn base_input() -> BranchSyncInput {
    BranchSyncInput {
        merge_analysis: MergeAnalysis::UpToDate,
        is_checked_out: false,
        is_worktree_dirty: false,
        is_owner: false,
        is_merge_of_remote: false,
        push_backoff_active: false,
    }
}

#[test]
fn up_to_date() {
    let input = BranchSyncInput { merge_analysis: MergeAnalysis::UpToDate, ..base_input() };
    assert_eq!(daemon::decide_branch_action(&input), daemon::SyncAction::UpToDate);
}

#[test]
fn upstream_gone() {
    let input = BranchSyncInput { merge_analysis: MergeAnalysis::UpstreamGone, ..base_input() };
    assert_eq!(daemon::decide_branch_action(&input), daemon::SyncAction::UpstreamGone);
}

#[test]
fn daemon_ff_not_checked_out_uses_update_ref() {
    let input = BranchSyncInput {
        merge_analysis: MergeAnalysis::FastForward,
        is_checked_out: false,
        ..base_input()
    };
    assert_eq!(daemon::decide_branch_action(&input), daemon::SyncAction::FastForwardRef);
}

#[test]
fn ff_checked_out_clean_does_merge() {
    let input = BranchSyncInput {
        merge_analysis: MergeAnalysis::FastForward,
        is_checked_out: true,
        is_worktree_dirty: false,
        ..base_input()
    };
    assert_eq!(daemon::decide_branch_action(&input), daemon::SyncAction::FastForwardMerge);
}

#[test]
fn ff_checked_out_dirty_skips() {
    let input = BranchSyncInput {
        merge_analysis: MergeAnalysis::FastForward,
        is_checked_out: true,
        is_worktree_dirty: true,
        ..base_input()
    };
    assert_eq!(daemon::decide_branch_action(&input), daemon::SyncAction::SkipDirty);
}

#[test]
fn local_ahead_not_owned() {
    let input = BranchSyncInput {
        merge_analysis: MergeAnalysis::LocalAhead,
        is_owner: false,
        is_merge_of_remote: false,
        ..base_input()
    };
    assert_eq!(daemon::decide_branch_action(&input), daemon::SyncAction::LocalAheadNotOwned);
}

#[test]
fn daemon_local_ahead_owned_pushes() {
    let input = BranchSyncInput {
        merge_analysis: MergeAnalysis::LocalAhead,
        is_owner: true,
        ..base_input()
    };
    assert_eq!(daemon::decide_branch_action(&input), daemon::SyncAction::Push);
}

#[test]
fn daemon_local_ahead_merge_of_remote_pushes() {
    let input = BranchSyncInput {
        merge_analysis: MergeAnalysis::LocalAhead,
        is_owner: false,
        is_merge_of_remote: true,
        ..base_input()
    };
    assert_eq!(daemon::decide_branch_action(&input), daemon::SyncAction::Push);
}

#[test]
fn local_ahead_push_backoff() {
    let input = BranchSyncInput {
        merge_analysis: MergeAnalysis::LocalAhead,
        is_owner: true,
        push_backoff_active: true,
        ..base_input()
    };
    assert_eq!(daemon::decide_branch_action(&input), daemon::SyncAction::SkipPushBackoff);
}

#[test]
fn diverged_owner_clean_rebases() {
    let input = BranchSyncInput {
        merge_analysis: MergeAnalysis::Diverged,
        is_owner: true,
        is_checked_out: true,
        is_worktree_dirty: false,
        ..base_input()
    };
    assert_eq!(daemon::decide_branch_action(&input), daemon::SyncAction::RebaseThenPush);
}

#[test]
fn diverged_owner_not_checked_out_rebases() {
    let input = BranchSyncInput {
        merge_analysis: MergeAnalysis::Diverged,
        is_owner: true,
        is_checked_out: false,
        ..base_input()
    };
    assert_eq!(daemon::decide_branch_action(&input), daemon::SyncAction::RebaseThenPush);
}

#[test]
fn diverged_owner_dirty_skips() {
    let input = BranchSyncInput {
        merge_analysis: MergeAnalysis::Diverged,
        is_owner: true,
        is_checked_out: true,
        is_worktree_dirty: true,
        ..base_input()
    };
    assert_eq!(daemon::decide_branch_action(&input), daemon::SyncAction::SkipRebaseDirty);
}

#[test]
fn diverged_not_owned() {
    let input = BranchSyncInput {
        merge_analysis: MergeAnalysis::Diverged,
        is_owner: false,
        ..base_input()
    };
    assert_eq!(daemon::decide_branch_action(&input), daemon::SyncAction::DivergedNotOwned);
}

// --- The typed policy ---

fn base() -> BranchInputs {
    BranchInputs {
        analysis: MergeAnalysis::UpToDate,
        is_checked_out: false,
        is_worktree_dirty: false,
        is_owner: false,
        is_merge_of_remote: false,
        push_backoff_active: false,
        rewrite: HistoryRewrite::NoRewrite,
    }
}

#[test]
fn up_to_date_is_noop() {
    assert_eq!(sync::decide_branch_action(&base()), sync::SyncAction::Noop);
}

#[test]
fn upstream_gone_holds() {
    let input = BranchInputs { analysis: MergeAnalysis::UpstreamGone, ..base() };
    assert_eq!(
        sync::decide_branch_action(&input),
        sync::SyncAction::Hold(BranchState::UpstreamGone)
    );
}

#[test]
fn sync_ff_not_checked_out_uses_update_ref() {
    let input = BranchInputs {
        analysis: MergeAnalysis::FastForward,
        is_checked_out: false,
        ..base()
    };
    assert_eq!(sync::decide_branch_action(&input), sync::SyncAction::FastForwardRef);
}

#[test]
fn ff_checked_out_clean_merges() {
    let input = BranchInputs {
        analysis: MergeAnalysis::FastForward,
        is_checked_out: true,
        ..base()
    };
    assert_eq!(sync::decide_branch_action(&input), sync::SyncAction::FastForwardMerge);
}

#[test]
fn ff_checked_out_dirty_holds() {
    let input = BranchInputs {
        analysis: MergeAnalysis::FastForward,
        is_checked_out: true,
        is_worktree_dirty: true,
        ..base()
    };
    assert_eq!(
        sync::decide_branch_action(&input),
        sync::SyncAction::Hold(BranchState::DirtyWorktree)
    );
}

#[test]
fn local_ahead_not_owned_holds() {
    let input = BranchInputs { analysis: MergeAnalysis::LocalAhead, ..base() };
    assert_eq!(
        sync::decide_branch_action(&input),
        sync::SyncAction::Hold(BranchState::LocalAheadNotOwned)
    );
}

#[test]
fn sync_local_ahead_owned_pushes() {
    let input = BranchInputs {
        analysis: MergeAnalysis::LocalAhead,
        is_owner: true,
        ..base()
    };
    assert_eq!(sync::decide_branch_action(&input), sync::SyncAction::Push);
}

#[test]
fn sync_local_ahead_merge_of_remote_pushes() {
    let input = BranchInputs {
        analysis: MergeAnalysis::LocalAhead,
        is_merge_of_remote: true,
        ..base()
    };
    assert_eq!(sync::decide_branch_action(&input), sync::SyncAction::Push);
}

#[test]
fn local_ahead_backoff_skips() {
    let input = BranchInputs {
        analysis: MergeAnalysis::LocalAhead,
        is_owner: true,
        push_backoff_active: true,
        ..base()
    };
    assert_eq!(sync::decide_branch_action(&input), sync::SyncAction::SkipPushBackoff);
}

#[test]
fn diverged_not_owned_flags() {
    let input = BranchInputs {
        analysis: MergeAnalysis::Diverged,
        is_owner: false,
        ..base()
    };
    assert_eq!(
        sync::decide_branch_action(&input),
        sync::SyncAction::Hold(BranchState::DivergedNotOwned)
    );
}

#[test]
fn diverged_owned_holds() {
    let input = BranchInputs { analysis: MergeAnalysis::Diverged, is_owner: true, ..base() };
    assert_eq!(
        sync::decide_branch_action(&input),
        sync::SyncAction::Hold(BranchState::Diverged)
    );
}

#[test]
fn diverged_owned_rewrite_remote_unchanged() {
    let input = BranchInputs {
        analysis: MergeAnalysis::Diverged,
        is_owner: true,
        rewrite: HistoryRewrite::RemoteUnchanged,
        ..base()
    };
    assert_eq!(
        sync::decide_branch_action(&input),
        sync::SyncAction::Hold(BranchState::HistoryRewritten)
    );
}

#[test]
fn diverged_owned_rewrite_remote_advanced() {
    let input = BranchInputs {
        analysis: MergeAnalysis::Diverged,
        is_owner: true,
        rewrite: HistoryRewrite::RemoteAdvanced,
        ..base()
    };
    assert_eq!(
        sync::decide_branch_action(&input),
        sync::SyncAction::Hold(BranchState::HistoryRewrittenRemoteAdvanced)
    );
}

#[test]
fn status_strings_are_stable() {
    assert_eq!(BranchState::Synced.status_str(), "synced");
    assert_eq!(BranchState::Diverged.status_str(), "diverged_yours");
    assert_eq!(BranchState::DivergedNotOwned.status_str(), "diverged");
    assert_eq!(
        BranchState::HistoryRewritten.status_str(),
        "history_rewritten_remote_unchanged"
    );
    assert_eq!(BranchState::DirtyWorktree.status_str(), "pending_dirty");
    assert_eq!(
        BranchState::Failed(ActionError::PushRejected).status_str(),
        "push_rejected"
    );
}

fn all_states() -> Vec<BranchState> {
    vec![
        BranchState::Synced,
        BranchState::LocalAheadNotOwned,
        BranchState::DirtyWorktree,
        BranchState::UpstreamGone,
        BranchState::DivergedNotOwned,
        BranchState::Diverged,
        BranchState::HistoryRewritten,
        BranchState::HistoryRewrittenRemoteAdvanced,
        BranchState::MergeConflict,
        BranchState::Failed(ActionError::PushRejected),
        BranchState::Failed(ActionError::AuthFailed),
        BranchState::Failed(ActionError::NetworkError),
        BranchState::Failed(ActionError::HookTimeout),
        BranchState::Failed(ActionError::Other),
    ]
}

#[test]
fn states_are_read_back_from_their_status() {
    for state in all_states() {
        assert_eq!(BranchState::from_status(state.status_str()), Some(state));
    }
    assert_eq!(BranchState::from_status("up_to_date"), None);
}

#[test]
fn held_states_are_explained() {
    for state in all_states() {
        let explained = !matches!(state, BranchState::Synced | BranchState::Failed(_));
        assert_eq!(state.hold_message().is_some(), explained);
    }
    assert_eq!(BranchState::DirtyWorktree.hold_detail(), "skipped — worktree dirty");
    assert_eq!(sync::SyncAction::Hold(BranchState::Diverged).label(), "Diverged");
}

#[test]
fn both_policies_hold_back_from_the_same_pushes() {
    for owner in [false, true] {
        for merge in [false, true] {
            for backoff in [false, true] {
                let a = BranchSyncInput {
                    merge_analysis: MergeAnalysis::LocalAhead,
                    is_owner: owner,
                    is_merge_of_remote: merge,
                    push_backoff_active: backoff,
                    ..base_input()
                };
                let b = BranchInputs {
                    analysis: MergeAnalysis::LocalAhead,
                    is_owner: owner,
                    is_merge_of_remote: merge,
                    push_backoff_active: backoff,
                    ..base()
                };
                assert_eq!(
                    daemon::decide_branch_action(&a) == daemon::SyncAction::Push,
                    sync::decide_branch_action(&b) == sync::SyncAction::Push
                );
            }
        }
    }
}
