use gitsitter::cli::{handle_disable, handle_register};
use gitsitter::clock::Duration;
use gitsitter::config::{OnConflict, UserConfig};
use gitsitter::daemon::{BackoffState, TrackedRepo};
use gitsitter::executor::{
    branch_context, next_step, AgentResult, Answers, BackoffChange, BranchContext, Reply, Report,
    Step, Task,
};
use gitsitter::git_ops::{HistoryRewrite, MergeAnalysis, PushResult, RepoBranch, WorktreeInfo};
use gitsitter::table::Table;
use gitsitter::transport::SyncEvent;

fn branch() -> RepoBranch {
    RepoBranch {
        name: "main".into(),
        local_oid: "aaa".into(),
        upstream_name: Some("origin/main".into()),
        remote_oid: Some("bbb".into()),
        is_head: true,
        remote: "origin".into(),
        remote_ref: "main".into(),
    }
}

fn urls() -> Table<String> {
    let mut urls = Table::new();
    urls.insert("origin".to_string(), "https://git.example/o/r.git".to_string());
    urls
}

/// A config that trusts the host of the remote.
fn trusting() -> UserConfig {
    let mut config = UserConfig::default();
    config.trusted_hosts.insert("git.example".to_string());
    config
}

fn context(checked_out: bool, config: &UserConfig) -> BranchContext {
    let mut occupancy = Table::new();
    if checked_out {
        occupancy.insert("main".to_string(), "/w".to_string());
    }
    let worktrees = vec![WorktreeInfo {
        path: "/w".into(),
        head_branch: Some("main".into()),
        is_clean: true,
    }];
    branch_context(
        branch(),
        &occupancy,
        &worktrees,
        "/w/.git",
        &BackoffState::new(),
        config,
        &urls(),
        Duration::from_secs(1),
    )
}

/// What the outside answers in a scenario.
struct World {
    analysis: MergeAnalysis,
    dirty: bool,
    owner: bool,
    rewrite: HistoryRewrite,
    /// The worktree that is made for a branch that has none.
    aside: Option<&'static str>,
    rebase: bool,
    push: fn() -> PushResult,
    agent: Option<bool>,
}

fn quiet() -> World {
    World {
        analysis: MergeAnalysis::UpToDate,
        dirty: false,
        owner: true,
        rewrite: HistoryRewrite::NoRewrite,
        aside: Some("/aside"),
        rebase: true,
        push: || PushResult::Success,
        agent: None,
    }
}

/// Runs the steps of a branch to the end. Gives back the tasks and the report.
fn run(c: &BranchContext, world: &World) -> (Vec<String>, Report) {
    let mut a = Answers::new();
    let mut asked = Vec::new();
    for _ in 0..20 {
        let task = match next_step(c, &a, "now") {
            Step::Done(report) => return (asked, report),
            Step::Ask(task) => task,
        };
        match task {
            Task::Analyze => a.analysis = Reply::Got(world.analysis),
            Task::CheckDirty { worktree } => {
                assert_eq!(worktree, "/w");
                a.dirty = Reply::Got(world.dirty);
            }
            Task::CheckOwner => {
                assert!(c.may_contact);
                a.owner = Reply::Got(world.owner);
            }
            Task::CheckMergeOfRemote => a.merge_of_remote = Reply::Got(false),
            Task::FastForwardMerge { upstream, .. } => {
                asked.push(format!("merge {upstream}"));
                a.fast_forward = Reply::Got(());
            }
            Task::UpdateRef { ref_name, new_oid, old_oid } => {
                asked.push(format!("update {ref_name} {new_oid} {old_oid}"));
                a.fast_forward = Reply::Got(());
            }
            Task::Push { remote, branch, .. } => {
                asked.push(format!("push {remote} {branch}"));
                a.push = Reply::Got((world.push)());
            }
            Task::DetectRewrite => a.rewrite = Reply::Got(world.rewrite),
            Task::AddWorktree { branch } => {
                asked.push(format!("add worktree for {branch}"));
                a.aside = match world.aside {
                    Some(path) => Reply::Got(path.to_string()),
                    None => Reply::Failed("no room".into()),
                };
            }
            Task::RemoveWorktree { path } => {
                asked.push(format!("remove {path}"));
                a.removal = Reply::Got(());
            }
            Task::Rebase { path, branch, upstream_ref } => {
                asked.push(format!("rebase {branch} onto {upstream_ref} in {path}"));
                a.rebase = Reply::Got(world.rebase);
            }
            Task::AbortRebase { path } => {
                asked.push(format!("abort in {path}"));
                a.abort = Reply::Got(());
            }
            Task::RunAgent { path, agent, .. } => {
                asked.push(format!("agent {agent} in {path}"));
                a.agent = match world.agent {
                    Some(completed) => Reply::Got(AgentResult {
                        completed,
                        agent_output: "one\ntwo\nthree\nfour\n".into(),
                    }),
                    None => Reply::Failed("gone".into()),
                };
            }
        }
    }
    panic!("no end in sight")
}

fn status(report: &Report) -> &str {
    report.state.as_ref().unwrap().sync_status.as_str()
}

fn detail(report: &Report) -> String {
    match &report.event {
        Some(SyncEvent::Branch { detail, .. }) => detail.clone(),
        _ => String::new(),
    }
}

#[test]
fn remote_ahead_is_fast_forwarded() {
    let c = context(true, &trusting());
    let (asked, report) = run(&c, &World { analysis: MergeAnalysis::FastForward, ..quiet() });
    assert_eq!(asked, ["merge origin/main"]);
    assert_eq!(status(&report), "synced");
    assert_eq!(detail(&report), "fast-forwarded");
    assert!(report.had_activity);
}

#[test]
fn other_branches_are_moved_by_their_ref() {
    let c = context(false, &trusting());
    let (asked, report) = run(&c, &World { analysis: MergeAnalysis::FastForward, ..quiet() });
    assert_eq!(asked, ["update refs/heads/main bbb aaa"]);
    assert_eq!(status(&report), "synced");
}

#[test]
fn dirty_worktrees_are_left_alone() {
    let c = context(true, &trusting());
    for analysis in [MergeAnalysis::FastForward, MergeAnalysis::Diverged] {
        let (asked, report) = run(&c, &World { analysis, dirty: true, ..quiet() });
        assert!(asked.is_empty());
        assert!(!report.had_activity);
    }
}

#[test]
fn local_commits_are_pushed_by_their_owner() {
    let c = context(true, &trusting());
    let ahead = World { analysis: MergeAnalysis::LocalAhead, ..quiet() };
    let (asked, report) = run(&c, &ahead);
    assert_eq!(asked, ["push origin main"]);
    assert_eq!(status(&report), "synced");
    assert_eq!(detail(&report), "pushed");
    let (asked, report) = run(&c, &World { owner: false, ..ahead });
    assert!(asked.is_empty());
    assert_eq!(status(&report), "local_ahead");
}

#[test]
fn divergence_is_rebased_and_pushed() {
    let c = context(true, &trusting());
    let (asked, report) = run(&c, &World { analysis: MergeAnalysis::Diverged, ..quiet() });
    assert_eq!(asked, ["rebase main onto origin/main in /w", "push origin main"]);
    assert_eq!(status(&report), "synced");
    match &report.event {
        Some(SyncEvent::Branch { analysis, sync_action, rewrite, .. }) => {
            assert_eq!(analysis, "Diverged");
            assert_eq!(sync_action, "RebaseThenPush");
            assert_eq!(rewrite.as_deref(), Some("None"));
        }
        other => panic!("unexpected event {:?}", other),
    }
}

#[test]
fn rewritten_history_is_held() {
    let c = context(true, &trusting());
    let diverged = World { analysis: MergeAnalysis::Diverged, ..quiet() };
    let (asked, report) =
        run(&c, &World { rewrite: HistoryRewrite::RemoteUnchanged, ..diverged });
    assert!(asked.is_empty());
    assert_eq!(status(&report), "history_rewritten_remote_unchanged");
    let diverged = World { analysis: MergeAnalysis::Diverged, ..quiet() };
    let (asked, report) = run(&c, &World { rewrite: HistoryRewrite::RemoteAdvanced, ..diverged });
    assert!(asked.is_empty());
    assert_eq!(status(&report), "history_rewritten_remote_advanced");
}

#[test]
fn divergence_of_others_is_flagged() {
    let c = context(true, &trusting());
    let world = World { analysis: MergeAnalysis::Diverged, owner: false, ..quiet() };
    let (asked, report) = run(&c, &world);
    assert!(asked.is_empty());
    assert_eq!(status(&report), "diverged");
}

#[test]
fn conflicts_follow_the_policy() {
    let world = |agent| World {
        analysis: MergeAnalysis::Diverged,
        rebase: false,
        agent,
        ..quiet()
    };
    let mut config = trusting();
    config.global.on_conflict = OnConflict::Revert;
    let (asked, report) = run(&context(true, &config), &world(None));
    assert_eq!(asked, ["rebase main onto origin/main in /w", "abort in /w"]);
    assert_eq!(status(&report), "diverged_yours");

    config.global.on_conflict = OnConflict::Leave;
    let (asked, report) = run(&context(true, &config), &world(None));
    assert_eq!(asked, ["rebase main onto origin/main in /w"]);
    assert_eq!(status(&report), "merge_conflict");

    config.global.on_conflict = OnConflict::Auto;
    config.global.resolve_agent = Some("helper".into());
    let (asked, report) = run(&context(true, &config), &world(Some(true)));
    assert_eq!(asked, ["rebase main onto origin/main in /w", "agent helper in /w", "push origin main"]);
    assert_eq!(status(&report), "synced");
    let (_, report) = run(&context(true, &config), &world(Some(false)));
    assert_eq!(status(&report), "merge_conflict");
    assert_eq!(
        report.state.unwrap().error_message.as_deref(),
        Some("resolve agent partial: two\nthree\nfour")
    );
    let (_, report) = run(&context(true, &config), &world(None));
    assert_eq!(status(&report), "merge_conflict");
}

#[test]
fn failed_pushes_back_off() {
    let c = context(true, &trusting());
    let outcomes: [(fn() -> PushResult, &str, BackoffChange); 4] = [
        (|| PushResult::Rejected("no".into()), "push_rejected", BackoffChange::PushFailed),
        (|| PushResult::AuthFailed("no".into()), "auth_failed", BackoffChange::FetchFailed),
        (|| PushResult::NetworkError("no".into()), "network_error", BackoffChange::FetchFailed),
        (|| PushResult::HookTimeout, "push_blocked_hook_timeout", BackoffChange::PushFailed),
    ];
    for (push, expected, backoff) in outcomes {
        let world = World { analysis: MergeAnalysis::LocalAhead, push, ..quiet() };
        let (_, report) = run(&c, &world);
        assert_eq!(status(&report), expected);
        assert_eq!(report.backoff, backoff);
    }
}

#[test]
fn reports_change_the_repo() {
    let c = context(true, &trusting());
    let mut repo = TrackedRepo::new("/w/.git".into(), "/w".into(), Table::new());
    let rejected = World {
        analysis: MergeAnalysis::LocalAhead,
        push: || PushResult::Rejected("no".into()),
        ..quiet()
    };
    let now = Duration::from_secs(10);
    let (_, report) = run(&c, &rejected);
    assert_eq!(repo.record("main", report, now), None);
    assert_eq!(repo.branches.get("main").unwrap().sync_status, "push_rejected");
    assert!(repo.backoff.should_skip_push("refs/heads/main", Duration::from_secs(39)));
    let (_, report) = run(&c, &World { analysis: MergeAnalysis::LocalAhead, ..quiet() });
    assert!(repo.record("main", report, now).is_some());
    assert!(!repo.backoff.should_skip_push("refs/heads/main", now));
}

#[test]
fn branches_without_upstream_are_skipped() {
    let mut c = context(true, &trusting());
    c.branch.upstream_name = None;
    let (asked, report) = run(&c, &quiet());
    assert!(asked.is_empty());
    assert!(report.state.is_none() && report.event.is_none());
}

#[test]
fn remotes_that_are_not_trusted_are_not_pushed_to() {
    for analysis in [MergeAnalysis::LocalAhead, MergeAnalysis::Diverged] {
        let c = context(true, &UserConfig::default());
        assert!(!c.may_contact);
        let (asked, report) = run(&c, &World { analysis, ..quiet() });
        assert!(asked.is_empty());
        assert!(!report.had_activity);
        let (expected, told) = match analysis {
            MergeAnalysis::LocalAhead => {
                ("local_ahead", "local ahead, remote not contacted — skipped")
            }
            _ => ("diverged", "diverged, remote not contacted — flagged"),
        };
        assert_eq!(status(&report), expected);
        assert_eq!(detail(&report), told);
    }
    // What was fetched before is still pulled.
    let c = context(true, &UserConfig::default());
    let (asked, _) = run(&c, &World { analysis: MergeAnalysis::FastForward, ..quiet() });
    assert_eq!(asked, ["merge origin/main"]);
}

#[test]
fn disabled_remotes_are_not_pushed_to() {
    let mut config = trusting();
    handle_register(&mut config, "/w/.git");
    assert!(context(true, &config).may_contact);
    assert_eq!(
        handle_disable(&mut config, "/w/.git", Some("origin"), false, false, &urls()),
        Ok(Some("origin".into()))
    );
    let c = context(true, &config);
    assert!(!c.may_contact);
    let (asked, report) = run(&c, &World { analysis: MergeAnalysis::LocalAhead, ..quiet() });
    assert!(asked.is_empty());
    assert_eq!(status(&report), "local_ahead");
}

#[test]
fn branches_are_rebased_in_a_worktree_of_their_own() {
    let c = context(false, &trusting());
    let world = World { analysis: MergeAnalysis::Diverged, ..quiet() };
    let (asked, report) = run(&c, &world);
    assert_eq!(
        asked,
        [
            "add worktree for main",
            "rebase main onto origin/main in /aside",
            "push origin main",
            "remove /aside",
        ]
    );
    assert_eq!(status(&report), "synced");
    let (asked, report) = run(&c, &World { aside: None, ..world });
    assert_eq!(asked, ["add worktree for main"]);
    assert_eq!(status(&report), "diverged_yours");
    assert_eq!(
        report.state.unwrap().error_message.as_deref(),
        Some("diverged — no worktree to rebase in: no room")
    );
}

#[test]
fn made_worktrees_go_with_their_conflicts() {
    let world = |agent| World {
        analysis: MergeAnalysis::Diverged,
        rebase: false,
        agent,
        ..quiet()
    };
    let mut config = trusting();
    for policy in [OnConflict::Revert, OnConflict::Leave] {
        config.global.on_conflict = policy;
        let (asked, report) = run(&context(false, &config), &world(None));
        assert_eq!(
            asked,
            [
                "add worktree for main",
                "rebase main onto origin/main in /aside",
                "remove /aside",
            ]
        );
        assert_eq!(status(&report), "diverged_yours");
        assert_eq!(detail(&report), "rebase conflicts, reverted");
    }
    config.global.on_conflict = OnConflict::ResolveAgent;
    config.global.resolve_agent = Some("helper".into());
    let (asked, report) = run(&context(false, &config), &world(Some(true)));
    assert_eq!(
        asked[2..],
        ["agent helper in /aside", "push origin main", "remove /aside"]
    );
    assert_eq!(status(&report), "synced");
    let (asked, report) = run(&context(false, &config), &world(Some(false)));
    assert_eq!(asked.last().unwrap(), "remove /aside");
    assert_eq!(status(&report), "diverged_yours");
}
