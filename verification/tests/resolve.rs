use gitsitter::executor::{AgentResult, Reply};
use gitsitter::git_ops::MergeAnalysis;
use gitsitter::prompt::handle_prompt;
use gitsitter::resolve::{
    agent_report, choice_of, find_issue, handle_resolve, issue_title, next_resolve_step,
    IssueContext, IssueKind, ResolveAnswers, ResolvePlan, ResolveTask,
};
use gitsitter::table::Table;
use gitsitter::transport::{BranchStatusData, StatusData};

fn context(kind: IssueKind) -> IssueContext {
    IssueContext {
        kind,
        branch: "topic".into(),
        upstream: Some("fork/feature/topic".into()),
        agent: None,
    }
}

/// Runs an issue to the end. Each task is answered by `answer`. Gives back what
/// was printed and what was done.
fn run(
    c: &IssueContext,
    answer: fn(&ResolveTask, &mut ResolveAnswers),
) -> (Vec<String>, Vec<String>) {
    let mut a = ResolveAnswers::new();
    let mut printed = Vec::new();
    let mut done = Vec::new();
    for _ in 0..20 {
        let step = next_resolve_step(c, &a);
        printed.extend(step.lines);
        match step.task {
            None => return (printed, done),
            Some(task) => {
                done.push(format!("{:?}", task));
                answer(&task, &mut a);
            }
        }
    }
    panic!("no end in sight")
}

fn smooth(task: &ResolveTask, a: &mut ResolveAnswers) {
    match task {
        ResolveTask::Choose { .. } => a.choice = Reply::Got(1),
        ResolveTask::AskName => a.name = Reply::Got("rescue".into()),
        ResolveTask::CreateBranch { .. } => a.create = Reply::Got(true),
        ResolveTask::ResetBranch { .. } => a.reset = Reply::Got(()),
        ResolveTask::Push { .. } => a.push = Reply::Got(true),
        ResolveTask::Rebase { .. } => a.rebase = Reply::Got(true),
        ResolveTask::AbortRebase => a.abort = Reply::Got(()),
        ResolveTask::Stash => a.stash = Reply::Got(true),
        ResolveTask::Analyze { .. } => a.analysis = Reply::Got(MergeAnalysis::FastForward),
        ResolveTask::FastForward { .. } => a.fast_forward = Reply::Got(()),
        ResolveTask::StashPop => a.pop = Reply::Got(true),
        ResolveTask::RunAgent { .. } => {
            a.agent = Reply::Got(AgentResult { completed: true, agent_output: String::new() })
        }
    }
}

fn second(task: &ResolveTask, a: &mut ResolveAnswers) {
    match task {
        ResolveTask::Choose { .. } => a.choice = Reply::Got(2),
        other => smooth(other, a),
    }
}

fn skip(task: &ResolveTask, a: &mut ResolveAnswers) {
    match task {
        ResolveTask::Choose { max } => a.choice = Reply::Got(*max),
        other => panic!("nothing else is asked for: {:?}", other),
    }
}

fn rough(task: &ResolveTask, a: &mut ResolveAnswers) {
    match task {
        ResolveTask::Push { .. } => a.push = Reply::Got(false),
        ResolveTask::Rebase { .. } => a.rebase = Reply::Got(false),
        ResolveTask::Analyze { .. } => a.analysis = Reply::Got(MergeAnalysis::Diverged),
        ResolveTask::StashPop => a.pop = Reply::Got(false),
        ResolveTask::CreateBranch { .. } => a.create = Reply::Got(false),
        other => smooth(other, a),
    }
}

#[test]
fn issues_are_found_by_status() {
    assert_eq!(find_issue("local_ahead").unwrap().0, IssueKind::LocalAhead);
    assert_eq!(find_issue("diverged").unwrap().0, IssueKind::Diverged);
    assert_eq!(find_issue("diverged_yours").unwrap().0, IssueKind::Diverged);
    assert_eq!(find_issue("pending_dirty").unwrap().0, IssueKind::Dirty);
    assert_eq!(find_issue("merge_conflict").unwrap().0, IssueKind::Conflict);
    for status in ["push_rejected", "auth_failed", "network_error", "push_blocked_hook_timeout"] {
        assert_eq!(find_issue(status).unwrap().0, IssueKind::LocalAhead);
    }
    assert_eq!(
        find_issue("push_rejected"),
        Some((IssueKind::LocalAhead, "push rejected by the remote"))
    );
    assert_eq!(find_issue("upstream_gone"), Some((IssueKind::Notice, "upstream ref deleted")));
    assert_eq!(find_issue("error"), Some((IssueKind::Notice, "sync error")));
    for status in ["history_rewritten_remote_unchanged", "history_rewritten_remote_advanced"] {
        assert_eq!(find_issue(status).unwrap().0, IssueKind::Notice);
    }
    assert_eq!(find_issue("synced"), None);
    assert_eq!(find_issue("up_to_date"), None);
    let b = BranchStatusData {
        name: "topic".into(),
        upstream: None,
        status: "diverged".into(),
        last_action: None,
    };
    assert_eq!(
        issue_title(&b, "~/r", "diverged"),
        "~/r: topic \u{2194} upstream — diverged"
    );
}

fn repo(statuses: &[&str]) -> StatusData {
    StatusData {
        repo_id: "/r/.git".into(),
        display_path: "/r".into(),
        last_sync: None,
        branches: statuses
            .iter()
            .map(|status| BranchStatusData {
                name: "topic".into(),
                upstream: None,
                status: status.to_string(),
                last_action: None,
            })
            .collect(),
        untrusted_remotes: vec![],
        untrusted_hosts: vec![],
        disabled_remotes: vec![],
        remote_urls: Table::new(),
        newly_registered: false,
    }
}

#[test]
fn issues_are_told_at_the_prompt() {
    for status in ["local_ahead", "diverged", "diverged_yours", "pending_dirty", "merge_conflict"] {
        assert!(find_issue(status).is_some());
        assert_eq!(handle_prompt(&repo(&[status]), "~/r").len(), 2);
    }
}

#[test]
fn every_branch_out_of_sync_is_presented() {
    let plan = handle_resolve(&vec![repo(&["synced", "push_rejected"]), repo(&["upstream_gone"])]);
    match plan {
        ResolvePlan::Issues(issues) => {
            let found: Vec<_> = issues.iter().map(|i| (i.repo, i.branch, i.kind, i.text)).collect();
            assert_eq!(
                found,
                [
                    (0, 1, IssueKind::LocalAhead, "push rejected by the remote"),
                    (1, 0, IssueKind::Notice, "upstream ref deleted"),
                ]
            );
        }
        other => panic!("unexpected plan {:?}", other),
    }
    match handle_resolve(&vec![repo(&["synced", "up_to_date"])]) {
        ResolvePlan::Nothing { line } => {
            assert_eq!(line, "No issues to resolve. All branches are in sync.");
        }
        other => panic!("unexpected plan {:?}", other),
    }
}

#[test]
fn choices_are_numbers_from_the_menu() {
    assert_eq!(choice_of(" 2 \n", 3), Some(2));
    assert_eq!(choice_of("4", 3), None);
    assert_eq!(choice_of("0", 3), None);
    assert_eq!(choice_of("two", 3), None);
}

#[test]
fn unpushed_commits_are_pushed() {
    let (printed, done) = run(&context(IssueKind::LocalAhead), smooth);
    assert_eq!(printed.last().unwrap(), "  \u{2713} Pushed topic");
    assert_eq!(
        done[1],
        "Push { remote: \"fork\", branch: \"topic\", remote_ref: \"feature/topic\" }"
    );
    let (printed, _) = run(&context(IssueKind::LocalAhead), rough);
    assert_eq!(printed.last().unwrap(), "  Push failed. Resolve manually.");
}

#[test]
fn commits_move_to_a_new_branch() {
    let (printed, done) = run(&context(IssueKind::LocalAhead), second);
    assert_eq!(printed.last().unwrap(), "  \u{2713} Created branch rescue");
    assert_eq!(
        done[1..],
        [
            "AskName".to_string(),
            "CreateBranch { name: \"rescue\" }".to_string(),
            "ResetBranch { branch: \"topic\", to: \"fork/feature/topic\" }".to_string(),
        ]
    );
    let (_, done) = run(&context(IssueKind::Diverged), second);
    assert_eq!(done.len(), 3);
    let unnamed = |task: &ResolveTask, a: &mut ResolveAnswers| match task {
        ResolveTask::AskName => a.name = Reply::Got(String::new()),
        other => second(other, a),
    };
    let (printed, done) = run(&context(IssueKind::LocalAhead), unnamed);
    assert_eq!(printed.len(), 3);
    assert_eq!(done.len(), 2);
}

#[test]
fn diverged_branches_are_rebased() {
    let (printed, done) = run(&context(IssueKind::Diverged), smooth);
    assert_eq!(printed.last().unwrap(), "  \u{2713} Rebased and pushed topic");
    assert_eq!(done[1], "Rebase { branch: \"topic\", onto: \"fork/feature/topic\" }");
    let (printed, done) = run(&context(IssueKind::Diverged), rough);
    assert_eq!(
        printed.last().unwrap(),
        "  Rebase had conflicts and was aborted. Resolve manually."
    );
    assert_eq!(done.last().unwrap(), "AbortRebase");
}

#[test]
fn stashes_come_back() {
    let (printed, done) = run(&context(IssueKind::Dirty), smooth);
    assert_eq!(done.last().unwrap(), "StashPop");
    assert_eq!(
        printed[2..],
        [
            "  Stashed working changes.".to_string(),
            "  \u{2713} Synced and restored working changes".to_string(),
        ]
    );
    assert!(done.contains(&"FastForward { to: \"fork/topic\" }".to_string()));
    let (printed, done) = run(&context(IssueKind::Dirty), rough);
    assert_eq!(
        done[1..],
        [
            "Stash".to_string(),
            "Analyze { branch: \"topic\" }".to_string(),
            "Rebase { branch: \"topic\", onto: \"fork/topic\" }".to_string(),
            "AbortRebase".to_string(),
            "StashPop".to_string(),
        ]
    );
    assert_eq!(
        printed.last().unwrap(),
        "  Sync failed and stash pop has conflicts. Resolve manually."
    );
    let clean = |task: &ResolveTask, a: &mut ResolveAnswers| match task {
        ResolveTask::Stash => a.stash = Reply::Got(false),
        other => smooth(other, a),
    };
    let (printed, done) = run(&context(IssueKind::Dirty), clean);
    assert_eq!(printed.last().unwrap(), "  Nothing to stash — worktree already clean.");
    assert_eq!(done.last().unwrap(), "Stash");
}

#[test]
fn conflicts_go_to_the_agent() {
    let mut c = context(IssueKind::Conflict);
    let (printed, done) = run(&c, smooth);
    assert_eq!(done.last().unwrap(), "AbortRebase");
    assert_eq!(printed.last().unwrap(), "  Rebase aborted.");
    c.agent = Some("helper".into());
    let (printed, done) = run(&c, smooth);
    assert_eq!(done.last().unwrap(), "RunAgent { agent: \"helper\" }");
    assert_eq!(
        printed[3..],
        [
            "  Running resolve agent 'helper'...".to_string(),
            "  \u{2713} Conflicts resolved by agent".to_string(),
        ]
    );
}

#[test]
fn agents_are_reported_on() {
    let partial = Reply::Got(AgentResult {
        completed: false,
        agent_output: "1\n2\n3\n4\n5\n6\n7\n".into(),
    });
    assert_eq!(
        agent_report(&partial),
        [
            "  Agent did not fully resolve conflicts.",
            "  | 3",
            "  | 4",
            "  | 5",
            "  | 6",
            "  | 7",
            "  Finish resolving manually, then `git rebase --continue`.",
        ]
    );
    assert_eq!(agent_report(&Reply::Failed("boom".into()))[0], "  Resolve agent failed: boom");
    assert!(agent_report(&Reply::Pending).is_empty());
}

#[test]
fn skipping_does_nothing() {
    for kind in [
        IssueKind::LocalAhead,
        IssueKind::Diverged,
        IssueKind::Dirty,
        IssueKind::Conflict,
        IssueKind::Notice,
    ] {
        let (printed, done) = run(&context(kind), skip);
        assert_eq!(printed.last().unwrap(), "  Skipped.");
        assert_eq!(done.len(), 1);
    }
}
