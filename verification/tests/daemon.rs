use gitsitter::clock::Duration;
use gitsitter::config::{Disabled, InRepoConfig, RepoConfig, UserConfig};
use gitsitter::cycle::{canonical_branches, due_repos, remotes_to_fetch};
use gitsitter::daemon::{
    display_path_label, display_repo_label, repo_log_label, BackoffState, BranchRuntimeState,
    TrackedRepo,
};
use gitsitter::git_ops::RepoBranch;
use gitsitter::requests::{
    build_status_data, handle_daemon_status, handle_global_status, handle_prompt_check,
    handle_reload_config, handle_shutdown, handle_status, handle_sync, mark_newly_registered,
    reload_config, sync_all_reply, sync_one_reply, sync_resolved, PromptPlan, RepoProbe, SyncPlan,
};
use gitsitter::table::Table;
use gitsitter::transport::{Response, SyncEvent};

fn at(secs: u64) -> Duration {
    Duration::from_secs(secs)
}

fn urls(pairs: &[(&str, &str)]) -> Table<String> {
    let mut table = Table::new();
    for (name, url) in pairs {
        table.insert(name.to_string(), url.to_string());
    }
    table
}

fn watched(id: &str) -> TrackedRepo {
    TrackedRepo::new(
        id.to_string(),
        format!("{id}-shown"),
        urls(&[("origin", "git@github.com:o/r.git"), ("fork", "https://evil.example/r")]),
    )
}

fn branch(name: &str, remote: &str, remote_ref: &str) -> RepoBranch {
    RepoBranch {
        name: name.into(),
        local_oid: "1".into(),
        upstream_name: Some(format!("{remote}/{remote_ref}")),
        remote_oid: Some("2".into()),
        is_head: false,
        remote: remote.into(),
        remote_ref: remote_ref.into(),
    }
}

fn state(status: &str) -> BranchRuntimeState {
    BranchRuntimeState {
        sync_status: status.into(),
        last_pull_at: None,
        last_push_at: Some("pushed".into()),
        local_oid: None,
        remote_oid: None,
        error_message: None,
    }
}

fn trusting(hosts: &str) -> UserConfig {
    UserConfig::load(None, Some(hosts), None)
}

// --- Backoff ---

#[test]
fn fetch_backoff_doubles_up_to_an_hour() {
    let mut b = BackoffState::new();
    assert!(!b.should_skip_fetch(at(0)));
    let expected = [30, 60, 120, 240, 480, 960, 1920, 3600, 3600, 3600];
    for secs in expected {
        b.record_fetch_failure(at(1000));
        assert!(b.should_skip_fetch(at(1000 + secs - 1)));
        assert!(!b.should_skip_fetch(at(1000 + secs)));
    }
    b.reset_fetch_backoff();
    assert!(!b.should_skip_fetch(at(1000)));
    b.record_fetch_failure(at(2000));
    assert!(!b.should_skip_fetch(at(2030)));
}

#[test]
fn push_backoff_is_per_ref() {
    let mut b = BackoffState::new();
    b.record_push_failure("refs/heads/a", at(10));
    assert!(b.should_skip_push("refs/heads/a", at(39)));
    assert!(!b.should_skip_push("refs/heads/a", at(40)));
    assert!(!b.should_skip_push("refs/heads/b", at(11)));
    b.record_push_failure("refs/heads/a", at(50));
    assert!(b.should_skip_push("refs/heads/a", at(109)));
    b.reset_push_backoff("refs/heads/a");
    assert!(!b.should_skip_push("refs/heads/a", at(51)));
}

// --- When to sync ---

#[test]
fn repos_are_due_after_their_interval() {
    let config = UserConfig::default();
    let mut repo = watched("/a");
    assert!(repo.is_due(&config, None, at(5)));
    assert_eq!(repo.finish_sync(at(10), "noon"), None);
    assert_eq!(repo.last_sync_wall.as_deref(), Some("noon"));
    assert!(!repo.is_due(&config, None, at(69)));
    assert!(repo.is_due(&config, None, at(70)));
    let in_repo = InRepoConfig { refresh_interval: Some(at(5)) };
    assert!(repo.is_due(&config, Some(&in_repo), at(15)));
    repo.request_sync("ref update (main)".into());
    assert!(repo.is_due(&config, None, at(11)));
    assert_eq!(repo.finish_sync(at(12), "later").as_deref(), Some("ref update (main)"));
}

#[test]
fn a_repo_is_synced_once_at_a_time() {
    let config = UserConfig::default();
    let mut repo = watched("/a");
    assert!(repo.begin_sync());
    assert!(!repo.begin_sync());
    assert!(!repo.is_due(&config, None, at(5)));
    repo.end_sync();
    assert!(repo.begin_sync());
}

#[test]
fn refused_syncs_wait_for_the_next_interval() {
    let config = UserConfig::default();
    let mut repo = watched("/a");
    assert!(repo.admit_sync(true, &vec!["HEAD".into()], &config, at(5)));
    assert_eq!(repo.last_sync, None);
    assert!(!repo.admit_sync(true, &vec!["rebase-merge".into()], &config, at(6)));
    assert_eq!(repo.last_sync, Some(at(6)));
    assert!(!repo.admit_sync(false, &vec![], &config, at(7)));
}

#[test]
fn disabled_repos_are_never_due() {
    let mut config = UserConfig::default();
    config.repos.insert(
        "/b".into(),
        RepoConfig { disabled: Some(Disabled::All(true)), ..Default::default() },
    );
    let mut repos = Table::new();
    repos.insert("/a".to_string(), watched("/a"));
    repos.insert("/b".to_string(), watched("/b"));
    assert_eq!(due_repos(&repos, &config, &vec![None, None], at(1)), ["/a"]);
}

#[test]
fn notifications_cool_down() {
    let mut repo = watched("/a");
    assert!(repo.should_notify("k", at(300), at(10)));
    repo.record_notification("k", at(10));
    assert!(!repo.should_notify("k", at(300), at(309)));
    assert!(repo.should_notify("k", at(300), at(310)));
    assert!(repo.should_notify("other", at(300), at(11)));
}

// --- Fetching ---

#[test]
fn only_trusted_remotes_are_fetched() {
    let repo = watched("/a");
    let branches = vec![branch("main", "origin", "main"), branch("x", "fork", "x")];
    let config = trusting("github.com\n");
    assert_eq!(remotes_to_fetch(&branches, &config, "/a", &repo.remote_urls), ["origin"]);
    assert_eq!(
        remotes_to_fetch(&branches, &trusting("github.com\nevil.example\n"), "/a", &repo.remote_urls),
        ["origin", "fork"]
    );
    assert!(remotes_to_fetch(&branches, &trusting(""), "/a", &repo.remote_urls).is_empty());
}

#[test]
fn fetches_are_recorded() {
    let mut repo = watched("/a");
    let config = trusting("github.com\n");
    let branches = vec![branch("main", "origin", "main")];
    assert_eq!(repo.plan_fetch(&branches, &config, at(1)), Some(vec!["origin".to_string()]));
    let remotes = vec!["origin".to_string()];
    assert_eq!(repo.record_fetch(&remotes, &vec![false], at(1)), None);
    assert_eq!(repo.plan_fetch(&branches, &config, at(2)), None);
    assert_eq!(
        repo.record_fetch(&remotes, &vec![true], at(40)),
        Some(SyncEvent::Fetch { remotes: vec!["origin".into()] })
    );
    assert!(repo.plan_fetch(&branches, &config, at(41)).is_some());
}

#[test]
fn one_branch_stands_for_a_remote_ref() {
    let branches = vec![
        branch("copy", "origin", "main"),
        branch("main", "origin", "main"),
        branch("topic", "origin", "topic"),
        branch("a", "origin", "shared"),
        branch("b", "origin", "shared"),
    ];
    assert_eq!(canonical_branches(&branches), [1, 2]);
}

// --- Answers ---

#[test]
fn status_names_what_does_not_sync() {
    let mut repo = watched("/a");
    repo.set_branch("main", state("diverged"));
    let mut config = trusting("github.com\n");
    config.repos.insert(
        "/a".into(),
        RepoConfig {
            disabled: Some(Disabled::Remotes(vec!["origin".into()])),
            ..Default::default()
        },
    );
    let data = build_status_data(&repo, &config, &vec![branch("main", "origin", "main")]);
    assert_eq!(data.untrusted_remotes, ["fork"]);
    assert_eq!(data.untrusted_hosts, ["evil.example"]);
    assert_eq!(data.disabled_remotes, ["origin"]);
    assert_eq!(data.branches[0].upstream.as_deref(), Some("origin/main"));
    assert_eq!(data.branches[0].last_action.as_deref(), Some("pushed"));
    assert!(!data.newly_registered);
    let marked = mark_newly_registered(Response::Status { data });
    assert!(matches!(marked, Response::Status { data } if data.newly_registered));
}

#[test]
fn status_requests_are_answered() {
    let config = UserConfig::default();
    let mut repos = Table::new();
    repos.insert("/a".to_string(), watched("/a"));
    let ok = Ok("/a".to_string());
    let other = Ok("/zzz".to_string());
    let bad = Err("no repo".to_string());
    assert!(matches!(
        handle_status(&repos, &config, Some("."), &ok, &vec![]),
        Response::Status { .. }
    ));
    assert!(matches!(
        handle_status(&repos, &config, Some("."), &other, &vec![]),
        Response::Error { message } if message == "repo not registered: ."
    ));
    assert!(matches!(
        handle_status(&repos, &config, Some("."), &bad, &vec![]),
        Response::Error { message } if message == "failed to resolve repo: no repo"
    ));
    assert!(matches!(
        handle_status(&repos, &config, None, &ok, &vec![]),
        Response::Error { message } if message == "repo_path is required for non-global status"
    ));
}

#[test]
fn summaries_count_branches() {
    let mut repos = Table::new();
    let mut a = watched("/a");
    a.set_branch("x", state("synced"));
    a.set_branch("y", state("up_to_date"));
    let mut b = watched("/b");
    b.set_branch("x", state("synced"));
    b.set_branch("y", state("diverged"));
    repos.insert("/a".to_string(), a);
    repos.insert("/b".to_string(), b);
    match handle_global_status(&repos, &UserConfig::default()) {
        Response::GlobalStatus { repos } => {
            assert_eq!(repos[0].status_summary, "2 synced");
            assert_eq!(repos[1].status_summary, "1/2 diverged");
        }
        other => panic!("unexpected response {:?}", other),
    }
}

#[test]
fn sync_requests_are_planned() {
    let config = UserConfig::default();
    let mut repos = Table::new();
    repos.insert("/a".to_string(), watched("/a"));
    assert!(matches!(handle_sync(&repos, None, true), SyncPlan::All(ids) if ids == ["/a"]));
    assert!(matches!(handle_sync(&repos, Some("."), false), SyncPlan::Resolve(p) if p == "."));
    assert!(matches!(
        handle_sync(&repos, None, false),
        SyncPlan::Reply(Response::Error { message })
            if message == "repo_path required when --all is not set"
    ));
    assert!(matches!(
        sync_resolved(&repos, ".", &Ok("/a".into())),
        SyncPlan::One(id) if id == "/a"
    ));
    assert!(matches!(sync_resolved(&repos, ".", &Ok("/b".into())), SyncPlan::Reply(_)));
    assert!(matches!(
        sync_all_reply(3),
        Response::Done { message } if message == "synced 3 repos"
    ));
    assert!(matches!(
        sync_one_reply(&repos, &config, ".", "/a", Ok(vec![]), &vec![]),
        Response::SyncComplete { .. }
    ));
    assert!(matches!(
        sync_one_reply(&repos, &config, ".", "/gone", Ok(vec![]), &vec![]),
        Response::Done { message } if message == "synced ."
    ));
    assert!(matches!(
        sync_one_reply(&repos, &config, ".", "/a", Err("boom".into()), &vec![]),
        Response::Error { message } if message == "sync failed: boom"
    ));
}

#[test]
fn prompts_register_new_repos() {
    let mut repos = Table::new();
    repos.insert("/a".to_string(), watched("/a"));
    assert!(matches!(handle_prompt_check(&repos, &Ok("/a".into())), PromptPlan::Known(_)));
    assert!(matches!(handle_prompt_check(&repos, &Ok("/b".into())), PromptPlan::Register(_)));
    assert!(matches!(
        handle_prompt_check(&repos, &Err("x".into())),
        PromptPlan::Reply(Response::Error { message }) if message == "not a git repository"
    ));
}

#[test]
fn reloading_keeps_and_drops_repos() {
    let mut repos = Table::new();
    let mut kept = watched("/a");
    kept.set_branch("main", state("synced"));
    repos.insert("/a".to_string(), kept);
    repos.insert("/gone".to_string(), watched("/gone"));
    let mut config = UserConfig::default();
    config.repos.insert("/a".into(), RepoConfig::default());
    config.repos.insert("/new".into(), RepoConfig::default());
    config.repos.insert(
        "/off".into(),
        RepoConfig { disabled: Some(Disabled::All(true)), ..Default::default() },
    );
    let probe = |path: Option<&str>| RepoProbe {
        display_path: path.map(|p| p.to_string()),
        remote_urls: None,
    };
    let probes = vec![probe(Some("/a/shown")), probe(Some("/new/shown")), probe(None)];
    let gone = reload_config(&mut repos, &config, &probes);
    assert_eq!(gone, ["/gone"]);
    assert_eq!(repos.len(), 2);
    assert!(repos.get("/a").unwrap().branches.contains_key("main"));
    assert_eq!(repos.get("/new").unwrap().display_path, "/new/shown");
    assert!(!repos.contains_key("/off"));
    assert!(reload_config(&mut repos, &config, &probes).is_empty());
    assert!(repos.get("/a").unwrap().branches.contains_key("main"));
}

#[test]
fn the_daemon_tells_of_itself() {
    let mut repos = Table::new();
    repos.insert("/a".to_string(), watched("/a"));
    match handle_daemon_status(7, at(100), at(3700), &repos, &Some("v9".into())) {
        Response::DaemonStatus { pid, uptime_secs, repos_watched, latest_version } => {
            assert_eq!((pid, uptime_secs, repos_watched), (7, 3600, 1));
            assert_eq!(latest_version.as_deref(), Some("v9"));
        }
        other => panic!("unexpected response {:?}", other),
    }
    assert!(matches!(
        handle_reload_config(),
        Response::Done { message } if message == "config reloaded"
    ));
    assert!(matches!(handle_shutdown(), Response::Done { message } if message == "shutting down"));
}

// --- Labels ---

#[test]
fn labels_are_plain_paths() {
    assert_eq!(display_repo_label("/home/me/r/.git/"), "/home/me/r/.git");
    assert_eq!(repo_log_label("/home/me/r/.git"), "/home/me/r/.git");
    assert_eq!(display_path_label(r"\\?\C:\r"), "C:/r");
    let mut repo = watched("/a");
    assert_eq!(repo.primary_remote_url(), "git@github.com:o/r.git");
    repo.refresh_urls(urls(&[]));
    assert_eq!(repo.primary_remote_url(), "");
}
