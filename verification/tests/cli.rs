use gitsitter::cli::{
    build_daemon_path, display_path, handle_auto_resolve, handle_disable, handle_enable,
    handle_install, handle_log, handle_register, handle_uninstall, host_line, load_display_opts,
    log_files, remote_line, repo_line, resolve_remote_target, tool_path, update_hint, AutoResolve,
    LogPlan, Setup,
};
use gitsitter::cli_config::handle_config;
use gitsitter::cli_status::{
    branch_line, event_line, global_status_table, global_title, handle_daemon_status, handle_sync,
    offline_rows, offline_status_lines, online_rows, print_repo_status,
    print_untrusted_remote_warnings, read_state, reply_complaint,
};
use gitsitter::cli_ui::{
    branch_status_icon, branch_status_label, branch_status_styled, celebrate_icon, daemon_warning,
    header_line, pause_icon, print_daemon_warning, repo_header, success_icon, sync_pair,
    warning_icon, DisplayOpts,
};
use gitsitter::clock::Duration;
use gitsitter::config::{Disabled, RepoConfig, UserConfig};
use gitsitter::executor::Reply;
use gitsitter::lifecycle::{
    handle_daemon_start, handle_daemon_stop, launchd_install_lines, launchd_removal,
    systemd_install_lines, systemd_removal, wait_for_daemon_ready, windows_install_lines,
    windows_removal_line, Platform, Poll, StartAnswers, StartContext, StartStep,
};
use gitsitter::prompt::handle_prompt;
use gitsitter::sync::{ActionError, BranchState};
use gitsitter::table::Table;
use gitsitter::timestamp::{parse_stamp, Stamp};
use gitsitter::transport::{BranchStatusData, RepoStatusData, Response, StatusData, SyncEvent};

const PLAIN: DisplayOpts = DisplayOpts { emoji: false, colors: false };
const EMOJI: DisplayOpts = DisplayOpts { emoji: true, colors: false };
const COLORS: DisplayOpts = DisplayOpts { emoji: false, colors: true };

fn now() -> Stamp {
    parse_stamp("2024-01-15T12:30:30Z").unwrap()
}

fn urls(pairs: &[(&str, &str)]) -> Table<String> {
    let mut table = Table::new();
    for (name, url) in pairs {
        table.insert(name.to_string(), url.to_string());
    }
    table
}

fn line(name: &str, status: &str) -> BranchStatusData {
    BranchStatusData {
        name: name.into(),
        upstream: Some(format!("origin/{name}")),
        status: status.into(),
        last_action: None,
    }
}

fn status(branches: Vec<BranchStatusData>) -> StatusData {
    StatusData {
        repo_id: "/home/me/r/.git".into(),
        display_path: "/home/me/r".into(),
        last_sync: Some("2024-01-15T12:30:00Z".into()),
        branches,
        untrusted_remotes: vec!["fork".into()],
        untrusted_hosts: vec!["evil.example".into()],
        disabled_remotes: vec!["old".into()],
        remote_urls: urls(&[
            ("origin", "git@github.com:o/r.git"),
            ("fork", "https://evil.example/r"),
            ("old", "git@github.com:o/old.git"),
        ]),
        newly_registered: false,
    }
}

// --- Display helpers ---

#[test]
fn headers_icons_and_pairs() {
    assert_eq!(repo_header("~/r", EMOJI), "\u{1F4E6} ~/r");
    assert_eq!(repo_header("~/r", PLAIN), "~/r");
    assert_eq!(header_line("X", true), "\u{1F4E6} X");
    assert_eq!(
        daemon_warning(PLAIN),
        "! Daemon is not running \u{2014} start with: gitsitter daemon start"
    );
    assert_eq!(print_daemon_warning(true, PLAIN), None);
    assert!(print_daemon_warning(false, EMOJI).unwrap().starts_with("  \u{26A0} Daemon"));
    assert_eq!(success_icon(PLAIN), "\u{2713}");
    assert_eq!((celebrate_icon(EMOJI), celebrate_icon(PLAIN)), ("\u{1F389}", "+"));
    assert_eq!((pause_icon(EMOJI), pause_icon(PLAIN)), ("\u{23F8}", "-"));
    assert_eq!((warning_icon(EMOJI), warning_icon(PLAIN)), ("\u{26A0}\u{FE0F}", "!"));
    assert_eq!(sync_pair("main", "origin/main"), "main \u{2194} origin/main");
}

#[test]
fn states_are_shown() {
    assert_eq!(branch_status_icon(&BranchState::Synced, EMOJI), "\u{2705}");
    assert_eq!(branch_status_icon(&BranchState::MergeConflict, PLAIN), "conflict");
    assert_eq!(branch_status_label(&BranchState::Diverged), "diverged (resolve manually)");
    assert_eq!(branch_status_styled(&BranchState::UpstreamGone, PLAIN), "upstream gone");
    assert_eq!(read_state("pending_dirty"), BranchState::DirtyWorktree);
    assert_eq!(read_state("mystery"), BranchState::Failed(ActionError::Other));
}

#[test]
fn colors_stand_around_the_text() {
    let shown = repo_header("~/r", COLORS);
    assert!(shown == "\u{1b}[38;5;12m~/r\u{1b}[39m" || shown == "\u{1b}[m~/r\u{1b}[m");
    let label = branch_status_styled(&BranchState::MergeConflict, COLORS);
    assert!(
        label == "\u{1b}[38;5;9mmerge conflict\u{1b}[39m"
            || label == "\u{1b}[mmerge conflict\u{1b}[m"
    );
    assert_ne!(label, branch_status_styled(&BranchState::MergeConflict, PLAIN));
}

#[test]
fn display_options_come_from_the_config() {
    let mut config = UserConfig::default();
    config.global.emoji = false;
    let opts = load_display_opts(Some(&config));
    assert!(!opts.emoji && opts.colors);
    let opts = load_display_opts(None);
    assert!(opts.emoji && opts.colors);
}

#[test]
fn home_is_written_short() {
    assert_eq!(display_path("/home/me/r", Some("/home/me")), "~/r");
    assert_eq!(display_path("/srv/r", Some("/home/me")), "/srv/r");
    assert_eq!(display_path("/srv/r", None), "/srv/r");
    assert_eq!(
        update_hint(Some("v9"), false).unwrap(),
        "\ngitsitter v9 available (current: v0.1.0), run `gitsitter self-update`"
    );
    assert_eq!(update_hint(Some("v9"), true), None);
    assert_eq!(update_hint(None, false), None);
}

// --- Enabling and disabling ---

#[test]
fn targets_are_resolved() {
    let one = urls(&[("origin", "u")]);
    let two = urls(&[("origin", "u"), ("fork", "v")]);
    assert_eq!(resolve_remote_target(Some("fork"), true, &two, "enable"), Ok(None));
    assert_eq!(
        resolve_remote_target(Some("fork"), false, &two, "enable"),
        Ok(Some("fork".into()))
    );
    assert_eq!(
        resolve_remote_target(Some("nope"), false, &two, "enable"),
        Err("remote 'nope' not found in this repo".into())
    );
    assert_eq!(resolve_remote_target(None, false, &one, "enable"), Ok(Some("origin".into())));
    assert_eq!(
        resolve_remote_target(None, false, &two, "disable"),
        Err("multiple remotes found: origin, fork. Specify a remote name or use --all:\n  \
             gitsitter disable <remote>\n  gitsitter disable --all"
            .into())
    );
}

#[test]
fn enabling_undoes_disabling() {
    let two = urls(&[("origin", "u"), ("fork", "v")]);
    let mut config = UserConfig::default();
    handle_register(&mut config, "/r");
    assert!(config.repos.contains_key("/r"));
    assert_eq!(
        handle_disable(&mut config, "/r", Some("fork"), false, false, &two),
        Ok(Some("fork".into()))
    );
    assert!(config.is_remote_disabled("/r", "fork"));
    assert!(!config.is_remote_disabled("/r", "origin"));
    assert_eq!(
        handle_enable(&mut config, "/r", Some("fork"), false, &two),
        Ok(Some("fork".into()))
    );
    assert!(!config.is_remote_disabled("/r", "fork"));
    assert_eq!(handle_disable(&mut config, "/r", None, true, false, &two), Ok(None));
    assert!(config.is_repo_disabled("/r"));
    assert_eq!(
        handle_enable(&mut config, "/r", Some("fork"), false, &two),
        Err("repo is fully disabled — run `gitsitter enable --all` first".into())
    );
    assert_eq!(
        handle_disable(&mut config, "/r", Some("fork"), false, false, &two),
        Err("repo is already fully disabled".into())
    );
    assert_eq!(handle_enable(&mut config, "/r", None, true, &two), Ok(None));
    assert!(!config.is_repo_disabled("/r"));
    assert_eq!(handle_disable(&mut config, "/r", None, true, true, &two), Ok(None));
    assert!(!config.repos.contains_key("/r"));
}

#[test]
fn a_single_remote_needs_no_name() {
    let one = urls(&[("origin", "u")]);
    let mut config = UserConfig::default();
    handle_register(&mut config, "/r");
    assert_eq!(
        handle_disable(&mut config, "/r", None, false, false, &one),
        Ok(Some("origin".into()))
    );
    assert!(config.is_remote_disabled("/r", "origin"));
    assert!(!config.is_repo_disabled("/r"));
    assert_eq!(
        handle_enable(&mut config, "/r", None, false, &one),
        Ok(Some("origin".into()))
    );
    assert!(!config.is_remote_disabled("/r", "origin"));
    // A repo that is fully disabled is enabled and disabled as a whole.
    assert_eq!(handle_disable(&mut config, "/r", None, true, false, &one), Ok(None));
    assert_eq!(handle_disable(&mut config, "/r", None, false, false, &one), Ok(None));
    assert!(config.is_repo_disabled("/r"));
    assert_eq!(
        handle_enable(&mut config, "/r", Some("origin"), false, &one),
        Err("repo is fully disabled — run `gitsitter enable --all` first".into())
    );
    assert_eq!(
        handle_disable(&mut config, "/r", Some("origin"), false, false, &one),
        Err("repo is already fully disabled".into())
    );
    assert_eq!(handle_enable(&mut config, "/r", None, false, &one), Ok(None));
    assert!(!config.is_repo_disabled("/r"));
    assert!(!config.is_remote_disabled("/r", "origin"));
    // A purge takes the repo out all the same.
    assert_eq!(handle_disable(&mut config, "/r", None, false, true, &one), Ok(None));
    assert!(!config.repos.contains_key("/r"));
}

#[test]
fn changes_are_confirmed() {
    assert_eq!(remote_line("-", "Disabled", "fork"), "- Disabled remote 'fork'");
    assert_eq!(repo_line("+", "Registered", "~/r"), "+ Registered ~/r");
    assert_eq!(host_line("-", "Untrusted", "h"), "- Untrusted host 'h'");
}

// --- Status ---

#[test]
fn branch_lines_are_aligned() {
    let mut b = line("main", "synced");
    assert_eq!(
        branch_line(&b, "synced", PLAIN),
        format!("  {:<32} {}  {}{}", "main \u{2194} origin/main", "synced", "synced", "")
    );
    b.last_action = Some("then".into());
    b.upstream = None;
    assert_eq!(
        branch_line(&b, "L", PLAIN),
        format!("  {:<32} {}  {}{}", "main \u{2194} (no upstream)", "synced", "L", ", then")
    );
    let long = line("a-rather-long-name-of-a-branch", "diverged");
    assert!(branch_line(&long, "L", PLAIN)
        .ends_with("origin/a-rather-long-name-of-a-branch diverged  L"));
}

#[test]
fn repo_status_is_printed() {
    let lines = print_repo_status(&status(vec![line("main", "synced")]), "~/r", now(), PLAIN);
    assert_eq!(lines[0], "");
    assert_eq!(lines[1], "~/r  synced 30s ago");
    assert_eq!(lines[2], "");
    assert!(lines[3].ends_with(" synced  synced"));
    assert_eq!(
        lines[4..],
        [
            "".to_string(),
            "  Remotes:".to_string(),
            "    origin  git@github.com:o/r.git".to_string(),
            "    fork  https://evil.example/r  ! untrusted \u{2014} run 'gitsitter trust evil.example'"
                .to_string(),
            "    old  git@github.com:o/old.git  ! disabled".to_string(),
            "".to_string(),
        ]
    );
    let mut bare = status(vec![]);
    bare.remote_urls = Table::new();
    bare.last_sync = None;
    assert_eq!(
        print_repo_status(&bare, "~/r", now(), PLAIN),
        ["", "~/r  never synced", "", ""]
    );
    assert_eq!(offline_status_lines("~/r")[1], "~/r");
}

#[test]
fn all_repos_are_listed() {
    assert_eq!(global_status_table(), ["Repo", "Last Sync", "Status"]);
    let mut config = UserConfig::default();
    config.repos.insert("/home/me/a".into(), RepoConfig::default());
    config.repos.insert(
        "/b".into(),
        RepoConfig { disabled: Some(Disabled::All(true)), ..Default::default() },
    );
    let rows = offline_rows(&config, Some("/home/me"));
    assert_eq!((rows[0].path.as_str(), rows[0].sync.as_str()), ("~/a", "never synced"));
    assert_eq!(rows[1].sync, "never synced, disabled");
    let repos = vec![RepoStatusData {
        display_path: "/b".into(),
        status_summary: "1 synced".into(),
        last_sync: Some("2024-01-15T12:30:00Z".into()),
    }];
    let rows = online_rows(&repos, None, now());
    assert_eq!(rows[0].sync, "synced 30s ago");
    assert_eq!(rows[0].status, "1 synced");
    assert_eq!(global_title(0, true), "No repos being watched.");
    assert_eq!(global_title(0, false), "No repos registered.");
    assert_eq!(global_title(4, true), "Watched repositories (4 total)");
    assert_eq!(global_title(4, false), "Watched repositories (daemon not running)");
}

#[test]
fn remotes_that_do_not_sync_are_warned_of() {
    let mut config = UserConfig::load(None, Some("github.com\n"), None);
    config.repos.insert(
        "/r".into(),
        RepoConfig {
            disabled: Some(Disabled::Remotes(vec!["origin".into()])),
            ..Default::default()
        },
    );
    let all = urls(&[("origin", "git@github.com:o/r.git"), ("fork", "https://evil.example/r")]);
    assert_eq!(
        print_untrusted_remote_warnings(&all, &config, "/r", PLAIN),
        [
            "  ! remote 'origin' is disabled",
            "  ! remote 'fork' (evil.example) is not trusted — won't sync",
            "  Add with: gitsitter trust evil.example",
        ]
    );
    let config = UserConfig::load(None, Some("github.com\nevil.example\n"), None);
    assert!(print_untrusted_remote_warnings(&all, &config, "/r", PLAIN).is_empty());
}

#[test]
fn daemon_status_is_printed() {
    assert_eq!(
        handle_daemon_status(12345, 9000, 4, None),
        [
            "\u{2713} Daemon is running",
            "  PID:           12345",
            "  Uptime:        2h 30m",
            "  Repos watched: 4",
        ]
    );
    let lines = handle_daemon_status(1, 1, 1, Some("v9"));
    assert_eq!(lines[5], "  Update available: v9 (current: v0.1.0)");
    assert_eq!(reply_complaint(&Response::Error { message: "x".into() }), "error: x");
    assert_eq!(
        reply_complaint(&Response::Done { message: "x".into() }),
        "unexpected response from daemon"
    );
}

#[test]
fn sync_replies_are_printed() {
    let done = Response::Done { message: "x".into() };
    assert_eq!(handle_sync(&done, Some("~/r")), Ok(vec!["\u{2713} Synced ~/r".to_string()]));
    assert_eq!(handle_sync(&done, None), Ok(vec!["\u{2713} Synced all repos".to_string()]));
    let complete = Response::SyncComplete {
        data: status(vec![]),
        events: vec![
            SyncEvent::Fetch { remotes: vec!["origin".into(), "fork".into()] },
            SyncEvent::Branch {
                branch: "main".into(),
                analysis: "FastForward".into(),
                sync_action: "FastForwardMerge".into(),
                rewrite: None,
                status: "synced".into(),
                detail: "fast-forwarded".into(),
            },
        ],
    };
    assert_eq!(
        handle_sync(&complete, Some("~/r")),
        Ok(vec![
            "fetched origin, fork".to_string(),
            "main: FastForward → FastForwardMerge → fast-forwarded [synced]".to_string(),
        ])
    );
    assert_eq!(
        event_line(&SyncEvent::Branch {
            branch: "main".into(),
            analysis: "Diverged".into(),
            sync_action: "Diverged".into(),
            rewrite: Some("None".into()),
            status: "diverged_yours".into(),
            detail: "diverged — holding for manual resolution".into(),
        }),
        "main: Diverged → Diverged (rewrite: None) → diverged — holding for manual resolution \
         [diverged_yours]"
    );
    assert_eq!(
        handle_sync(&Response::Error { message: "x".into() }, None),
        Err("error: x".into())
    );
    assert_eq!(
        handle_sync(&Response::GlobalStatus { repos: vec![] }, None),
        Err("unexpected response".into())
    );
}

// --- The prompt ---

#[test]
fn the_prompt_tells_of_issues() {
    assert!(handle_prompt(&status(vec![line("main", "synced")]), "~/r").is_empty());
    let lines = handle_prompt(
        &status(vec![
            line("a", "local_ahead"),
            line("b", "synced"),
            line("c", "auth_failed"),
            line("d", "pending_dirty"),
        ]),
        "~/r",
    );
    assert_eq!(
        lines,
        [
            "gitsitter: \u{1F4E6} ~/r a \u{2194} origin/a has unpushed changes (last remote commit by someone else)",
            "gitsitter: \u{1F4E6} ~/r c \u{2194} origin/c sync error (auth failed)",
            "gitsitter: \u{270F}\u{FE0F} ~/r d \u{2194} origin/d dirty worktree \u{2014} commit or stash to sync",
            "gitsitter: Run `gitsitter resolve` to resolve issues",
        ]
    );
}

#[test]
fn the_prompt_greets_new_repos() {
    let mut data = status(vec![]);
    data.newly_registered = true;
    assert_eq!(
        handle_prompt(&data, "~/r"),
        [
            "gitsitter: Registered repo \u{1F4E6} ~/r, syncing tracking branches on origin, fork, old",
            "gitsitter: \u{26A0}\u{FE0F} remote 'fork' at https://evil.example/r not trusted \u{2014} run 'gitsitter trust evil.example' to enable syncing",
        ]
    );
    data.remote_urls = Table::new();
    let lines = handle_prompt(&data, "~/r");
    assert!(lines[0].ends_with("~/r, syncing tracking branches"));
    assert!(lines[1].contains("'fork' at ? not trusted"));
}

// --- The config ---

#[test]
fn the_config_is_printed() {
    let mut config = UserConfig::load(None, Some("gitlab.com\ngithub.com\n"), None);
    config.global.git_path = Some("/usr/bin/git".into());
    config.repos.insert(
        "/home/me/a".into(),
        RepoConfig {
            refresh_interval: Some(Duration::from_millis(1500)),
            disabled: Some(Disabled::Remotes(vec!["fork".into()])),
        },
    );
    config.repos.insert(
        "/b".into(),
        RepoConfig { disabled: Some(Disabled::All(true)), ..Default::default() },
    );
    assert_eq!(
        handle_config(&config, Some("/home/me"), Some("/b"), "/c/config.toml"),
        [
            "Global settings:",
            "  refresh_interval: 60s",
            "  colors: true",
            "  emoji: true",
            "  notification_cooldown: 300s",
            "  git_path: /usr/bin/git",
            "",
            "Trusted hosts:",
            "  github.com",
            "  gitlab.com",
            "",
            "Per-repo overrides:",
            "  ~/a:",
            "    disabled remotes: [\"fork\"]",
            "    refresh_interval: 1.5s",
            "  /b: ←",
            "    disabled: true",
            "",
            "Config file: /c/config.toml",
        ]
    );
    assert_eq!(handle_config(&UserConfig::default(), None, None, "f").len(), 8);
}

// --- Logs, agents and installation ---

#[test]
fn logs_are_found_in_order() {
    let names: Vec<String> = ["daemon.log.2024-01-02", "x", "daemon.log.2024-01-01", "daemon.pid"]
        .iter()
        .map(|s| s.to_string())
        .collect();
    assert_eq!(log_files(&names), ["daemon.log.2024-01-01", "daemon.log.2024-01-02"]);
    assert!(matches!(handle_log(&vec!["x".into()], false, false, None), LogPlan::Missing));
    match handle_log(&names, false, true, Some("/r/.git/")) {
        LogPlan::Follow { file, filter } => {
            assert_eq!(file, "daemon.log.2024-01-02");
            assert_eq!(filter.as_deref(), Some("/r/.git"));
        }
        other => panic!("unexpected plan {:?}", other),
    }
    match handle_log(&names, true, false, Some("/r/.git/")) {
        LogPlan::Page { files, filter } => {
            assert_eq!(files.len(), 2);
            assert_eq!(filter, None);
        }
        other => panic!("unexpected plan {:?}", other),
    }
}

#[test]
fn agents_are_chosen() {
    assert!(matches!(
        handle_auto_resolve(false, Some("a"), None),
        AutoResolve::Nothing { line } if line == "No rebase conflicts in progress."
    ));
    assert!(matches!(
        handle_auto_resolve(true, Some("a"), Some("b")),
        AutoResolve::Run { agent } if agent == "b"
    ));
    assert!(matches!(
        handle_auto_resolve(true, Some("a"), None),
        AutoResolve::Run { agent } if agent == "a"
    ));
    assert!(matches!(handle_auto_resolve(true, None, None), AutoResolve::Refuse { .. }));
}

#[test]
fn components_are_installed() {
    assert!(matches!(
        handle_install(None, None, Some("zsh")),
        Ok(Setup::Both { shell }) if shell == "zsh"
    ));
    assert!(matches!(
        handle_install(Some("hooks"), Some("fish"), Some("zsh")),
        Ok(Setup::Shell { shell }) if shell == "fish"
    ));
    assert!(matches!(handle_install(Some("daemon"), None, None), Ok(Setup::Daemon)));
    assert_eq!(
        handle_install(Some("shell"), None, None).unwrap_err(),
        "could not detect shell, specify with: gitsitter install shell <name>"
    );
    assert_eq!(
        handle_install(Some("x"), None, None).unwrap_err(),
        "unknown component: x. Use 'shell', 'daemon', or 'all'"
    );
    assert!(matches!(
        handle_uninstall(Some("shell"), None),
        Ok(Setup::Shell { shell }) if shell == "bash"
    ));
}

#[test]
fn the_daemon_finds_its_tools() {
    assert_eq!(tool_path("  /usr/bin/git \nmore\n"), "/usr/bin/git");
    assert_eq!(tool_path(""), "");
    let dirs: Vec<String> =
        ["/usr/bin", "/opt/bin", "/usr/bin"].iter().map(|s| s.to_string()).collect();
    assert_eq!(build_daemon_path(&dirs), "/usr/bin:/opt/bin");
    assert_eq!(build_daemon_path(&vec![]), "/usr/bin:/usr/local/bin");
}

// --- The life of the daemon ---

fn start_context(platform: Platform) -> StartContext {
    StartContext {
        platform,
        running: false,
        has_plist: true,
        daemon_log: "/s/daemon.log".into(),
    }
}

fn answers(manager: Reply<bool>, spawned: Reply<u32>, ready: Reply<bool>) -> StartAnswers {
    StartAnswers { manager, spawned, ready }
}

#[test]
fn the_service_manager_goes_first() {
    let c = start_context(Platform::Linux);
    let ask = handle_daemon_start(&c, &answers(Reply::Pending, Reply::Pending, Reply::Pending));
    assert!(matches!(ask, StartStep::AskManager));
    let wait = handle_daemon_start(&c, &answers(Reply::Got(true), Reply::Pending, Reply::Pending));
    assert!(matches!(wait, StartStep::Wait));
    let done =
        handle_daemon_start(&c, &answers(Reply::Got(true), Reply::Pending, Reply::Got(true)));
    assert!(
        matches!(done, StartStep::Done { line } if line == "\u{2713} Daemon started via systemd")
    );
    let fail =
        handle_daemon_start(&c, &answers(Reply::Got(true), Reply::Pending, Reply::Got(false)));
    assert!(matches!(fail, StartStep::Fail { message }
        if message == "systemd accepted the job, but the daemon socket did not appear"));
    let windows = handle_daemon_start(
        &start_context(Platform::Windows),
        &answers(Reply::Got(true), Reply::Pending, Reply::Pending),
    );
    assert!(matches!(windows, StartStep::Done { .. }));
}

#[test]
fn without_a_manager_the_daemon_is_spawned() {
    let c = start_context(Platform::Linux);
    let no = || Reply::Failed("no systemctl".to_string());
    assert!(matches!(
        handle_daemon_start(&c, &answers(no(), Reply::Pending, Reply::Pending)),
        StartStep::Spawn { warning: None }
    ));
    assert!(matches!(
        handle_daemon_start(
            &start_context(Platform::OtherUnix),
            &answers(Reply::Pending, Reply::Pending, Reply::Pending)
        ),
        StartStep::Spawn { warning: Some(_) }
    ));
    assert!(matches!(
        handle_daemon_start(&c, &answers(no(), Reply::Got(7), Reply::Got(true))),
        StartStep::Done { line } if line == "\u{2713} Daemon started, PID: 7"
    ));
    assert!(matches!(
        handle_daemon_start(&c, &answers(no(), Reply::Got(7), Reply::Got(false))),
        StartStep::Fail { message } if message == "spawned daemon process (PID: 7), but the \
            daemon socket did not appear; check /s/daemon.log"
    ));
    assert!(matches!(
        handle_daemon_start(&c, &answers(no(), Reply::Failed("x".into()), Reply::Pending)),
        StartStep::Fail { message } if message == "failed to spawn daemon process: x"
    ));
    let mut running = start_context(Platform::Linux);
    running.running = true;
    assert!(matches!(
        handle_daemon_start(&running, &answers(Reply::Pending, Reply::Pending, Reply::Pending)),
        StartStep::Done { line } if line == "\u{00B7} Daemon is already running"
    ));
}

#[test]
fn waiting_and_stopping() {
    let limit = Duration::from_secs(3);
    assert_eq!(wait_for_daemon_ready(Duration::from_secs(1), limit, false), Poll::Sleep);
    assert_eq!(wait_for_daemon_ready(Duration::from_secs(1), limit, true), Poll::Ready);
    assert_eq!(wait_for_daemon_ready(Duration::from_secs(3), limit, true), Poll::GiveUp);
    assert_eq!(handle_daemon_stop(false, false, None), Ok("\u{00B7} Daemon is not running".into()));
    assert_eq!(handle_daemon_stop(true, false, None), Ok("\u{2713} Daemon stopped".into()));
    assert_eq!(handle_daemon_stop(false, true, None), Ok("\u{2713} Daemon stopped".into()));
    assert_eq!(
        handle_daemon_stop(false, true, Some(&Response::Error { message: "x".into() })),
        Err("error: x".into())
    );
}

#[test]
fn services_are_installed_and_removed() {
    assert_eq!(
        systemd_install_lines("/u", "/bin", true),
        [
            "Systemd user service written to /u",
            "Daemon PATH: /bin",
            "systemd service enabled and started",
        ]
    );
    assert_eq!(
        launchd_install_lines("/p", "/bin", "gui/7", Some(" no \n"))[2..],
        [
            "launchctl bootstrap failed: no".to_string(),
            "Run manually: launchctl bootstrap gui/7 /p".to_string(),
        ]
    );
    assert_eq!(launchd_install_lines("/p", "/bin", "gui/7", None).len(), 3);
    assert_eq!(
        windows_install_lines(Some("denied\n")),
        Err("failed to create Windows service: denied".into())
    );
    assert_eq!(windows_install_lines(None).unwrap()[1], "Run: sc.exe start gitsitter");
    assert_eq!(windows_removal_line(None), "Windows service removed");
    assert_eq!(
        windows_removal_line(Some(" denied\n")),
        "Windows service removal failed: denied"
    );
    let removal = systemd_removal(true);
    assert!(removal.remove);
    assert_eq!(removal.after, "Systemd service file removed");
    assert_eq!(systemd_removal(false).after, "No systemd service file found");
    let removal = launchd_removal(true, &Reply::Got(Some(" busy ".into())));
    assert_eq!(removal.before, ["launchctl bootout: busy"]);
    assert_eq!(launchd_removal(false, &Reply::Pending).after, "No launchd plist found");
}
