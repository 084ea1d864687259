use gitsitter::clock::Duration;
use gitsitter::config::{
    check_nix_managed, extract_host, format_duration, is_duration_in_range, parse_duration,
    parse_opt_duration, Disabled, DurationError, EffectiveConflictAction, InRepoConfig, OnConflict,
    RawConfigToml, RepoConfig, UserConfig,
};
use gitsitter::hosts::{format_hosts, parse_hosts, HostSet};
use gitsitter::table::Table;

// --- Reading TOML into the library's types ---

fn duration_at(table: &toml::Table, key: &str) -> Option<Duration> {
    parse_opt_duration(table.get(key).and_then(|v| v.as_str())).unwrap()
}

fn text_at(table: &toml::Table, key: &str) -> Option<String> {
    table.get(key).and_then(|v| v.as_str()).map(|s| s.to_string())
}

fn flag_at(table: &toml::Table, key: &str) -> Option<bool> {
    table.get(key).and_then(|v| v.as_bool())
}

fn read_config(text: &str) -> RawConfigToml {
    let table: toml::Table = text.parse().unwrap();
    RawConfigToml {
        refresh_interval: duration_at(&table, "refresh_interval"),
        colors: flag_at(&table, "colors"),
        emoji: flag_at(&table, "emoji"),
        notification_cooldown: duration_at(&table, "notification_cooldown"),
        git_path: text_at(&table, "git_path"),
        watcher_debounce: duration_at(&table, "watcher_debounce"),
        on_conflict: text_at(&table, "on_conflict"),
        resolve_agent: text_at(&table, "resolve_agent"),
        resolve_agent_path: text_at(&table, "resolve_agent_path"),
    }
}

fn read_repos(text: &str) -> Table<RepoConfig> {
    let file: toml::Table = text.parse().unwrap();
    let mut repos = Table::new();
    for (path, value) in &file {
        let entry = value.as_table().unwrap();
        let disabled = match entry.get("disabled") {
            Some(toml::Value::Boolean(all)) => Some(Disabled::All(*all)),
            Some(toml::Value::Array(list)) => Some(Disabled::Remotes(
                list.iter().map(|v| v.as_str().unwrap().to_string()).collect(),
            )),
            _ => None,
        };
        repos.insert(
            path.to_string(),
            RepoConfig { refresh_interval: duration_at(entry, "refresh_interval"), disabled },
        );
    }
    repos
}

fn read_in_repo(text: &str) -> InRepoConfig {
    let table: toml::Table = text.parse().unwrap();
    InRepoConfig { refresh_interval: duration_at(&table, "refresh_interval") }
}

// --- Duration parsing ---

#[test]
fn parse_duration_seconds() {
    assert_eq!(parse_duration("30s").unwrap(), Duration::from_secs(30));
}

#[test]
fn parse_duration_minutes() {
    assert_eq!(parse_duration("5m").unwrap(), Duration::from_secs(300));
}

#[test]
fn parse_duration_hours() {
    assert_eq!(parse_duration("2h").unwrap(), Duration::from_secs(7200));
}

#[test]
fn parse_duration_milliseconds() {
    assert_eq!(parse_duration("500ms").unwrap(), Duration::from_millis(500));
}

#[test]
fn parse_duration_with_whitespace() {
    assert_eq!(parse_duration("  10s  ").unwrap(), Duration::from_secs(10));
}

#[test]
fn parse_duration_empty_fails() {
    assert!(parse_duration("").is_err());
}

#[test]
fn parse_duration_unknown_unit_fails() {
    assert!(parse_duration("10d").is_err());
}

#[test]
fn parse_duration_no_number_fails() {
    assert!(parse_duration("s").is_err());
}

#[test]
fn duration_errors_say_what_is_wrong() {
    assert_eq!(parse_duration("   "), Err(DurationError::Empty));
    assert_eq!(parse_duration("xs"), Err(DurationError::InvalidNumber));
    assert!(matches!(parse_duration("10d"), Err(DurationError::UnknownUnit(_))));
    assert_ne!(
        parse_duration("").unwrap_err().message(),
        parse_duration("xs").unwrap_err().message()
    );
}

#[test]
fn durations_out_of_range_are_told() {
    assert!(is_duration_in_range("5m"));
    assert!(is_duration_in_range("nonsense"));
    assert!(!is_duration_in_range("18446744073709551615h"));
    assert!(is_duration_in_range("10µ"));
    assert!(matches!(parse_duration("10µ"), Err(DurationError::UnknownUnit(_))));
}

// --- Duration formatting ---

#[test]
fn format_duration_seconds() {
    assert_eq!(format_duration(&Duration::from_secs(45)), "45s");
}

#[test]
fn format_duration_minutes() {
    assert_eq!(format_duration(&Duration::from_secs(120)), "2m");
}

#[test]
fn format_duration_hours() {
    assert_eq!(format_duration(&Duration::from_secs(7200)), "2h");
}

#[test]
fn format_duration_millis() {
    assert_eq!(format_duration(&Duration::from_millis(500)), "500ms");
}

#[test]
fn duration_roundtrip() {
    for input in &["30s", "5m", "2h", "100ms"] {
        let d = parse_duration(input).unwrap();
        let formatted = format_duration(&d);
        assert_eq!(&formatted, input);
    }
}

// --- Config files ---

#[test]
fn parse_config_toml_defaults() {
    let raw = read_config("");
    assert!(raw.refresh_interval.is_none());
    assert!(raw.colors.is_none());
}

#[test]
fn parse_config_toml_with_values() {
    let toml_str = r#"
        refresh_interval = "30s"
        colors = false
        emoji = false
        on_conflict = "revert"
    "#;
    let raw = read_config(toml_str);
    assert_eq!(raw.refresh_interval, Some(Duration::from_secs(30)));
    assert_eq!(raw.colors, Some(false));
    assert_eq!(raw.emoji, Some(false));
    assert_eq!(raw.on_conflict, Some("revert".to_string()));
}

#[test]
fn parse_repos_toml() {
    let toml_str = r#"
        ["/path/to/repo"]
        refresh_interval = "2m"

        ["/path/to/other"]
        disabled = true
    "#;
    let raw = read_repos(toml_str);
    assert_eq!(raw.len(), 2);
    assert_eq!(
        raw.get("/path/to/repo").unwrap().refresh_interval,
        Some(Duration::from_secs(120))
    );
    assert_eq!(raw.get("/path/to/other").unwrap().disabled, Some(Disabled::All(true)));
}

#[test]
fn parse_repos_disabled_remotes() {
    let toml_str = r#"
        ["/path/to/repo"]
        disabled = ["upstream", "fork"]
    "#;
    let raw = read_repos(toml_str);
    let disabled = raw.get("/path/to/repo").unwrap().disabled.as_ref().unwrap();
    assert_eq!(*disabled, Disabled::Remotes(vec!["upstream".into(), "fork".into()]));
}

#[test]
fn load_config_missing_files_gives_defaults() {
    let config = UserConfig::load(None, None, None);
    assert_eq!(config.global.refresh_interval, Duration::from_secs(60));
    assert!(config.trusted_hosts.is_empty());
    assert!(config.repos.is_empty());
}

#[test]
fn load_config_from_files() {
    let config = UserConfig::load(
        Some(read_config("refresh_interval = \"30s\"\ncolors = false\n")),
        Some("github.com\ngitlab.com\n"),
        Some(read_repos("[\"repo-a\"]\nrefresh_interval = \"5m\"\n")),
    );
    assert_eq!(config.global.refresh_interval, Duration::from_secs(30));
    assert!(!config.global.colors);
    assert!(config.trusted_hosts.contains("github.com"));
    assert!(config.trusted_hosts.contains("gitlab.com"));
    assert_eq!(
        config.repos.get("repo-a").unwrap().refresh_interval,
        Some(Duration::from_secs(300))
    );
}

#[test]
fn parse_flat_config_toml() {
    let config_toml = r#"
refresh_interval = "120s"
colors = false
emoji = false
notification_cooldown = "10m"
git_path = "/usr/bin/git"
"#;
    let repos_toml = r#"
["/home/user/project"]
refresh_interval = "30s"
disabled = false
"#;
    let cfg = UserConfig::load(
        Some(read_config(config_toml)),
        Some("github.com\nevil.example.com\n"),
        Some(read_repos(repos_toml)),
    );

    assert_eq!(cfg.global.refresh_interval, Duration::from_secs(120));
    assert!(!cfg.global.colors);
    assert!(!cfg.global.emoji);
    assert_eq!(cfg.global.notification_cooldown, Duration::from_secs(600));
    assert_eq!(cfg.global.git_path.as_deref(), Some("/usr/bin/git"));

    assert!(cfg.trusted_hosts.contains("github.com"));
    assert!(cfg.trusted_hosts.contains("evil.example.com"));

    let repo_cfg = cfg.repos.get("/home/user/project").unwrap();
    assert_eq!(repo_cfg.refresh_interval, Some(Duration::from_secs(30)));
    assert_eq!(repo_cfg.disabled, Some(Disabled::All(false)));
}

#[test]
fn parse_in_repo_config() {
    let irc = read_in_repo("\nrefresh_interval = \"5m\"\n");
    assert_eq!(irc.refresh_interval, Some(Duration::from_secs(300)));
}

#[test]
fn empty_config_uses_defaults() {
    let cfg = UserConfig::load(None, None, None);
    assert_eq!(cfg.global.refresh_interval, Duration::from_secs(60));
    assert!(cfg.global.colors);
    assert!(cfg.global.emoji);
    assert_eq!(cfg.global.notification_cooldown, Duration::from_secs(300));
    assert!(cfg.global.git_path.is_none());
    assert!(cfg.trusted_hosts.is_empty());
    assert!(cfg.repos.is_empty());
}

#[test]
fn duration_parsing_60s() {
    let irc = read_in_repo("refresh_interval = \"60s\"");
    assert_eq!(irc.refresh_interval, Some(Duration::from_secs(60)));
}

#[test]
fn duration_parsing_5m() {
    let irc = read_in_repo("refresh_interval = \"5m\"");
    assert_eq!(irc.refresh_interval, Some(Duration::from_secs(300)));
}

#[test]
fn duration_parsing_1h() {
    let irc = read_in_repo("refresh_interval = \"1h\"");
    assert_eq!(irc.refresh_interval, Some(Duration::from_secs(3600)));
}

#[test]
fn duration_parsing_500ms() {
    let irc = read_in_repo("refresh_interval = \"500ms\"");
    assert_eq!(irc.refresh_interval, Some(Duration::from_millis(500)));
}

// --- OnConflict ---

#[test]
fn on_conflict_from_str() {
    assert_eq!(OnConflict::from_str_opt(None), OnConflict::Auto);
    assert_eq!(OnConflict::from_str_opt(Some("revert")), OnConflict::Revert);
    assert_eq!(OnConflict::from_str_opt(Some("leave")), OnConflict::Leave);
    assert_eq!(OnConflict::from_str_opt(Some("resolve-agent")), OnConflict::ResolveAgent);
    assert_eq!(OnConflict::from_str_opt(Some("bogus")), OnConflict::Auto);
}

#[test]
fn on_conflict_effective_without_agent() {
    assert_eq!(OnConflict::Auto.effective(false), EffectiveConflictAction::Leave);
    assert_eq!(OnConflict::Revert.effective(false), EffectiveConflictAction::Revert);
    assert_eq!(OnConflict::ResolveAgent.effective(false), EffectiveConflictAction::Leave);
}

#[test]
fn on_conflict_effective_with_agent() {
    assert_eq!(OnConflict::Auto.effective(true), EffectiveConflictAction::ResolveAgent);
    assert_eq!(OnConflict::Revert.effective(true), EffectiveConflictAction::Revert);
    assert_eq!(OnConflict::ResolveAgent.effective(true), EffectiveConflictAction::ResolveAgent);
}

#[test]
fn policies_are_read_back_from_their_names() {
    for policy in [
        OnConflict::Auto,
        OnConflict::Revert,
        OnConflict::Leave,
        OnConflict::ResolveAgent,
    ] {
        assert_eq!(OnConflict::from_str_opt(Some(policy.to_str())), policy);
    }
}

// --- Disabled ---

#[test]
fn disabled_all() {
    let d = Disabled::All(true);
    assert!(d.is_repo_disabled());
    assert!(d.is_remote_disabled("origin"));
}

#[test]
fn disabled_none() {
    let d = Disabled::All(false);
    assert!(!d.is_repo_disabled());
    assert!(!d.is_remote_disabled("origin"));
}

#[test]
fn disabled_specific_remotes() {
    let d = Disabled::Remotes(vec!["upstream".into()]);
    assert!(!d.is_repo_disabled());
    assert!(!d.is_remote_disabled("origin"));
    assert!(d.is_remote_disabled("upstream"));
}

#[test]
fn disabled_remotes_are_listed() {
    let d = Disabled::Remotes(vec!["upstream".into(), "fork".into()]);
    assert_eq!(d.disabled_remotes(), ["upstream".to_string(), "fork".to_string()]);
    assert!(Disabled::All(true).disabled_remotes().is_empty());
}

#[test]
fn enabling_and_disabling_a_remote() {
    let mut entry = RepoConfig::default();
    entry.disable_remote("fork");
    entry.disable_remote("fork");
    assert_eq!(entry.disabled, Some(Disabled::Remotes(vec!["fork".into()])));
    entry.disable_remote("upstream");
    entry.enable_remote("fork");
    assert_eq!(entry.disabled, Some(Disabled::Remotes(vec!["upstream".into()])));
    entry.enable_remote("upstream");
    assert_eq!(entry.disabled, Some(Disabled::All(false)));
}

// --- Remote trust ---

#[test]
fn empty_url_is_trusted() {
    let config = UserConfig::default();
    assert!(config.is_remote_trusted(""));
}

#[test]
fn file_url_is_trusted() {
    let config = UserConfig::default();
    assert!(config.is_remote_trusted("file:///path/to/repo"));
}

#[test]
fn untrusted_host() {
    let config = UserConfig::default();
    assert!(!config.is_remote_trusted("https://github.com/user/repo"));
}

#[test]
fn trusted_host() {
    let mut config = UserConfig::default();
    config.trusted_hosts.insert("github.com".to_string());
    assert!(config.is_remote_trusted("https://github.com/user/repo"));
    assert!(config.is_remote_trusted("git@github.com:user/repo.git"));
}

#[test]
fn no_default_trusted_hosts() {
    let cfg = UserConfig::default();
    assert!(!cfg.is_host_trusted("github.com"));
    assert!(cfg.trusted_hosts.is_empty());
}

#[test]
fn trusted_hosts_from_file() {
    let cfg = UserConfig::load(None, Some("github.com\ngitlab.com\n"), None);
    assert!(cfg.is_host_trusted("github.com"));
    assert!(cfg.is_host_trusted("gitlab.com"));
    assert!(!cfg.is_host_trusted("evil.example.com"));
}

#[test]
fn unknown_host_untrusted() {
    let cfg = UserConfig::default();
    assert!(!cfg.is_host_trusted("evil.example.com"));
    assert!(!cfg.is_host_trusted("my-private-git.local"));
}

#[test]
fn untrusted_remote_detected() {
    let cfg = UserConfig::load(None, Some("github.com\n"), None);
    assert!(!cfg.is_remote_trusted("git@evil.example.com:user/repo.git"));
    assert!(cfg.is_remote_trusted("git@github.com:user/repo.git"));
    assert!(cfg.is_remote_trusted("")); // no remote = trusted
    assert!(cfg.is_remote_trusted("file:///local/path")); // local = trusted
}

#[test]
fn repo_disabled() {
    let mut cfg = UserConfig::default();
    cfg.repos.insert(
        "/home/user/repo".to_string(),
        RepoConfig { disabled: Some(Disabled::All(true)), ..Default::default() },
    );
    assert!(cfg.is_repo_disabled("/home/user/repo"));
    assert!(!cfg.is_repo_disabled("/home/user/other"));
}

#[test]
fn remote_disabled() {
    let mut cfg = UserConfig::default();
    cfg.repos.insert(
        "/home/user/repo".to_string(),
        RepoConfig {
            disabled: Some(Disabled::Remotes(vec!["upstream".to_string()])),
            ..Default::default()
        },
    );
    assert!(cfg.is_remote_disabled("/home/user/repo", "upstream"));
    assert!(!cfg.is_remote_disabled("/home/user/repo", "origin"));
    assert!(!cfg.is_repo_disabled("/home/user/repo"));
}

#[test]
fn trust_and_untrust_round_trip() {
    let file = UserConfig::trust(None, "github.com");
    let file = UserConfig::trust(Some(&file), "gitlab.com");

    let cfg = UserConfig::load(None, Some(&file), None);
    assert!(cfg.is_host_trusted("github.com"));
    assert!(cfg.is_host_trusted("gitlab.com"));

    let file = UserConfig::untrust(Some(&file), "github.com");

    let cfg = UserConfig::load(None, Some(&file), None);
    assert!(!cfg.is_host_trusted("github.com"));
    assert!(cfg.is_host_trusted("gitlab.com"));
}

#[test]
fn update_repo_and_remove_round_trip() {
    let mut repos = Table::new();
    let mut repo = UserConfig::repo_entry(&repos, "/home/user/project");
    repo.refresh_interval = Some(Duration::from_secs(30));
    UserConfig::update_repo(&mut repos, "/home/user/project", repo);

    let mut cfg = UserConfig::load(None, None, Some(repos));
    let repo = cfg.repos.get("/home/user/project").unwrap();
    assert_eq!(repo.refresh_interval, Some(Duration::from_secs(30)));

    UserConfig::remove_repo(&mut cfg.repos, "/home/user/project");
    assert!(!cfg.repos.contains_key("/home/user/project"));
}

// --- Hosts ---

#[test]
fn host_file_is_sorted_and_read_back() {
    let hosts = parse_hosts("# mine\n  gitlab.com  \n\ngithub.com\ngitlab.com\n");
    assert_eq!(hosts.len(), 2);
    assert_eq!(hosts.at(0), "github.com");
    assert_eq!(hosts.at(1), "gitlab.com");
    let again = parse_hosts(&format_hosts(&hosts));
    assert_eq!(again.len(), 2);
    assert!(again.contains("github.com") && again.contains("gitlab.com"));
}

#[test]
fn host_set_says_what_changed() {
    let mut hosts = HostSet::new();
    assert!(hosts.insert("b".to_string()));
    assert!(!hosts.insert("b".to_string()));
    assert!(hosts.insert("a".to_string()));
    assert!(hosts.remove("b"));
    assert!(!hosts.remove("b"));
    assert_eq!(hosts.at(0), "a");
}

// --- Refresh interval priority ---

#[test]
fn effective_refresh_interval_defaults() {
    let config = UserConfig::default();
    assert_eq!(
        config.effective_refresh_interval("some/repo", None),
        Duration::from_secs(60)
    );
}

#[test]
fn effective_refresh_interval_in_repo_overrides_global() {
    let config = UserConfig::default();
    let in_repo = InRepoConfig { refresh_interval: Some(Duration::from_secs(30)) };
    assert_eq!(
        config.effective_refresh_interval("some/repo", Some(&in_repo)),
        Duration::from_secs(30)
    );
}

#[test]
fn effective_refresh_interval_user_overrides_in_repo() {
    let mut config = UserConfig::default();
    config.repos.insert(
        "some/repo".to_string(),
        RepoConfig { refresh_interval: Some(Duration::from_secs(10)), ..Default::default() },
    );
    let in_repo = InRepoConfig { refresh_interval: Some(Duration::from_secs(30)) };
    // User per-repo (10s) should win over in-repo (30s)
    assert_eq!(
        config.effective_refresh_interval("some/repo", Some(&in_repo)),
        Duration::from_secs(10)
    );
}

// --- extract_host ---

#[test]
fn config_extract_host_https() {
    assert_eq!(extract_host("https://github.com/user/repo"), Some("github.com".into()));
}

#[test]
fn config_extract_host_ssh_scheme() {
    assert_eq!(extract_host("ssh://git@github.com/user/repo"), Some("github.com".into()));
}

#[test]
fn extract_host_scp() {
    assert_eq!(extract_host("git@github.com:user/repo.git"), Some("github.com".into()));
}

#[test]
fn extract_host_git_scheme() {
    assert_eq!(extract_host("git://example.com/repo"), Some("example.com".into()));
}

#[test]
fn extract_host_ssh_scp_style() {
    let host = extract_host("git@github.com:user/repo.git");
    assert_eq!(host.as_deref(), Some("github.com"));
}

#[test]
fn integration_extract_host_https() {
    let host = extract_host("https://github.com/user/repo.git");
    assert_eq!(host.as_deref(), Some("github.com"));
}

#[test]
fn integration_extract_host_ssh_scheme() {
    let host = extract_host("ssh://git@github.com/user/repo.git");
    assert_eq!(host.as_deref(), Some("github.com"));
}

#[test]
fn hosts_hold_neither_port_nor_path() {
    assert_eq!(extract_host("https://example.com:8443/a/b"), Some("example.com".into()));
    assert_eq!(extract_host("/local/path"), None);
    assert_eq!(extract_host("https:///nothing"), None);
}

// --- Files managed by nix ---

#[test]
fn nix_managed_files_are_not_edited() {
    assert_eq!(check_nix_managed("/c/config.toml", None), Ok(()));
    assert_eq!(check_nix_managed("/c/config.toml", Some("/home/me/config.toml")), Ok(()));
    assert_eq!(
        check_nix_managed("/c/config.toml", Some("/nix/store/abc-config.toml")),
        Err("/c/config.toml is managed by nix (symlink to /nix/store/abc-config.toml). \
             Edit your nix configuration instead."
            .to_string())
    );
}
