use gitsitter::paths::{
    join_path, unix_socket_path, update_state_path, windows_pipe_path, PathEnv, Paths,
};
use gitsitter::self_update::{
    archive_name, cached_update_available, check_for_update, current_version, detect_target,
    download_url, is_newer, is_nix_managed, latest_release_url, record_check, self_update,
    CheckPlan, UpdateError, UpdatePlan, UpdateState,
};
use gitsitter::executor::Reply;
use gitsitter::service::{
    launchd_plist, run_service_dispatcher, systemd_unit, ServiceStep, SERVICE_NAME,
};
use gitsitter::shell::{
    detect_shell, generate_hook, install_hook, shell_config_path, supported_shells, uninstall_hook,
    ShellVar,
};

// --- Paths ---

fn path_env() -> PathEnv {
    PathEnv {
        config_override: None,
        config_dir: Some("/home/me/.config".into()),
        state_override: None,
        state_dir: Some("/home/me/.local/state".into()),
        data_local_dir: Some("/home/me/.local/share".into()),
        socket_override: None,
        platform_socket: "/run/user/7/gitsitter.sock".into(),
        separator: '/',
    }
}

#[test]
fn resolve_produces_absolute_paths() {
    let p = Paths::resolve(&path_env());
    assert!(p.config_file.starts_with('/'));
    assert!(p.socket_path.starts_with('/'));
}

#[test]
fn direct_construction() {
    let p = Paths {
        config_file: "/tmp/test/config.toml".into(),
        repos_file: "/tmp/test/repos.toml".into(),
        trusted_hosts_file: "/tmp/test/trusted_hosts".into(),
        daemon_log: "/tmp/test/daemon.log".into(),
        daemon_pid: "/tmp/test/daemon.pid".into(),
        socket_path: "/tmp/test/test.sock".into(),
    };
    assert_eq!(p.config_file.rsplit('/').next().unwrap(), "config.toml");
    assert_eq!(p.repos_file.rsplit('/').next().unwrap(), "repos.toml");
    assert_eq!(p.trusted_hosts_file.rsplit('/').next().unwrap(), "trusted_hosts");
    assert_eq!(p.daemon_log.rsplit('/').next().unwrap(), "daemon.log");
}

#[test]
fn platform_directories_hold_a_directory_of_ours() {
    let p = Paths::resolve(&path_env());
    assert_eq!(p.config_file, "/home/me/.config/gitsitter/config.toml");
    assert_eq!(p.repos_file, "/home/me/.config/gitsitter/repos.toml");
    assert_eq!(p.trusted_hosts_file, "/home/me/.config/gitsitter/trusted_hosts");
    assert_eq!(p.daemon_log, "/home/me/.local/state/gitsitter/daemon.log");
    assert_eq!(p.daemon_pid, "/home/me/.local/state/gitsitter/daemon.pid");
    assert_eq!(p.socket_path, "/run/user/7/gitsitter.sock");
    assert_eq!(
        update_state_path(&path_env()),
        "/home/me/.local/state/gitsitter/update_check.json"
    );
}

#[test]
fn overrides_go_first() {
    let env = PathEnv {
        config_override: Some("/c".into()),
        state_override: Some("/s/".into()),
        socket_override: Some("/x.sock".into()),
        ..path_env()
    };
    let p = Paths::resolve(&env);
    assert_eq!(p.config_file, "/c/gitsitter/config.toml");
    assert_eq!(p.daemon_log, "/s/gitsitter/daemon.log");
    assert_eq!(p.socket_path, "/x.sock");
    let no_state = PathEnv { state_dir: None, ..path_env() };
    assert_eq!(
        no_state.state_directory().as_deref(),
        Some("/home/me/.local/share/gitsitter")
    );
}

#[test]
fn sockets_and_pipes() {
    assert_eq!(unix_socket_path(Some("/run/user/1000"), 1000), "/run/user/1000/gitsitter.sock");
    assert_eq!(unix_socket_path(None, 1000), "/tmp/gitsitter-1000.sock");
    assert_eq!(windows_pipe_path(Some("jane doe")), r"\\.\pipe\gitsitter-jane_doe");
    assert_eq!(windows_pipe_path(Some("")), r"\\.\pipe\gitsitter-default");
    assert_eq!(windows_pipe_path(None), r"\\.\pipe\gitsitter-default");
    assert_eq!(join_path("a/", "b", '/'), "a/b");
}

// --- Versions ---

#[test]
fn test_is_newer() {
    assert!(is_newer("v0.2.0", "0.1.0"));
    assert!(is_newer("v1.0.0", "0.9.9"));
    assert!(is_newer("0.1.1", "0.1.0"));
    assert!(!is_newer("0.1.0", "0.1.0"));
    assert!(!is_newer("0.0.9", "0.1.0"));
    assert!(!is_newer("v0.1.0", "0.1.0"));
}

#[test]
fn test_is_nix_managed() {
    // current_exe in tests won't be in /nix/store
    assert!(!is_nix_managed(None));
    assert!(!is_nix_managed(Some("/usr/bin/gitsitter")));
    assert!(is_nix_managed(Some("/nix/store/abc/bin/gitsitter")));
}

#[test]
fn broken_versions_are_never_newer() {
    assert!(!is_newer("1.0", "0.1.0"));
    assert!(!is_newer("1.0.0-beta", "0.1.0"));
    assert!(!is_newer("1.0.0", "garbage"));
}

#[test]
fn checks_are_repeated_after_a_day() {
    let state = UpdateState { latest_version: "v9.0.0".into(), checked_at: 1000 };
    assert!(!state.is_stale(1000 + 86400));
    assert!(state.is_stale(1000 + 86401));
    assert!(!state.is_stale(10));
    assert_eq!(cached_update_available(Some(&state)).as_deref(), Some("v9.0.0"));
    assert_eq!(cached_update_available(None), None);
    assert!(matches!(check_for_update(Some(&state), 2000), CheckPlan::Known(Some(_))));
    assert!(matches!(check_for_update(Some(&state), 1000 + 86401), CheckPlan::Fetch));
    assert!(matches!(check_for_update(None, 2000), CheckPlan::Fetch));
    let (saved, offer) = record_check("v0.0.1", 5);
    assert_eq!(saved.checked_at, 5);
    assert_eq!(saved.latest_version, "v0.0.1");
    assert_eq!(offer, None);
}

#[test]
fn targets_and_archives() {
    assert_eq!(detect_target("x86_64", "linux").unwrap(), "x86_64-unknown-linux-gnu");
    assert_eq!(detect_target("aarch64", "macos").unwrap(), "aarch64-apple-darwin");
    assert_eq!(
        detect_target("mips", "linux"),
        Err(UpdateError::UnsupportedArchitecture("mips".into()))
    );
    assert_eq!(detect_target("x86_64", "plan9"), Err(UpdateError::UnsupportedOs("plan9".into())));
    assert_eq!(archive_name("t"), "gitsitter-t.tar.gz");
    assert!(latest_release_url().ends_with("/releases/latest"));
    assert!(download_url("v1.0.0", "a.tar.gz").ends_with("/releases/download/v1.0.0/a.tar.gz"));
    assert_eq!(
        UpdateError::UnsupportedOs("plan9".into()).message(),
        "unsupported OS: plan9"
    );
}

#[test]
fn self_update_plans() {
    assert_eq!(current_version(), "0.1.0");
    assert!(matches!(
        self_update(Some("/nix/store/x"), "v9.0.0", "x86_64", "linux"),
        Err(UpdateError::NixManaged)
    ));
    assert!(matches!(
        self_update(None, "v0.1.0", "x86_64", "linux"),
        Ok(UpdatePlan::UpToDate)
    ));
    match self_update(None, "v9.0.0", "x86_64", "linux") {
        Ok(UpdatePlan::Download { url, archive }) => {
            assert_eq!(archive, "gitsitter-x86_64-unknown-linux-gnu.tar.gz");
            assert!(url.ends_with("/v9.0.0/gitsitter-x86_64-unknown-linux-gnu.tar.gz"));
        }
        other => panic!("unexpected plan {:?}", other),
    }
}

// --- Shells ---

#[test]
fn supported_shells_has_three() {
    let shells = supported_shells();
    assert_eq!(shells.len(), 5);
    assert!(shells.contains(&"bash"));
    assert!(shells.contains(&"zsh"));
    assert!(shells.contains(&"fish"));
    assert!(shells.contains(&"powershell"));
    assert!(shells.contains(&"pwsh"));
}

#[test]
fn generate_hook_bash() {
    let hook = generate_hook("bash").unwrap();
    assert!(hook.contains("__gitsitter_hook"));
    assert!(hook.contains("PROMPT_COMMAND"));
}

#[test]
fn generate_hook_zsh() {
    let hook = generate_hook("zsh").unwrap();
    assert!(hook.contains("__gitsitter_hook"));
    assert!(hook.contains("precmd_functions"));
}

#[test]
fn generate_hook_fish() {
    let hook = generate_hook("fish").unwrap();
    assert!(hook.contains("__gitsitter_hook"));
    assert!(hook.contains("fish_prompt"));
}

#[test]
fn generate_hook_powershell() {
    let hook = generate_hook("powershell").unwrap();
    assert!(hook.contains("__gitsitter_hook"));
    assert!(hook.contains("function global:prompt"));
}

#[test]
fn generate_hook_unsupported() {
    assert!(generate_hook("nushell").is_err());
}

#[test]
fn shell_config_path_bash() {
    let path = shell_config_path("bash").unwrap();
    assert_eq!(path.last().unwrap(), ".bashrc");
}

#[test]
fn shell_config_path_zsh() {
    let path = shell_config_path("zsh").unwrap();
    assert_eq!(path.last().unwrap(), ".zshrc");
}

#[test]
fn shell_config_path_fish() {
    let path = shell_config_path("fish").unwrap();
    assert_eq!(path.last().unwrap(), "config.fish");
    assert_eq!(path[path.len() - 2], "fish");
}

#[test]
fn shell_config_path_powershell() {
    let path = shell_config_path("powershell").unwrap();
    assert_eq!(path.last().unwrap(), "Microsoft.PowerShell_profile.ps1");
}

#[test]
fn shell_config_path_unsupported() {
    assert!(shell_config_path("nushell").is_err());
}

#[test]
fn detect_shell_from_env() {
    let named = |name: &str| detect_shell(&ShellVar::Name(name.to_string()), false, None);
    assert_eq!(named("zsh"), Some("zsh".to_string()));
    assert_eq!(named("bash"), Some("bash".to_string()));
    assert_eq!(named("fish"), Some("fish".to_string()));
    assert_eq!(named("sh"), None);
    assert_eq!(
        detect_shell(&ShellVar::Name("sh".to_string()), true, Some("C:\\Modules")),
        Some("powershell".to_string())
    );
    assert_eq!(detect_shell(&ShellVar::Unset, false, Some("C:\\Modules")), None);
    assert_eq!(detect_shell(&ShellVar::Nameless, true, Some("C:\\Modules")), None);
}

#[test]
fn install_and_uninstall_hook() {
    let existing = "# existing config\nexport PATH=$HOME/bin:$PATH\n";
    let hook_script = generate_hook("bash").unwrap();
    assert!(!existing.contains("__gitsitter_hook"));

    let content = install_hook(existing, &hook_script);
    assert!(content.contains("__gitsitter_hook"));
    assert!(content.contains("# >>> gitsitter hook >>>"));
    assert!(content.contains("# <<< gitsitter hook <<<"));
    // Original content preserved
    assert!(content.contains("export PATH=$HOME/bin:$PATH"));

    let after = uninstall_hook(&content);
    assert!(!after.contains("__gitsitter_hook"));
    assert!(!after.contains("# >>> gitsitter hook >>>"));
    // Original content still there
    assert!(after.contains("export PATH=$HOME/bin:$PATH"));
    assert_eq!(after, existing);
}

#[test]
fn installing_again_updates_in_place() {
    let old = install_hook("before\n", "echo old");
    let new = install_hook(&format!("{old}after\n"), "echo new");
    assert!(!new.contains("echo old"));
    assert!(new.contains("echo new"));
    assert!(new.starts_with("before\n"));
    assert!(new.ends_with("after\n"));
    assert_eq!(new.matches("# >>> gitsitter hook >>>").count(), 1);
    assert_eq!(uninstall_hook("nothing here\n"), "nothing here\n");
}

#[test]
fn a_hook_without_markers_is_left_alone() {
    let hook = generate_hook("zsh").unwrap();
    for existing in [
        "source ~/x\n__gitsitter_hook\n",
        "# >>> gitsitter hook >>>\n__gitsitter_hook() { :; }\n",
    ] {
        assert_eq!(install_hook(existing, &hook), existing);
    }
}

// --- The service ---

#[test]
fn service_files_hold_the_program_and_its_path() {
    assert_eq!(SERVICE_NAME, "gitsitter");
    let unit = systemd_unit("/opt/gitsitter", "/usr/bin:/opt/bin");
    assert!(unit.contains("ExecStart=/opt/gitsitter daemon run\n"));
    assert!(unit.contains("Environment=PATH=/usr/bin:/opt/bin\n"));
    let plist = launchd_plist("/opt/gitsitter", "/var/log/g", "/usr/bin");
    assert!(plist.contains("<string>/opt/gitsitter</string><string>daemon</string>"));
    assert!(plist.contains("<string>/var/log/g/daemon.err</string>"));
    assert!(plist.contains("<key>PATH</key><string>/usr/bin</string>"));
}

#[test]
fn only_windows_has_a_service_dispatcher() {
    match run_service_dispatcher(false, &Reply::Got(())) {
        ServiceStep::Fail { message } => {
            assert_eq!(message, "Windows service mode is only available on Windows");
        }
        other => panic!("unexpected step {:?}", other),
    }
    assert!(matches!(run_service_dispatcher(true, &Reply::Pending), ServiceStep::Dispatch));
    assert!(matches!(run_service_dispatcher(true, &Reply::Got(())), ServiceStep::Done));
    match run_service_dispatcher(true, &Reply::Failed("no".into())) {
        ServiceStep::Fail { message } => {
            assert_eq!(message, "failed to start Windows service dispatcher: no");
        }
        other => panic!("unexpected step {:?}", other),
    }
}
