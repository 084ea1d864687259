use gitsitter::clock::Duration;
use gitsitter::git_ops::RepoBranch;
use gitsitter::queries::{build_global_status, build_repo_status};
use gitsitter::state::{
    cooldown_elapsed, remove_stale_worktrees, should_notify, BranchState, CooldownError, RepoState,
};
use gitsitter::timestamp::{
    format_age, format_relative_time, format_uptime, later, parse_stamp, reaches, Stamp,
    FIRST_SECOND, LAST_SECOND,
};

fn stamp(secs: i64) -> Stamp {
    Stamp { secs, nanos: 0 }
}

// --- Points in time ---

#[test]
fn timestamps_are_read() {
    let t = parse_stamp("2024-01-15T12:30:00Z").unwrap();
    assert_eq!(t, stamp(1705321800));
    assert_eq!(parse_stamp("2024-01-15T13:30:00+01:00").unwrap(), t);
    assert_eq!(parse_stamp("2024-01-15 12:30:00").unwrap(), t);
    assert_eq!(
        parse_stamp("2024-01-15T12:30:00.25Z").unwrap(),
        Stamp { secs: 1705321800, nanos: 250_000_000 }
    );
    assert_eq!(parse_stamp("yesterday"), None);
    let leap = parse_stamp("2016-12-31T23:59:60Z").unwrap();
    assert_eq!(leap, Stamp { secs: 1483228799, nanos: 1_000_000_000 });
    assert!(leap.is_valid());
    assert!(!Stamp { secs: 0, nanos: 1_000_000_000 }.is_valid());
}

#[test]
fn ages_are_shown_in_their_largest_unit() {
    assert_eq!(format_age(-1), "just now");
    assert_eq!(format_age(0), "0s ago");
    assert_eq!(format_age(59), "59s ago");
    assert_eq!(format_age(60), "1m ago");
    assert_eq!(format_age(3599), "59m ago");
    assert_eq!(format_age(3600), "1h ago");
    assert_eq!(format_age(86399), "23h ago");
    assert_eq!(format_age(3 * 86400), "3d ago");
}

#[test]
fn times_are_shown_relative_to_now() {
    let noon = parse_stamp("2024-01-15T12:30:00Z").unwrap();
    let now = Stamp { secs: noon.secs + 30, nanos: 0 };
    assert_eq!(format_relative_time("2024-01-15T12:30:00Z", now), "30s ago");
    assert_eq!(format_relative_time("2024-01-15 12:30:00", now), "30s ago");
    assert_eq!(format_relative_time("2024-01-15T12:30:00.5Z", now), "29s ago");
    assert_eq!(format_relative_time("2024-01-15T12:31:00Z", now), "just now");
    // Half a second ahead is no whole second.
    assert_eq!(format_relative_time("2024-01-15T12:30:30.5Z", now), "0s ago");
    assert_eq!(format_relative_time("soon", now), "soon");
}

#[test]
fn leap_seconds_count() {
    let leap = "2016-12-31T23:59:60Z";
    let after = parse_stamp("2017-01-01T00:00:10Z").unwrap();
    assert_eq!(format_relative_time(leap, after), "10s ago");
    let start = parse_stamp(leap).unwrap();
    assert_eq!(
        later(start, Duration::from_millis(500)),
        Some(Stamp { secs: 1483228799, nanos: 1_500_000_000 })
    );
    assert_eq!(
        later(start, Duration::from_secs(1)),
        Some(Stamp { secs: 1483228800, nanos: 0 })
    );
}

#[test]
fn the_calendar_has_two_ends() {
    for end in [FIRST_SECOND, LAST_SECOND] {
        let t = Stamp { secs: end, nanos: 999_999_999 };
        assert!(t.is_valid());
        assert_eq!(later(t, Duration::from_secs(0)), Some(t));
    }
    assert!(!stamp(FIRST_SECOND - 1).is_valid());
    assert!(!stamp(LAST_SECOND + 1).is_valid());
    let whole = LAST_SECOND.abs_diff(FIRST_SECOND);
    assert_eq!(
        later(stamp(FIRST_SECOND), Duration::from_secs(whole)),
        Some(stamp(LAST_SECOND))
    );
    assert_eq!(later(stamp(FIRST_SECOND), Duration::from_secs(whole + 1)), None);
    let epoch = "1970-01-01T00:00:00Z";
    assert_eq!(format_relative_time(epoch, stamp(FIRST_SECOND)), "just now");
    assert_eq!(format_relative_time(epoch, stamp(LAST_SECOND)), "95026236d ago");
}

#[test]
fn uptime_is_shown_in_two_units() {
    assert_eq!(format_uptime(59), "59s");
    assert_eq!(format_uptime(61), "1m 1s");
    assert_eq!(format_uptime(9000), "2h 30m");
    assert_eq!(format_uptime(90000), "1d 1h");
}

// --- Cooldowns ---

#[test]
fn notifications_wait_for_their_cooldown() {
    let cooldown = Duration::from_secs(300);
    let shown = "2024-01-15T12:30:00Z";
    let then = parse_stamp(shown).unwrap();
    assert_eq!(should_notify(None, cooldown, then), Ok(true));
    assert_eq!(should_notify(Some(shown), cooldown, stamp(then.secs + 299)), Ok(false));
    assert_eq!(should_notify(Some(shown), cooldown, stamp(then.secs + 300)), Ok(true));
    assert_eq!(should_notify(Some("2024-01-15 12:30:00"), cooldown, then), Ok(false));
    assert_eq!(
        should_notify(Some("garbage"), cooldown, then),
        Err(CooldownError::Unreadable)
    );
    assert_eq!(
        should_notify(Some(shown), Duration::from_secs(u64::MAX), then),
        Err(CooldownError::BeyondCalendar)
    );
    assert!(cooldown_elapsed(then, Duration::from_secs(0), then));
    assert!(reaches(then, then));
    assert_eq!(later(stamp(LAST_SECOND), Duration::from_secs(1)), None);
}

// --- Statements ---

#[test]
fn stale_worktrees_are_removed_by_their_path() {
    let (sql, values) = remove_stale_worktrees("/r", &vec![]);
    assert_eq!(sql, "DELETE FROM worktrees WHERE repo_id = ?1");
    assert_eq!(values, ["/r"]);
    let (sql, values) = remove_stale_worktrees("/r", &vec!["/a".into(), "/b".into()]);
    assert_eq!(sql, "DELETE FROM worktrees WHERE repo_id = ?1 AND path NOT IN (?2, ?3)");
    assert_eq!(values, ["/r", "/a", "/b"]);
}

// --- Queries ---

fn repo_row(status: &str) -> RepoState {
    RepoState {
        repo_id: "/r/.git".into(),
        display_path: "/r".into(),
        remote_url: None,
        status: status.into(),
        last_fetch_at: None,
        last_sync_at: Some("then".into()),
        missing_since: None,
        created_at: "before".into(),
    }
}

fn branch_row(name: &str, status: &str) -> BranchState {
    BranchState {
        branch_name: name.into(),
        sync_status: status.into(),
        last_pull_at: None,
        last_push_at: Some("pushed".into()),
        local_oid: None,
        remote_oid: None,
        error_message: None,
        push_backoff_until: None,
    }
}

#[test]
fn stored_repos_have_a_status() {
    let git = vec![RepoBranch {
        name: "main".into(),
        local_oid: "1".into(),
        upstream_name: Some("origin/main".into()),
        remote_oid: None,
        is_head: true,
        remote: "origin".into(),
        remote_ref: "main".into(),
    }];
    let rows = vec![branch_row("main", "synced"), branch_row("topic", "diverged")];
    let data = build_repo_status(Some(&repo_row("active")), &rows, "/r/.git", &git).unwrap();
    assert_eq!(data.repo_id, "/r/.git");
    assert_eq!(data.last_sync.as_deref(), Some("then"));
    assert_eq!(data.branches[0].upstream.as_deref(), Some("origin/main"));
    assert_eq!(data.branches[1].upstream, None);
    assert_eq!(data.branches[1].last_action.as_deref(), Some("pushed"));
    assert_eq!(
        build_repo_status(None, &rows, "/x", &git).unwrap_err(),
        "repo not registered: /x"
    );
}

#[test]
fn stored_repos_are_summed_up() {
    let rows = || vec![branch_row("a", "synced"), branch_row("b", "diverged")];
    let all = vec![
        (repo_row("disabled"), rows()),
        (repo_row("missing"), rows()),
        (repo_row("active"), rows()),
        (repo_row("active"), vec![branch_row("a", "up_to_date")]),
    ];
    let summaries: Vec<String> =
        build_global_status(&all).into_iter().map(|r| r.status_summary).collect();
    assert_eq!(summaries, ["disabled", "missing", "1/2 diverged", "1 synced"]);
}
