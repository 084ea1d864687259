use gitsitter::clock::Duration;
use gitsitter::config::UserConfig;
use gitsitter::daemon::TrackedRepo;
use gitsitter::table::Table;
use gitsitter::watcher::{
    debounce_of, describe_change, is_remote_ref, resolve_repo_id_for_path, watch_files,
    watch_subdirs, ChangedPath, WatchState,
};

fn path(text: &str) -> ChangedPath {
    ChangedPath {
        components: text.split('/').filter(|c| !c.is_empty()).map(|c| c.to_string()).collect(),
        display: text.to_string(),
        extension: text.rsplit_once('.').map(|(_, e)| e.to_string()),
    }
}

fn watching() -> WatchState {
    let mut state = WatchState::new(Duration::from_secs(1));
    state.watched.insert(
        "/r/.git".to_string(),
        vec![
            path("/r/.git/refs/heads").components,
            path("/r/.git/refs/remotes").components,
            path("/r/.git/HEAD").components,
        ],
    );
    state
}

fn repos(last_sync: Option<Duration>) -> Table<TrackedRepo> {
    let mut repo = TrackedRepo::new("/r/.git".into(), "/r".into(), Table::new());
    repo.last_sync = last_sync;
    let mut repos = Table::new();
    repos.insert("/r/.git".to_string(), repo);
    repos
}

fn at(millis: u64) -> Duration {
    Duration::from_millis(millis)
}

#[test]
fn changes_are_described() {
    assert_eq!(describe_change(&path("/r/.git/refs/heads/feature/x")), "ref update (feature/x)");
    assert_eq!(describe_change(&path("/r/.git/refs/remotes/origin/main")), "remote ref (origin/main)");
    assert_eq!(describe_change(&path("/r/.git/HEAD")), "HEAD changed");
    assert_eq!(describe_change(&path("/r/.git/config")), "file changed (/r/.git/config)");
    assert!(is_remote_ref(&path("/r/.git/refs/remotes/origin/main")));
    assert!(!is_remote_ref(&path("/r/.git/refs/heads/main")));
    // Only what lies right below `refs` tells what a ref is.
    assert!(!is_remote_ref(&path("/home/remotes/repo/.git/refs/heads/main")));
    assert!(!is_remote_ref(&path("/r/.git/refs/heads/remotes")));
    assert!(is_remote_ref(&path("/refs/heads/r/.git/refs/remotes/origin/main")));
    assert_eq!(watch_subdirs(), ["refs/heads", "refs/remotes"]);
    assert_eq!(watch_files(), ["HEAD"]);
}

#[test]
fn paths_belong_to_their_repo() {
    let state = watching();
    let owner = resolve_repo_id_for_path(&path("/r/.git/refs/heads/main"), &state.watched);
    assert_eq!(owner.as_deref(), Some("/r/.git"));
    assert_eq!(resolve_repo_id_for_path(&path("/r/.git/config"), &state.watched), None);
}

#[test]
fn changes_wait_for_quiet() {
    let mut state = watching();
    let repos = repos(Some(at(0)));
    state.note_change(&path("/r/.git/refs/heads/main"), &repos, at(10_000));
    assert!(state.fire(at(10_999)).is_empty());
    // Another change starts the wait again.
    state.note_change(&path("/r/.git/HEAD"), &repos, at(10_900));
    assert!(state.fire(at(11_500)).is_empty());
    assert_eq!(
        state.fire(at(11_900)),
        [("/r/.git".to_string(), "HEAD changed".to_string())]
    );
    assert!(state.fire(at(20_000)).is_empty());
}

#[test]
fn locks_and_own_changes_are_ignored() {
    let mut state = watching();
    let recent = repos(Some(at(10_000)));
    state.note_change(&path("/r/.git/refs/heads/main.lock"), &recent, at(60_000));
    state.note_change(&path("/r/.git/refs/remotes/origin/main"), &recent, at(14_999));
    state.note_change(&path("/elsewhere/HEAD"), &recent, at(60_000));
    assert!(state.fire(at(90_000)).is_empty());
    state.note_change(&path("/r/.git/refs/remotes/origin/main"), &recent, at(15_000));
    assert_eq!(state.fire(at(16_000)).len(), 1);
}

#[test]
fn watches_follow_the_repos() {
    let mut state = watching();
    state.watched.insert("/old/.git".to_string(), vec![]);
    let mut all = repos(None);
    all.insert("/new/.git".to_string(), TrackedRepo::new("/new/.git".into(), "/new".into(), Table::new()));
    let (add, remove) = state.plan_watches(&all);
    assert_eq!(add, ["/new/.git"]);
    assert_eq!(remove, ["/old/.git"]);
}

#[test]
fn the_debounce_can_be_set() {
    let mut config = UserConfig::default();
    assert_eq!(debounce_of(&config.global), Duration::from_secs(1));
    config.global.watcher_debounce = Some(at(250));
    assert_eq!(debounce_of(&config.global), at(250));
    let mut repo = TrackedRepo::new("/r/.git".into(), "/r".into(), Table::new());
    repo.last_sync = Some(at(1));
    repo.rescan("HEAD changed".into());
    assert_eq!(repo.last_sync, None);
    assert_eq!(repo.sync_reason.as_deref(), Some("HEAD changed"));
}
