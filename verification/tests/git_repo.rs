use git2::{Oid, Repository, Signature};
use gitsitter::git_ops::{
    analyze_merge, branch_occupancy, classify_push_failure, detect_history_rewrite,
    failure_message, git_push, is_local_merge_of_remote, is_operation_in_progress, list_branches,
    list_worktrees, primary_remote, stashed_something, BranchProbe, HistoryRewrite, MergeAnalysis,
    PriorTip, PushExit, PushResult, WorktreeProbe,
};
use std::path::Path;
use tempfile::TempDir;

fn temp_dir() -> TempDir {
    tempfile::Builder::new().prefix("gitsitter-test-").tempdir().unwrap()
}

fn create_bare_repo(dir: &Path) -> Repository {
    Repository::init_bare(dir).unwrap()
}

fn clone_repo(bare_path: &Path, working_path: &Path) -> Repository {
    let url = format!("file://{}", bare_path.display());
    git2::build::RepoBuilder::new().clone(&url, working_path).unwrap()
}

fn make_commit_as(
    repo: &Repository,
    filename: &str,
    content: &str,
    message: &str,
    name: &str,
    email: &str,
) {
    let parent = repo.head().ok().and_then(|h| h.peel_to_commit().ok());
    let base = parent.as_ref().map(|c| c.tree().unwrap());
    let blob = repo.blob(content.as_bytes()).unwrap();
    let mut builder = repo.treebuilder(base.as_ref()).unwrap();
    builder.insert(filename, blob, 0o100644).unwrap();
    let tree = repo.find_tree(builder.write().unwrap()).unwrap();
    let sig = Signature::now(name, email).unwrap();
    let parents: Vec<&git2::Commit> = parent.iter().collect();
    repo.commit(Some("HEAD"), &sig, &sig, message, &tree, &parents).unwrap();
}

fn make_commit(repo: &Repository, filename: &str, content: &str, message: &str) {
    make_commit_as(repo, filename, content, message, "Test User", "test@example.com");
}

fn current_branch(repo: &Repository) -> String {
    repo.head().unwrap().shorthand().unwrap().to_string()
}

fn push(repo: &Repository, branch: &str) {
    let mut remote = repo.find_remote("origin").unwrap();
    remote.push(&[&format!("refs/heads/{}", branch)], None).unwrap();
}

fn fetch(repo: &Repository) {
    let mut remote = repo.find_remote("origin").unwrap();
    remote.fetch::<&str>(&[], None, None).unwrap();
}

fn remote_commit(bare_dir: &Path, branch: &str, filename: &str) {
    let bare = Repository::open(bare_dir).unwrap();
    let ref_name = format!("refs/heads/{}", branch);
    let head = bare.find_reference(&ref_name).unwrap().peel_to_commit().unwrap();
    let blob = bare.blob(b"remote content").unwrap();
    let tree = head.tree().unwrap();
    let mut builder = bare.treebuilder(Some(&tree)).unwrap();
    builder.insert(filename, blob, 0o100644).unwrap();
    let new_tree = bare.find_tree(builder.write().unwrap()).unwrap();
    let sig = Signature::now("Remote", "remote@example.com").unwrap();
    bare.commit(Some(&ref_name), &sig, &sig, "remote commit", &new_tree, &[&head]).unwrap();
}

fn local_tip(repo: &Repository, branch: &str) -> Oid {
    repo.refname_to_id(&format!("refs/heads/{}", branch)).unwrap()
}

fn remote_tip(repo: &Repository, branch: &str) -> Oid {
    repo.refname_to_id(&format!("refs/remotes/origin/{}", branch)).unwrap()
}

fn reaches(repo: &Repository, tip: Oid, oid: Oid) -> bool {
    tip == oid || repo.graph_descendant_of(tip, oid).unwrap_or(false)
}

fn analysis_of(repo: &Repository, branch: &str) -> MergeAnalysis {
    let local = local_tip(repo, branch);
    let remote = remote_tip(repo, branch);
    analyze_merge(
        &local.to_string(),
        Some(&remote.to_string()),
        reaches(repo, remote, local),
        reaches(repo, local, remote),
    )
}

fn rewrite_of(repo: &Repository, branch: &str) -> HistoryRewrite {
    let local = local_tip(repo, branch);
    let remote = remote_tip(repo, branch);
    let log = repo.reflog(&format!("refs/heads/{}", branch)).unwrap();
    let tips: Vec<PriorTip> = log
        .iter()
        .map(|entry| entry.id_new())
        .map(|oid| PriorTip {
            oid: oid.to_string(),
            on_remote: reaches(repo, remote, oid),
            on_local: reaches(repo, local, oid),
        })
        .collect();
    detect_history_rewrite(&tips, &remote.to_string())
}

fn committer_of(repo: &Repository, branch: &str) -> Option<String> {
    let commit = repo.find_commit(remote_tip(repo, branch)).unwrap();
    let committer = commit.committer();
    committer.email().map(|e| e.to_string()).ok()
}

#[test]
fn is_branch_owned_by_user() {
    // Set up bare + clone to have a proper upstream
    let tmp = temp_dir();
    let bare_dir = tmp.path().join("bare");
    let work_dir = tmp.path().join("work");
    create_bare_repo(&bare_dir);
    let work = clone_repo(&bare_dir, &work_dir);

    // Make a commit as "me" and push
    make_commit_as(&work, "file.txt", "content", "my commit", "Me", "me@example.com");
    let branch = current_branch(&work);
    push(&work, &branch);
    fetch(&work);
    let user = Some("me@example.com");
    assert!(gitsitter::git_ops::is_branch_owned_by_user(
        user,
        committer_of(&work, &branch).as_deref()
    ));

    // Now push a commit from a different user
    make_commit_as(&work, "file2.txt", "other", "their commit", "Other", "other@example.com");
    push(&work, &branch);
    fetch(&work);

    // Now the upstream tip is by "other": should not be owned
    assert!(!gitsitter::git_ops::is_branch_owned_by_user(
        user,
        committer_of(&work, &branch).as_deref()
    ));
}

#[test]
fn detect_history_rewrite_none_for_normal_divergence() {
    let tmp = temp_dir();
    let bare_dir = tmp.path().join("bare");
    let work_dir = tmp.path().join("work");
    create_bare_repo(&bare_dir);
    let work = clone_repo(&bare_dir, &work_dir);

    make_commit(&work, "a.txt", "a", "initial");
    let branch = current_branch(&work);
    push(&work, &branch);
    remote_commit(&bare_dir, &branch, "remote.txt");

    // Add a local commit (normal divergence: local just advances)
    make_commit(&work, "b.txt", "b", "local commit");
    fetch(&work);

    assert_eq!(analysis_of(&work, &branch), MergeAnalysis::Diverged);
    assert_eq!(rewrite_of(&work, &branch), HistoryRewrite::NoRewrite);
}

#[test]
fn detect_history_rewrite_remote_unchanged() {
    let tmp = temp_dir();
    let bare_dir = tmp.path().join("bare");
    let work_dir = tmp.path().join("work");
    create_bare_repo(&bare_dir);
    let work = clone_repo(&bare_dir, &work_dir);

    make_commit(&work, "a.txt", "a", "commit A");
    let branch = current_branch(&work);
    push(&work, &branch);
    make_commit(&work, "b.txt", "b", "commit B");
    push(&work, &branch);

    // Rewrite local history: reset to commit A and make a new commit.
    let published = work.head().unwrap().target().unwrap();
    let commit_a = work.find_commit(published).unwrap().parent(0).unwrap();
    work.reset(commit_a.as_object(), git2::ResetType::Soft, None).unwrap();
    make_commit(&work, "c.txt", "c", "rewritten commit C");
    fetch(&work);

    assert_eq!(analysis_of(&work, &branch), MergeAnalysis::Diverged);
    assert_eq!(rewrite_of(&work, &branch), HistoryRewrite::RemoteUnchanged);
}

#[test]
fn detect_history_rewrite_remote_advanced() {
    let tmp = temp_dir();
    let bare_dir = tmp.path().join("bare");
    let work_dir = tmp.path().join("work");
    create_bare_repo(&bare_dir);
    let work = clone_repo(&bare_dir, &work_dir);

    make_commit(&work, "a.txt", "a", "commit A");
    let branch = current_branch(&work);
    push(&work, &branch);
    let base = work.head().unwrap().target().unwrap();
    make_commit(&work, "b.txt", "b", "commit B");
    push(&work, &branch);

    let commit_a = work.find_commit(base).unwrap();
    work.reset(commit_a.as_object(), git2::ResetType::Soft, None).unwrap();
    make_commit(&work, "d.txt", "d", "rewritten commit D");

    // The remote advances past the published tip B.
    remote_commit(&bare_dir, &branch, "remote_extra.txt");
    fetch(&work);

    assert_eq!(analysis_of(&work, &branch), MergeAnalysis::Diverged);
    assert_eq!(rewrite_of(&work, &branch), HistoryRewrite::RemoteAdvanced);
}

#[test]
fn list_branches_finds_default_branch() {
    let tmp = temp_dir();
    let repo = Repository::init(tmp.path()).unwrap();
    make_commit(&repo, "README.md", "hello", "Initial commit");

    let mut probes = Vec::new();
    for found in repo.branches(Some(git2::BranchType::Local)).unwrap() {
        let (branch, _) = found.unwrap();
        let name = branch.name().unwrap().map(|n| n.to_string());
        probes.push(BranchProbe {
            name,
            target: branch.get().target().map(|o| o.to_string()),
            has_upstream: false,
            upstream_name: None,
            upstream_target: None,
            configured_remote: None,
            configured_merge: None,
        });
    }
    let head = current_branch(&repo);
    let branches = list_branches(&probes, Some(&head));
    assert!(!branches.is_empty());
    let names: Vec<&str> = branches.iter().map(|b| b.name.as_str()).collect();
    assert!(
        names.contains(&"main") || names.contains(&"master"),
        "expected 'main' or 'master', got: {:?}",
        names
    );
    assert!(branches[0].is_head);
    assert_eq!(branches[0].remote, "origin");
}

#[test]
fn is_operation_in_progress_false_normally() {
    let entries: Vec<String> =
        ["HEAD", "config", "objects", "refs"].iter().map(|s| s.to_string()).collect();
    assert!(!is_operation_in_progress(&entries));
}

#[test]
fn is_operation_in_progress_true_with_index_lock() {
    let entries: Vec<String> =
        ["HEAD", "config", "index.lock"].iter().map(|s| s.to_string()).collect();
    assert!(is_operation_in_progress(&entries));
}

#[test]
fn every_marker_shows_an_operation() {
    for name in
        ["rebase-merge", "rebase-apply", "MERGE_HEAD", "CHERRY_PICK_HEAD", "BISECT_LOG"]
    {
        assert!(is_operation_in_progress(&vec![name.to_string()]));
    }
}

#[test]
fn analysis_covers_all_relations() {
    assert_eq!(analyze_merge("a", None, false, false), MergeAnalysis::UpstreamGone);
    assert_eq!(analyze_merge("a", Some("a"), true, true), MergeAnalysis::UpToDate);
    assert_eq!(analyze_merge("a", Some("b"), true, false), MergeAnalysis::FastForward);
    assert_eq!(analyze_merge("a", Some("b"), false, true), MergeAnalysis::LocalAhead);
    assert_eq!(analyze_merge("a", Some("b"), false, false), MergeAnalysis::Diverged);
    assert_eq!(HistoryRewrite::NoRewrite.label(), "None");
    assert_eq!(MergeAnalysis::Diverged.label(), "Diverged");
}

#[test]
fn upstreams_are_taken_from_the_config() {
    let probe = BranchProbe {
        name: Some("topic".into()),
        target: Some("1".into()),
        has_upstream: true,
        upstream_name: Some("fork/work".into()),
        upstream_target: Some("2".into()),
        configured_remote: Some("fork".into()),
        configured_merge: Some("refs/heads/work".into()),
    };
    let nameless = BranchProbe {
        name: None,
        target: Some("1".into()),
        has_upstream: false,
        upstream_name: None,
        upstream_target: None,
        configured_remote: None,
        configured_merge: None,
    };
    let branches = list_branches(&vec![nameless, probe], Some("main"));
    assert_eq!(branches.len(), 1);
    assert_eq!(branches[0].remote, "fork");
    assert_eq!(branches[0].remote_ref, "work");
    assert_eq!(branches[0].upstream_name.as_deref(), Some("fork/work"));
    assert!(!branches[0].is_head);
}

#[test]
fn worktrees_and_their_branches() {
    let main = Some(WorktreeProbe {
        path: "/w".into(),
        head_is_branch: true,
        head_name: Some("main".into()),
        dirty: Some(false),
    });
    let linked = vec![
        None,
        Some(WorktreeProbe {
            path: "/w2".into(),
            head_is_branch: true,
            head_name: Some("topic".into()),
            dirty: None,
        }),
        Some(WorktreeProbe {
            path: "/w3".into(),
            head_is_branch: false,
            head_name: Some("HEAD".into()),
            dirty: Some(true),
        }),
    ];
    let worktrees = list_worktrees(&main, &linked);
    assert_eq!(worktrees.len(), 3);
    assert!(worktrees[0].is_clean);
    assert!(!worktrees[1].is_clean);
    assert_eq!(worktrees[2].head_branch, None);
    let occupied = branch_occupancy(&worktrees);
    assert_eq!(occupied.len(), 2);
    assert_eq!(occupied.get("topic").map(|s| s.as_str()), Some("/w2"));
}

#[test]
fn pushes_are_classified() {
    let failed = |stderr: &str| {
        git_push(PushExit::Exited { success: false, stderr: stderr.to_string() })
    };
    assert!(matches!(
        git_push(PushExit::Exited { success: true, stderr: String::new() }),
        PushResult::Success
    ));
    assert!(matches!(git_push(PushExit::TimedOut), PushResult::HookTimeout));
    assert!(matches!(failed("! [Remote REJECTED] main"), PushResult::Rejected(_)));
    assert!(matches!(failed("fatal: Authentication failed"), PushResult::AuthFailed(_)));
    assert!(matches!(failed("Could not resolve host: x"), PushResult::NetworkError(_)));
    match failed("Something Else") {
        PushResult::Rejected(text) => assert_eq!(text, "Something Else"),
        other => panic!("unexpected result {:?}", other),
    }
    // The classification goes by lower case.
    assert!(matches!(
        classify_push_failure("PERMISSION DENIED", "x".into()),
        PushResult::Rejected(_)
    ));
}

#[test]
fn merges_of_the_remote_are_told() {
    let parents = vec!["1".to_string(), "2".to_string()];
    assert!(is_local_merge_of_remote(&parents, Some("2")));
    assert!(!is_local_merge_of_remote(&parents, Some("3")));
    assert!(!is_local_merge_of_remote(&vec!["2".to_string()], Some("2")));
    assert!(!is_local_merge_of_remote(&parents, None));
}

#[test]
fn emails_are_compared_without_case() {
    let owned = gitsitter::git_ops::is_branch_owned_by_user;
    assert!(owned(Some("Me@Example.com"), Some("me@example.COM")));
    assert!(!owned(None, Some("me@example.com")));
    assert!(!owned(Some("me@example.com"), None));
}

#[test]
fn what_git_prints_is_read() {
    assert_eq!(failure_message("git fetch", "  boom \n"), "git fetch failed: boom");
    assert!(!stashed_something("No local changes to save\n"));
    assert!(stashed_something("Saved working directory"));
    assert_eq!(primary_remote(true, &vec!["a".to_string()]).as_deref(), Some("origin"));
    assert_eq!(primary_remote(false, &vec!["a".to_string()]).as_deref(), Some("a"));
    assert_eq!(primary_remote(false, &vec![]), None);
}
