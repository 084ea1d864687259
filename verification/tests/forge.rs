use gitsitter::clock::Duration;
use gitsitter::forge::{
    owns_any, parse_github_remote, read_login, read_ownership, read_verified_emails,
    verified_emails, EmailEntry, ForgeCache, ForgeError, ForgeStep, GitHubRepo, PullRequest,
};
use gitsitter::git_ops::{is_branch_owned_by_user_with_forge, OwnershipStep};

#[test]
fn parse_ssh_url() {
    let r = parse_github_remote("git@github.com:user/repo.git").unwrap();
    assert_eq!(r.owner, "user");
    assert_eq!(r.repo, "repo");
}

#[test]
fn parse_ssh_url_no_suffix() {
    let r = parse_github_remote("git@github.com:user/repo").unwrap();
    assert_eq!(r.owner, "user");
    assert_eq!(r.repo, "repo");
}

#[test]
fn parse_https_url() {
    let r = parse_github_remote("https://github.com/user/repo.git").unwrap();
    assert_eq!(r.owner, "user");
    assert_eq!(r.repo, "repo");
}

#[test]
fn parse_https_url_no_suffix() {
    let r = parse_github_remote("https://github.com/user/repo").unwrap();
    assert_eq!(r.owner, "user");
    assert_eq!(r.repo, "repo");
}

#[test]
fn parse_https_trailing_slash() {
    let r = parse_github_remote("https://github.com/user/repo/").unwrap();
    assert_eq!(r.owner, "user");
    assert_eq!(r.repo, "repo");
}

#[test]
fn parse_ssh_scheme_url() {
    let r = parse_github_remote("ssh://git@github.com/user/repo.git").unwrap();
    assert_eq!(r.owner, "user");
    assert_eq!(r.repo, "repo");
}

#[test]
fn parse_non_github_returns_none() {
    assert!(parse_github_remote("git@gitlab.com:user/repo.git").is_none());
    assert!(parse_github_remote("https://gitlab.com/user/repo").is_none());
}

#[test]
fn parse_malformed_returns_none() {
    assert!(parse_github_remote("git@github.com:repo.git").is_none());
    assert!(parse_github_remote("https://github.com/user").is_none());
    assert!(parse_github_remote("not a url").is_none());
}

#[test]
fn every_form_of_an_address_is_read() {
    let heads = [
        "git@github.com:",
        "https://github.com/",
        "http://github.com/",
        "ssh://git@github.com/",
    ];
    for head in heads {
        for tail in [".git", ""] {
            let r = parse_github_remote(&format!("{head}some-one/a.repo{tail}")).unwrap();
            assert_eq!(r.owner, "some-one");
            assert_eq!(r.repo, "a.repo");
        }
    }
}

// --- Answers of the forge ---

const USER: &[u8] = br#"{"login": "Alice", "id": 7}"#;
const EMAILS: &[u8] = br#"[
    {"email": "alice@example.com", "verified": true},
    {"email": "old@example.com", "verified": false},
    {"email": "alice@work.example", "verified": true},
    {"verified": true}
]"#;
const PULLS: &[u8] = br#"[
    {"user": {"login": "bob"}, "assignees": [{"login": "carol"}, {"login": "ALICE"}]}
]"#;

#[test]
fn login_is_read() {
    assert_eq!(read_login(USER), Ok("Alice".to_string()));
    assert_eq!(read_login(b"{}"), Err(ForgeError::MissingLogin));
    assert_eq!(read_login(b"{\"login\": 3}"), Err(ForgeError::MissingLogin));
    assert_eq!(read_login(b"not json"), Err(ForgeError::NotJson));
}

#[test]
fn only_verified_emails_are_read() {
    assert_eq!(
        read_verified_emails(EMAILS),
        Ok(vec!["alice@example.com".to_string(), "alice@work.example".to_string()])
    );
    assert_eq!(read_verified_emails(b"{}"), Ok(vec![]));
    assert_eq!(read_verified_emails(b"["), Err(ForgeError::NotJson));
    assert!(verified_emails(&vec![EmailEntry { verified: None, email: Some("a@b".into()) }])
        .is_empty());
}

#[test]
fn creators_and_assignees_own_pull_requests() {
    assert_eq!(read_ownership(PULLS, "alice"), Ok(true));
    assert_eq!(read_ownership(PULLS, "Bob"), Ok(true));
    assert_eq!(read_ownership(PULLS, "dave"), Ok(false));
    assert_eq!(read_ownership(b"[]", "alice"), Ok(false));
    assert_eq!(read_ownership(b"oops", "alice"), Err(ForgeError::NotJson));
    let pr = PullRequest { creator: Some("alice".into()), assignees: vec![] };
    assert!(owns_any(&vec![pr], "alice"));
}

// --- The cache ---

fn repo() -> GitHubRepo {
    GitHubRepo { owner: "o".into(), repo: "r".into() }
}

#[test]
fn email_question_goes_step_by_step() {
    let t0 = Duration::from_secs(100);
    let mut cache = ForgeCache::new();
    assert!(matches!(cache.email_matches_user("alice@work.example", t0), ForgeStep::CheckGh));
    cache.record_gh(true);
    assert!(matches!(cache.email_matches_user("alice@work.example", t0), ForgeStep::FetchUser));
    assert!(cache.absorb_user(Some(USER), Some(EMAILS), t0));
    assert!(matches!(
        cache.email_matches_user("ALICE@work.example", t0),
        ForgeStep::Answer(true)
    ));
    assert!(matches!(cache.email_matches_user("old@example.com", t0), ForgeStep::Answer(false)));
    // The answer is asked for again once an hour is over.
    let fresh = Duration::from_secs(100 + 3599);
    let stale = Duration::from_secs(100 + 3600);
    assert!(matches!(cache.email_matches_user("x@y", fresh), ForgeStep::Answer(false)));
    assert!(matches!(cache.email_matches_user("x@y", stale), ForgeStep::FetchUser));
}

#[test]
fn without_gh_nothing_is_owned() {
    let now = Duration::from_secs(1);
    let mut cache = ForgeCache::new();
    cache.record_gh(false);
    assert!(matches!(cache.email_matches_user("a@b", now), ForgeStep::Answer(false)));
    assert!(matches!(cache.user_owns_pr(&repo(), "main", now), ForgeStep::Answer(false)));
}

#[test]
fn a_failed_email_question_forgets_gh() {
    let now = Duration::from_secs(1);
    let mut cache = ForgeCache::new();
    cache.record_gh(true);
    assert!(!cache.absorb_user(Some(USER), None, now));
    assert!(!cache.absorb_user(Some(b"{}"), Some(EMAILS), now));
    assert!(cache.user_info.is_none());
    assert!(!cache.give_up_on_email());
    assert!(matches!(cache.email_matches_user("a@b", now), ForgeStep::CheckGh));
}

#[test]
fn pull_request_answers_are_remembered() {
    let now = Duration::from_secs(50);
    let mut cache = ForgeCache::new();
    cache.record_gh(true);
    assert!(matches!(cache.user_owns_pr(&repo(), "topic", now), ForgeStep::FetchUser));
    assert!(cache.absorb_user(Some(USER), Some(EMAILS), now));
    match cache.user_owns_pr(&repo(), "topic", now) {
        ForgeStep::FetchPrs(endpoint) => {
            assert_eq!(endpoint, "/repos/o/r/pulls?head=o:topic&state=open");
        }
        other => panic!("unexpected step {:?}", other),
    }
    assert!(cache.absorb_prs(&repo(), "topic", Some(PULLS), now));
    assert!(matches!(cache.user_owns_pr(&repo(), "topic", now), ForgeStep::Answer(true)));
    assert!(matches!(cache.user_owns_pr(&repo(), "other", now), ForgeStep::FetchPrs(_)));
    let stale = Duration::from_secs(50 + 300);
    assert!(matches!(cache.user_owns_pr(&repo(), "topic", stale), ForgeStep::FetchPrs(_)));
    assert!(!cache.absorb_prs(&repo(), "topic", None, stale));
    assert!(matches!(cache.user_owns_pr(&repo(), "topic", stale), ForgeStep::Answer(false)));
}

#[test]
fn ownership_falls_back_to_the_forge() {
    let url = Some("git@github.com:o/r.git");
    let step = |email, pr| {
        is_branch_owned_by_user_with_forge(Some("me@a"), Some("you@b"), url, email, pr)
    };
    assert!(matches!(step(None, None), OwnershipStep::AskEmail));
    assert!(matches!(step(Some(true), None), OwnershipStep::Answer(true)));
    assert!(matches!(step(Some(false), None), OwnershipStep::AskPullRequest(_)));
    assert!(matches!(step(Some(false), Some(true)), OwnershipStep::Answer(true)));
    assert!(matches!(step(Some(false), Some(false)), OwnershipStep::Answer(false)));
    // Elsewhere there is no forge to ask.
    assert!(matches!(
        is_branch_owned_by_user_with_forge(
            Some("me@a"),
            Some("you@b"),
            Some("git@gitlab.com:o/r.git"),
            None,
            None
        ),
        OwnershipStep::Answer(false)
    ));
}
