//! Forge integration (GitHub) for relaxed ownership checks.
//!
//! Provides two fallback mechanisms beyond the local committer-email check:
//! 1. Match the committer email against all verified emails of the authenticated
//!    forge user (`gh api /user/emails`).
//! 2. Check if the authenticated user is the creator or assignee of a pull
//!    request associated with the branch.
//!
//! What the `gh` tool answers is kept in a [`ForgeCache`]. A question that the
//! cache cannot answer yet names the next call to make.

use vstd::prelude::*;

use crate::clock::{Duration, NANOS_PER_SEC};
use crate::json::{
    is_json, json_count, json_count_at, json_flag, json_flag_at, json_is_valid, json_text,
    json_text_at,
};
use crate::text::{
    before, behind, chars_of, decimal, drop_suffix, eq_ignore_ascii_case, find_char, format_u64,
    has_prefix, has_suffix, is_space, lemma_first_index_unique, same_ignoring_case, string_of,
    strip_prefix, text_eq, trim, trimmed, view_opt, views, without_suffix,
};

verus! {

// ---------------------------------------------------------------------------
// Remote URL parsing
// ---------------------------------------------------------------------------

/// Parsed GitHub remote: owner and repo name.
#[derive(Debug, Clone, PartialEq, Eq, Hash)]
pub struct GitHubRepo {
    pub owner: String,
    pub repo: String,
}

/// Owner and repo of a path `owner/repo`.
pub open spec fn owner_and_repo(path: Seq<char>) -> Option<(Seq<char>, Seq<char>)> {
    if before(path, '/').len() > 0 && behind(path, '/').len() > 0 {
        Some((before(path, '/'), behind(path, '/')))
    } else {
        None
    }
}

/// The path of a GitHub URL that is no SCP-style address.
pub open spec fn github_url_path(url: Seq<char>) -> Option<Seq<char>> {
    if has_prefix(url, "https://github.com/"@) {
        Some(url.skip("https://github.com/"@.len() as int))
    } else if has_prefix(url, "http://github.com/"@) {
        Some(url.skip("http://github.com/"@.len() as int))
    } else if has_prefix(url, "ssh://git@github.com/"@) {
        Some(url.skip("ssh://git@github.com/"@.len() as int))
    } else {
        None
    }
}

/// Owner and repo of a GitHub remote.
pub open spec fn github_remote(raw: Seq<char>) -> Option<(Seq<char>, Seq<char>)> {
    let url = trimmed(raw);
    if has_prefix(url, "git@github.com:"@) {
        owner_and_repo(without_suffix(url.skip("git@github.com:"@.len() as int), ".git"@))
    } else {
        match github_url_path(url) {
            Some(path) => owner_and_repo(without_suffix(without_suffix(path, ".git"@), "/"@)),
            None => None,
        }
    }
}

/// The owner and repo that a `GitHubRepo` holds.
pub open spec fn repo_pair(r: Option<GitHubRepo>) -> Option<(Seq<char>, Seq<char>)> {
    match r {
        Some(g) => Some((g.owner@, g.repo@)),
        None => None,
    }
}

fn split_path(path: &str) -> (r: Option<GitHubRepo>)
    ensures
        repo_pair(r) == owner_and_repo(path@),
{
    let cs = chars_of(path);
    assert(cs@.skip(0) =~= cs@);
    let slash = find_char(&cs, 0, '/');
    if slash == 0 || slash >= cs.len() - 1 {
        return None;
    }
    let owner = string_of(&cs, 0, slash);
    let repo = string_of(&cs, slash + 1, cs.len());
    assert(owner@ =~= before(path@, '/'));
    assert(repo@ =~= behind(path@, '/'));
    Some(GitHubRepo { owner, repo })
}

/// Parse a GitHub remote URL into owner/repo.
/// Handles SSH (`git@github.com:owner/repo.git`) and
/// HTTPS (`https://github.com/owner/repo.git`) formats.
pub fn parse_github_remote(url: &str) -> (r: Option<GitHubRepo>)
    ensures
        repo_pair(r) == github_remote(url@),
{
    let url = trim(url);
    if let Some(rest) = strip_prefix(url.as_str(), "git@github.com:") {
        let path = drop_suffix(rest.as_str(), ".git");
        return split_path(path.as_str());
    }
    let path = match strip_prefix(url.as_str(), "https://github.com/") {
        Some(path) => path,
        None => match strip_prefix(url.as_str(), "http://github.com/") {
            Some(path) => path,
            None => match strip_prefix(url.as_str(), "ssh://git@github.com/") {
                Some(path) => path,
                None => {
                    return None;
                },
            },
        },
    };
    let path = drop_suffix(path.as_str(), ".git");
    let path = drop_suffix(path.as_str(), "/");
    split_path(path.as_str())
}

/// Whether `head` is what an address on GitHub starts with.
pub open spec fn is_address_head(head: Seq<char>) -> bool {
    head == "git@github.com:"@ || is_url_head(head)
}

/// Whether `head` is what a URL on GitHub starts with.
pub open spec fn is_url_head(head: Seq<char>) -> bool {
    ||| head == "https://github.com/"@
    ||| head == "http://github.com/"@
    ||| head == "ssh://git@github.com/"@
}

proof fn lemma_address_head(head: Seq<char>, rest: Seq<char>)
    requires
        is_address_head(head),
        rest.len() > 0,
        !is_space(rest.last()),
    ensures
        trimmed(head + rest) == head + rest,
        !is_url_head(head) ==> has_prefix(head + rest, "git@github.com:"@) && (head + rest).skip(
            "git@github.com:"@.len() as int,
        ) == rest,
        is_url_head(head) ==> !has_prefix(head + rest, "git@github.com:"@) && github_url_path(
            head + rest,
        ) == Some(rest),
{
    reveal_strlit("git@github.com:");
    reveal_strlit("https://github.com/");
    reveal_strlit("http://github.com/");
    reveal_strlit("ssh://git@github.com/");
    let url = head + rest;
    assert(url[0] == head[0]);
    assert(!is_space(url[0]));
    assert(url.last() == rest.last());
    assert(trimmed(url) == url);
    assert(url.subrange(0, head.len() as int) =~= head);
    assert(url.skip(head.len() as int) =~= rest);
    if is_url_head(head) {
        let scp = "git@github.com:"@;
        if has_prefix(url, scp) {
            assert(url.subrange(0, scp.len() as int)[0] == 'g');
        }
        let https = "https://github.com/"@;
        if has_prefix(url, https) && head != https {
            assert(url.subrange(0, https.len() as int)[0] == 'h');
            assert(url.subrange(0, https.len() as int)[4] == 's');
            assert(url[4] == head[4]);
        }
        let http = "http://github.com/"@;
        if has_prefix(url, http) && head == "ssh://git@github.com/"@ {
            assert(url.subrange(0, http.len() as int)[0] == 'h');
        }
    } else {
        assert(head[0] == 'g');
    }
}

/// Every address of a repo names that repo: by SSH or by URL, with `.git` at its
/// end. A URL cannot name a repo that ends in a slash.
pub proof fn law_address_names_its_repo(head: Seq<char>, owner: Seq<char>, repo: Seq<char>)
    requires
        is_address_head(head),
        owner.len() > 0,
        repo.len() > 0,
        !owner.contains('/'),
        is_url_head(head) ==> repo.last() != '/',
    ensures
        github_remote(head + (owner + "/"@ + repo + ".git"@)) == Some((owner, repo)),
{
    reveal_strlit("/");
    reveal_strlit(".git");
    let path = owner + "/"@ + repo;
    let rest = path + ".git"@;
    assert(rest.last() == 't');
    lemma_address_head(head, rest);
    assert(rest.subrange(rest.len() - 4, rest.len() as int) =~= ".git"@);
    assert(without_suffix(rest, ".git"@) =~= path);
    lemma_no_slash_behind(owner, repo);
    lemma_path_splits(owner, repo);
}

/// Every address of a repo names that repo without `.git` at its end, too. Then
/// the name of the repo cannot end in `.git` or in white space, which are dropped.
pub proof fn law_bare_address_names_its_repo(head: Seq<char>, owner: Seq<char>, repo: Seq<char>)
    requires
        is_address_head(head),
        owner.len() > 0,
        repo.len() > 0,
        !owner.contains('/'),
        is_url_head(head) ==> repo.last() != '/',
        !has_suffix(repo, ".git"@),
        !is_space(repo.last()),
    ensures
        github_remote(head + (owner + "/"@ + repo)) == Some((owner, repo)),
{
    reveal_strlit("/");
    reveal_strlit(".git");
    let path = owner + "/"@ + repo;
    assert(path.last() == repo.last());
    lemma_address_head(head, path);
    assert(!has_suffix(path, ".git"@)) by {
        if has_suffix(path, ".git"@) {
            let tail = path.subrange(path.len() - 4, path.len() as int);
            assert(tail == ".git"@);
            if repo.len() >= 4 {
                assert(repo.subrange(repo.len() - 4, repo.len() as int) =~= tail);
            } else {
                assert(path[owner.len() as int] == '/');
                assert(tail[3 - repo.len()] == path[owner.len() as int]);
            }
        }
    }
    lemma_no_slash_behind(owner, repo);
    lemma_path_splits(owner, repo);
}

proof fn lemma_no_slash_behind(owner: Seq<char>, repo: Seq<char>)
    requires
        repo.len() > 0,
    ensures
        repo.last() != '/' ==> !has_suffix(owner + "/"@ + repo, "/"@),
{
    reveal_strlit("/");
    let path = owner + "/"@ + repo;
    assert(path.last() == repo.last());
    if has_suffix(path, "/"@) {
        assert(path.subrange(path.len() - 1, path.len() as int)[0] == '/');
    }
}

proof fn lemma_path_splits(owner: Seq<char>, repo: Seq<char>)
    requires
        owner.len() > 0,
        repo.len() > 0,
        !owner.contains('/'),
    ensures
        owner_and_repo(owner + "/"@ + repo) == Some((owner, repo)),
{
    reveal_strlit("/");
    let path = owner + "/"@ + repo;
    assert forall|i: int| 0 <= i < owner.len() implies path[i] != '/' by {
        assert(path[i] == owner[i]);
        assert(owner.contains(owner[i]));
    }
    assert(path[owner.len() as int] == '/');
    lemma_first_index_unique(path, '/', owner.len() as int);
    assert(before(path, '/') =~= owner);
    assert(behind(path, '/') =~= repo);
}

// ---------------------------------------------------------------------------
// What the forge answers
// ---------------------------------------------------------------------------

/// An entry of the list of the user's emails.
#[derive(Debug)]
pub struct EmailEntry {
    pub verified: Option<bool>,
    pub email: Option<String>,
}

/// The emails that are verified, in their order.
pub open spec fn verified_of(entries: Seq<EmailEntry>) -> Seq<Seq<char>>
    decreases entries.len(),
{
    if entries.len() == 0 {
        Seq::empty()
    } else {
        let rest = verified_of(entries.drop_last());
        let e = entries.last();
        if e.verified == Some(true) && e.email is Some {
            rest.push(e.email->0@)
        } else {
            rest
        }
    }
}

/// The emails that are verified, in their order.
pub fn verified_emails(entries: &Vec<EmailEntry>) -> (r: Vec<String>)
    ensures
        views(r@) == verified_of(entries@),
{
    let mut out: Vec<String> = Vec::new();
    let mut i: usize = 0;
    assert(views(out@) =~= verified_of(entries@.take(0)));
    while i < entries.len()
        invariant
            i <= entries@.len(),
            views(out@) == verified_of(entries@.take(i as int)),
        decreases entries.len() - i,
    {
        let ghost t = entries@.take(i + 1);
        assert(t.drop_last() =~= entries@.take(i as int));
        assert(t.last() == entries@[i as int]);
        let e = &entries[i];
        let ok = match e.verified {
            Some(v) => v,
            None => false,
        };
        let ghost was = out@;
        if ok {
            if let Some(email) = &e.email {
                out.push(String::from_str(email.as_str()));
                assert(views(out@) =~= views(was).push(email@));
            }
        }
        i = i + 1;
    }
    assert(entries@.take(i as int) =~= entries@);
    out
}

/// A pull request: who opened it and who it is assigned to.
#[derive(Debug)]
pub struct PullRequest {
    pub creator: Option<String>,
    pub assignees: Vec<Option<String>>,
}

/// Whether an optional login is that of `user`.
pub open spec fn is_login(login: Option<String>, user: Seq<char>) -> bool {
    login matches Some(l) && same_ignoring_case(l@, user)
}

/// Whether `user` opened the pull request or is assigned to it.
pub open spec fn owns(pr: PullRequest, user: Seq<char>) -> bool {
    ||| is_login(pr.creator, user)
    ||| exists|j: int| 0 <= j < pr.assignees@.len() && is_login(#[trigger] pr.assignees@[j], user)
}

/// Whether `user` owns one of the pull requests.
pub open spec fn owns_some(prs: Seq<PullRequest>, user: Seq<char>) -> bool {
    exists|i: int| 0 <= i < prs.len() && owns(#[trigger] prs[i], user)
}

fn login_is(login: &Option<String>, user: &str) -> (r: bool)
    ensures
        r == is_login(*login, user@),
{
    match login {
        Some(l) => eq_ignore_ascii_case(l.as_str(), user),
        None => false,
    }
}

fn owns_pull(pr: &PullRequest, user: &str) -> (r: bool)
    ensures
        r == owns(*pr, user@),
{
    if login_is(&pr.creator, user) {
        return true;
    }
    let mut j: usize = 0;
    while j < pr.assignees.len()
        invariant
            j <= pr.assignees@.len(),
            forall|k: int| 0 <= k < j ==> !is_login(#[trigger] pr.assignees@[k], user@),
        decreases pr.assignees.len() - j,
    {
        if login_is(&pr.assignees[j], user) {
            return true;
        }
        j = j + 1;
    }
    false
}

/// Whether the user owns one of the pull requests.
pub fn owns_any(prs: &Vec<PullRequest>, user: &str) -> (r: bool)
    ensures
        r == owns_some(prs@, user@),
{
    let mut i: usize = 0;
    while i < prs.len()
        invariant
            i <= prs@.len(),
            forall|k: int| 0 <= k < i ==> !owns(#[trigger] prs@[k], user@),
        decreases prs.len() - i,
    {
        if owns_pull(&prs[i], user) {
            return true;
        }
        i = i + 1;
    }
    false
}

/// The pointer to a field of item `i` of a document that is a list.
pub open spec fn item_pointer(i: nat, field: Seq<char>) -> Seq<char> {
    "/"@ + decimal(i) + field
}

fn pointer_to(i: usize, field: &str) -> (r: String)
    ensures
        r@ == item_pointer(i as nat, field@),
{
    let mut out = String::from_str("/");
    out.append(format_u64(i as u64).as_str());
    out.append(field);
    out
}

/// The number of items of a list in a document, and none where there is no list.
pub open spec fn list_len(bytes: Seq<u8>, pointer: Seq<char>) -> nat {
    match json_count_at(bytes, pointer) {
        Some(n) => n,
        None => 0,
    }
}

/// An entry is item `i` of the list of emails in a document.
pub open spec fn is_email_item(bytes: Seq<u8>, i: nat, e: EmailEntry) -> bool {
    &&& e.verified == json_flag_at(bytes, item_pointer(i, "/verified"@))
    &&& view_opt(e.email) == json_text_at(bytes, item_pointer(i, "/email"@))
}

/// Reads the list of the user's emails.
pub fn read_emails(bytes: &[u8]) -> (r: Vec<EmailEntry>)
    ensures
        r@.len() == list_len(bytes@, ""@),
        forall|i: int| 0 <= i < r@.len() ==> is_email_item(bytes@, i as nat, #[trigger] r@[i]),
{
    let n: usize = match json_count(bytes, "") {
        Some(n) => n,
        None => 0,
    };
    let mut out: Vec<EmailEntry> = Vec::new();
    let mut i: usize = 0;
    while i < n
        invariant
            i <= n,
            out@.len() == i,
            forall|k: int| 0 <= k < i ==> is_email_item(bytes@, k as nat, #[trigger] out@[k]),
        decreases n - i,
    {
        let verified = json_flag(bytes, pointer_to(i, "/verified").as_str());
        let email = json_text(bytes, pointer_to(i, "/email").as_str());
        out.push(EmailEntry { verified, email });
        i = i + 1;
    }
    out
}

/// The pointer to the login of assignee `j` of pull request `i`.
pub open spec fn assignee_pointer(i: nat, j: nat) -> Seq<char> {
    item_pointer(i, "/assignees/"@ + decimal(j) + "/login"@)
}

/// A pull request is item `i` of the list of pull requests in a document.
pub open spec fn is_pull_item(bytes: Seq<u8>, i: nat, pr: PullRequest) -> bool {
    &&& view_opt(pr.creator) == json_text_at(bytes, item_pointer(i, "/user/login"@))
    &&& pr.assignees@.len() == list_len(bytes, item_pointer(i, "/assignees"@))
    &&& forall|j: int|
        0 <= j < pr.assignees@.len() ==> view_opt(#[trigger] pr.assignees@[j]) == json_text_at(
            bytes,
            assignee_pointer(i, j as nat),
        )
}

fn read_assignees(bytes: &[u8], i: usize) -> (r: Vec<Option<String>>)
    ensures
        r@.len() == list_len(bytes@, item_pointer(i as nat, "/assignees"@)),
        forall|j: int|
            0 <= j < r@.len() ==> view_opt(#[trigger] r@[j]) == json_text_at(
                bytes@,
                assignee_pointer(i as nat, j as nat),
            ),
{
    let n: usize = match json_count(bytes, pointer_to(i, "/assignees").as_str()) {
        Some(n) => n,
        None => 0,
    };
    let mut out: Vec<Option<String>> = Vec::new();
    let mut j: usize = 0;
    while j < n
        invariant
            j <= n,
            out@.len() == j,
            forall|k: int|
                0 <= k < j ==> view_opt(#[trigger] out@[k]) == json_text_at(
                    bytes@,
                    assignee_pointer(i as nat, k as nat),
                ),
        decreases n - j,
    {
        let mut field = String::from_str("/assignees/");
        field.append(format_u64(j as u64).as_str());
        field.append("/login");
        out.push(json_text(bytes, pointer_to(i, field.as_str()).as_str()));
        j = j + 1;
    }
    out
}

/// Reads a list of pull requests.
pub fn read_pull_requests(bytes: &[u8]) -> (r: Vec<PullRequest>)
    ensures
        r@.len() == list_len(bytes@, ""@),
        forall|i: int| 0 <= i < r@.len() ==> is_pull_item(bytes@, i as nat, #[trigger] r@[i]),
{
    let n: usize = match json_count(bytes, "") {
        Some(n) => n,
        None => 0,
    };
    let mut out: Vec<PullRequest> = Vec::new();
    let mut i: usize = 0;
    while i < n
        invariant
            i <= n,
            out@.len() == i,
            forall|k: int| 0 <= k < i ==> is_pull_item(bytes@, k as nat, #[trigger] out@[k]),
        decreases n - i,
    {
        let creator = json_text(bytes, pointer_to(i, "/user/login").as_str());
        let assignees = read_assignees(bytes, i);
        out.push(PullRequest { creator, assignees });
        i = i + 1;
    }
    out
}

/// Why an answer of the forge cannot be used.
#[derive(Debug, Clone, Copy, PartialEq, Eq, Structural)]
pub enum ForgeError {
    /// The answer is no JSON document.
    NotJson,
    /// The answer does not name the user.
    MissingLogin,
}

/// Reads the login out of the answer to `/user`.
pub fn read_login(bytes: &[u8]) -> (r: Result<String, ForgeError>)
    ensures
        match r {
            Ok(login) => json_text_at(bytes@, "/login"@) == Some(login@),
            Err(ForgeError::NotJson) => !is_json(bytes@) && json_text_at(bytes@, "/login"@) is None,
            Err(ForgeError::MissingLogin) => is_json(bytes@) && json_text_at(
                bytes@,
                "/login"@,
            ) is None,
        },
{
    match json_text(bytes, "/login") {
        Some(login) => Ok(login),
        None => {
            if json_is_valid(bytes) {
                Err(ForgeError::MissingLogin)
            } else {
                Err(ForgeError::NotJson)
            }
        },
    }
}

/// Whether `emails` are the verified emails in the answer to `/user/emails`.
pub open spec fn are_verified_emails(bytes: Seq<u8>, emails: Seq<Seq<char>>) -> bool {
    exists|entries: Seq<EmailEntry>|
        {
            &&& entries.len() == list_len(bytes, ""@)
            &&& forall|i: int|
                0 <= i < entries.len() ==> is_email_item(bytes, i as nat, #[trigger] entries[i])
            &&& emails == #[trigger] verified_of(entries)
        }
}

/// Reads the verified emails out of the answer to `/user/emails`.
pub fn read_verified_emails(bytes: &[u8]) -> (r: Result<Vec<String>, ForgeError>)
    ensures
        match r {
            Ok(emails) => is_json(bytes@) && are_verified_emails(bytes@, views(emails@)),
            Err(e) => e == ForgeError::NotJson && !is_json(bytes@),
        },
{
    if !json_is_valid(bytes) {
        return Err(ForgeError::NotJson);
    }
    let entries = read_emails(bytes);
    let emails = verified_emails(&entries);
    assert(views(emails@) == verified_of(entries@));
    Ok(emails)
}

/// Whether `owned` is whether the answer to a pull request query shows one that
/// the user owns.
pub open spec fn is_ownership(bytes: Seq<u8>, user: Seq<char>, owned: bool) -> bool {
    exists|prs: Seq<PullRequest>|
        {
            &&& prs.len() == list_len(bytes, ""@)
            &&& forall|i: int|
                0 <= i < prs.len() ==> is_pull_item(bytes, i as nat, #[trigger] prs[i])
            &&& owned == #[trigger] owns_some(prs, user)
        }
}

/// Whether the answer to a pull request query shows one that the user owns.
pub fn read_ownership(bytes: &[u8], user: &str) -> (r: Result<bool, ForgeError>)
    ensures
        match r {
            Ok(owned) => is_json(bytes@) && is_ownership(bytes@, user@, owned),
            Err(e) => e == ForgeError::NotJson && !is_json(bytes@),
        },
{
    if !json_is_valid(bytes) {
        return Err(ForgeError::NotJson);
    }
    let prs = read_pull_requests(bytes);
    let owned = owns_any(&prs, user);
    assert(owned == owns_some(prs@, user@));
    Ok(owned)
}

// ---------------------------------------------------------------------------
// Forge cache
// ---------------------------------------------------------------------------

/// How long the user's name and emails stay fresh, in seconds.
pub const USER_INFO_TTL_SECS: u64 = 3600;

/// How long the answer to a pull request query stays fresh, in seconds.
pub const PR_CACHE_TTL_SECS: u64 = 300;

/// The user that the forge has authenticated.
#[derive(Debug)]
pub struct UserInfo {
    pub username: String,
    pub emails: Vec<String>,
    pub fetched_at: Duration,
}

/// The answer to a pull request query.
#[derive(Debug)]
pub struct PrAnswer {
    pub owner: String,
    pub repo: String,
    pub branch: String,
    pub is_owned: bool,
    pub fetched_at: Duration,
}

impl PrAnswer {
    /// Whether the answer is the one for the given branch.
    pub open spec fn answers(self, owner: Seq<char>, repo: Seq<char>, branch: Seq<char>) -> bool {
        self.owner@ == owner && self.repo@ == repo && self.branch@ == branch
    }
}

/// The first answer for a branch.
pub open spec fn pr_answer(
    answers: Seq<PrAnswer>,
    owner: Seq<char>,
    repo: Seq<char>,
    branch: Seq<char>,
) -> Option<PrAnswer>
    decreases answers.len(),
{
    if answers.len() == 0 {
        None
    } else if answers[0].answers(owner, repo, branch) {
        Some(answers[0])
    } else {
        pr_answer(answers.drop_first(), owner, repo, branch)
    }
}

/// Taking away an answer for another branch changes nothing.
proof fn lemma_remove_other(
    answers: Seq<PrAnswer>,
    i: int,
    owner: Seq<char>,
    repo: Seq<char>,
    branch: Seq<char>,
)
    requires
        0 <= i < answers.len(),
        !answers[i].answers(owner, repo, branch),
    ensures
        pr_answer(answers.remove(i), owner, repo, branch) == pr_answer(
            answers,
            owner,
            repo,
            branch,
        ),
    decreases answers.len(),
{
    if i == 0 {
        assert(answers.remove(0) =~= answers.drop_first());
    } else {
        assert(answers.remove(i)[0] == answers[0]);
        assert(answers.remove(i).drop_first() =~= answers.drop_first().remove(i - 1));
        lemma_remove_other(answers.drop_first(), i - 1, owner, repo, branch);
    }
}

/// Whether something fetched at `at` is younger than `ttl` seconds.
pub open spec fn is_fresh(at: Duration, ttl: u64, now: Duration) -> bool {
    now@ < at@ + ttl * NANOS_PER_SEC
}

fn fresh(at: Duration, ttl: u64, now: Duration) -> (r: bool)
    ensures
        r == (ttl > 0 && is_fresh(at, ttl, now)),
{
    let age = now.saturating_sub(at);
    !age.at_least(Duration::from_secs(ttl))
}

/// What to do next to answer a question about the user.
#[derive(Debug)]
pub enum ForgeStep {
    /// The answer is known.
    Answer(bool),
    /// Find out whether `gh` is there and authenticated.
    CheckGh,
    /// Ask the forge who the user is.
    FetchUser,
    /// Ask the forge for pull requests, at the given endpoint.
    FetchPrs(String),
}

/// Cached forge data, shared across sync cycles.
#[derive(Debug)]
pub struct ForgeCache {
    /// Whether `gh` is available. Checked once at first use.
    pub gh_available: Option<bool>,
    /// Cached GitHub username + verified emails.
    pub user_info: Option<UserInfo>,
    /// Cached PR ownership lookups, the newest first.
    pub pr_cache: Vec<PrAnswer>,
}

/// The endpoint that lists the open pull requests of a branch.
pub open spec fn pulls_endpoint(
    owner: Seq<char>,
    repo: Seq<char>,
    branch: Seq<char>,
) -> Seq<char> {
    "/repos/"@ + owner + "/"@ + repo + "/pulls?head="@ + owner + ":"@ + branch + "&state=open"@
}

/// Whether one of the emails is `email`.
pub open spec fn knows_email(emails: Seq<Seq<char>>, email: Seq<char>) -> bool {
    exists|i: int| 0 <= i < emails.len() && same_ignoring_case(#[trigger] emails[i], email)
}

fn any_email(emails: &Vec<String>, email: &str) -> (r: bool)
    ensures
        r == knows_email(views(emails@), email@),
{
    let mut i: usize = 0;
    while i < emails.len()
        invariant
            i <= emails@.len(),
            forall|k: int| 0 <= k < i ==> !same_ignoring_case(#[trigger] views(emails@)[k], email@),
        decreases emails.len() - i,
    {
        if eq_ignore_ascii_case(emails[i].as_str(), email) {
            assert(same_ignoring_case(views(emails@)[i as int], email@));
            return true;
        }
        i = i + 1;
    }
    false
}

impl ForgeCache {
    /// The user, if the forge named them not too long ago.
    pub open spec fn fresh_user(self, now: Duration) -> Option<UserInfo> {
        match self.user_info {
            Some(u) => if is_fresh(u.fetched_at, USER_INFO_TTL_SECS, now) {
                Some(u)
            } else {
                None
            },
            None => None,
        }
    }

    /// The answer for a branch, if the forge gave it not too long ago.
    pub open spec fn fresh_pr(
        self,
        owner: Seq<char>,
        repo: Seq<char>,
        branch: Seq<char>,
        now: Duration,
    ) -> Option<bool> {
        match pr_answer(self.pr_cache@, owner, repo, branch) {
            Some(a) => if is_fresh(a.fetched_at, PR_CACHE_TTL_SECS, now) {
                Some(a.is_owned)
            } else {
                None
            },
            None => None,
        }
    }

    /// An empty cache.
    pub fn new() -> (r: ForgeCache)
        ensures
            r.gh_available is None,
            r.user_info is None,
            r.pr_cache@.len() == 0,
    {
        ForgeCache { gh_available: None, user_info: None, pr_cache: Vec::new() }
    }

    /// Whether this is `was` with what is known of the way to ask.
    pub open spec fn has_gh(self, was: ForgeCache, known: Option<bool>) -> bool {
        self == (ForgeCache { gh_available: known, ..was })
    }

    /// Whether this is `was` with what is known of the user.
    pub open spec fn has_user(self, was: ForgeCache, user: UserInfo) -> bool {
        self == (ForgeCache { user_info: Some(user), ..was })
    }

    /// Remembers whether `gh` is available.
    pub fn record_gh(&mut self, available: bool)
        ensures
            final(self).has_gh(*old(self), Some(available)),
            final(self).gh_available == Some(available),
            final(self).user_info == old(self).user_info,
            final(self).pr_cache == old(self).pr_cache,
    {
        self.gh_available = Some(available);
    }

    /// Invalidate the gh availability cache (e.g. after an auth failure).
    pub fn invalidate_gh(&mut self)
        ensures
            final(self).has_gh(*old(self), None),
            final(self).gh_available is None,
            final(self).user_info == old(self).user_info,
            final(self).pr_cache == old(self).pr_cache,
    {
        self.gh_available = None;
    }

    /// Remembers who the user is.
    pub fn record_user(&mut self, username: String, emails: Vec<String>, now: Duration)
        ensures
            final(self).has_user(*old(self), UserInfo { username, emails, fetched_at: now }),
            final(self).gh_available == old(self).gh_available,
            final(self).user_info == Some(UserInfo { username, emails, fetched_at: now }),
            final(self).pr_cache == old(self).pr_cache,
    {
        self.user_info = Some(UserInfo { username, emails, fetched_at: now });
    }

    /// Remembers the answer for a branch.
    pub fn record_pr(&mut self, gh_repo: &GitHubRepo, branch: &str, is_owned: bool, now: Duration)
        ensures
            final(self).gh_available == old(self).gh_available,
            final(self).user_info == old(self).user_info,
            pr_answer(
                final(self).pr_cache@,
                gh_repo.owner@,
                gh_repo.repo@,
                branch@,
            ) matches Some(a) && a.is_owned == is_owned && a.fetched_at == now,
            forall|o: Seq<char>, r: Seq<char>, b: Seq<char>|
                o != gh_repo.owner@ || r != gh_repo.repo@ || b != branch@ ==> #[trigger] pr_answer(
                    final(self).pr_cache@,
                    o,
                    r,
                    b,
                ) == pr_answer(old(self).pr_cache@, o, r, b),
    {
        let ghost before_list = self.pr_cache@;
        let mut i: usize = 0;
        while i < self.pr_cache.len()
            invariant
                i <= self.pr_cache@.len(),
                self.gh_available == old(self).gh_available,
                self.user_info == old(self).user_info,
                before_list == old(self).pr_cache@,
                forall|o: Seq<char>, r: Seq<char>, b: Seq<char>|
                    o != gh_repo.owner@ || r != gh_repo.repo@ || b != branch@
                        ==> #[trigger] pr_answer(self.pr_cache@, o, r, b) == pr_answer(
                        before_list,
                        o,
                        r,
                        b,
                    ),
            decreases self.pr_cache.len() - i,
        {
            let same = text_eq(self.pr_cache[i].owner.as_str(), gh_repo.owner.as_str()) && text_eq(
                self.pr_cache[i].repo.as_str(),
                gh_repo.repo.as_str(),
            ) && text_eq(self.pr_cache[i].branch.as_str(), branch);
            if same {
                let ghost cur = self.pr_cache@;
                let _old = self.pr_cache.remove(i);
                proof {
                    assert forall|o: Seq<char>, r: Seq<char>, b: Seq<char>|
                        o != gh_repo.owner@ || r != gh_repo.repo@ || b
                            != branch@ implies #[trigger] pr_answer(self.pr_cache@, o, r, b)
                        == pr_answer(before_list, o, r, b) by {
                        lemma_remove_other(cur, i as int, o, r, b);
                        assert(pr_answer(cur, o, r, b) == pr_answer(before_list, o, r, b));
                    }
                }
            } else {
                i = i + 1;
            }
        }
        let answer = PrAnswer {
            owner: String::from_str(gh_repo.owner.as_str()),
            repo: String::from_str(gh_repo.repo.as_str()),
            branch: String::from_str(branch),
            is_owned,
            fetched_at: now,
        };
        let ghost rest = self.pr_cache@;
        self.pr_cache.insert(0, answer);
        assert(self.pr_cache@.drop_first() =~= rest);
        proof {
            assert forall|o: Seq<char>, r: Seq<char>, b: Seq<char>|
                o != gh_repo.owner@ || r != gh_repo.repo@ || b != branch@ implies #[trigger] pr_answer(
                self.pr_cache@,
                o,
                r,
                b,
            ) == pr_answer(before_list, o, r, b) by {
                assert(pr_answer(rest, o, r, b) == pr_answer(before_list, o, r, b));
                assert(!self.pr_cache@[0].answers(o, r, b));
            }
        }
    }

    /// Check if a committer email matches any verified email of the GitHub user.
    pub fn email_matches_user(&self, committer_email: &str, now: Duration) -> (r: ForgeStep)
        ensures
            match self.gh_available {
                None => r is CheckGh,
                Some(false) => r == ForgeStep::Answer(false),
                Some(true) => match self.fresh_user(now) {
                    Some(u) => r == ForgeStep::Answer(
                        knows_email(views(u.emails@), committer_email@),
                    ),
                    None => r is FetchUser,
                },
            },
    {
        match self.gh_available {
            None => ForgeStep::CheckGh,
            Some(false) => ForgeStep::Answer(false),
            Some(true) => match &self.user_info {
                Some(u) => {
                    if fresh(u.fetched_at, USER_INFO_TTL_SECS, now) {
                        ForgeStep::Answer(any_email(&u.emails, committer_email))
                    } else {
                        ForgeStep::FetchUser
                    }
                },
                None => ForgeStep::FetchUser,
            },
        }
    }

    /// The position of the first answer for a branch.
    fn find_pr(&self, gh_repo: &GitHubRepo, branch: &str) -> (r: Option<usize>)
        ensures
            match r {
                Some(i) => i < self.pr_cache@.len() && pr_answer(
                    self.pr_cache@,
                    gh_repo.owner@,
                    gh_repo.repo@,
                    branch@,
                ) == Some(self.pr_cache@[i as int]),
                None => pr_answer(
                    self.pr_cache@,
                    gh_repo.owner@,
                    gh_repo.repo@,
                    branch@,
                ) is None,
            },
    {
        let mut i: usize = 0;
        assert(self.pr_cache@.skip(0) =~= self.pr_cache@);
        while i < self.pr_cache.len()
            invariant
                i <= self.pr_cache@.len(),
                pr_answer(self.pr_cache@, gh_repo.owner@, gh_repo.repo@, branch@) == pr_answer(
                    self.pr_cache@.skip(i as int),
                    gh_repo.owner@,
                    gh_repo.repo@,
                    branch@,
                ),
            decreases self.pr_cache.len() - i,
        {
            let a = &self.pr_cache[i];
            if text_eq(a.owner.as_str(), gh_repo.owner.as_str()) && text_eq(
                a.repo.as_str(),
                gh_repo.repo.as_str(),
            ) && text_eq(a.branch.as_str(), branch) {
                return Some(i);
            }
            assert(self.pr_cache@.skip(i as int).drop_first() =~= self.pr_cache@.skip(i + 1));
            i = i + 1;
        }
        None
    }

    /// Check if the authenticated user owns a PR for the given branch
    /// (is creator or assignee).
    pub fn user_owns_pr(&self, gh_repo: &GitHubRepo, branch: &str, now: Duration) -> (r: ForgeStep)
        ensures
            match self.gh_available {
                None => r is CheckGh,
                Some(false) => r == ForgeStep::Answer(false),
                Some(true) => match self.fresh_pr(gh_repo.owner@, gh_repo.repo@, branch@, now) {
                    Some(owned) => r == ForgeStep::Answer(owned),
                    None => if self.fresh_user(now) is None {
                        r is FetchUser
                    } else {
                        r matches ForgeStep::FetchPrs(endpoint) && endpoint@ == pulls_endpoint(
                            gh_repo.owner@,
                            gh_repo.repo@,
                            branch@,
                        )
                    },
                },
            },
    {
        match self.gh_available {
            None => {
                return ForgeStep::CheckGh;
            },
            Some(false) => {
                return ForgeStep::Answer(false);
            },
            Some(true) => {},
        }
        if let Some(i) = self.find_pr(gh_repo, branch) {
            let a = &self.pr_cache[i];
            if fresh(a.fetched_at, PR_CACHE_TTL_SECS, now) {
                return ForgeStep::Answer(a.is_owned);
            }
        }
        let known = match &self.user_info {
            Some(u) => fresh(u.fetched_at, USER_INFO_TTL_SECS, now),
            None => false,
        };
        if !known {
            return ForgeStep::FetchUser;
        }
        let mut endpoint = String::from_str("/repos/");
        endpoint.append(gh_repo.owner.as_str());
        endpoint.append("/");
        endpoint.append(gh_repo.repo.as_str());
        endpoint.append("/pulls?head=");
        endpoint.append(gh_repo.owner.as_str());
        endpoint.append(":");
        endpoint.append(branch);
        endpoint.append("&state=open");
        ForgeStep::FetchPrs(endpoint)
    }
}

impl ForgeCache {
    /// Takes in what the forge answered to `/user` and `/user/emails`. An answer
    /// that did not come is `None`. Says whether the user is known now.
    pub fn absorb_user(&mut self, user: Option<&[u8]>, emails: Option<&[u8]>, now: Duration) -> (r:
        bool)
        ensures
            r == (user matches Some(u) && json_text_at(u@, "/login"@) is Some && (
            emails matches Some(e) && is_json(e@))),
            r ==> (final(self).user_info matches Some(info) && json_text_at(user->0@, "/login"@)
                == Some(info.username@) && are_verified_emails(emails->0@, views(info.emails@))
                && info.fetched_at == now),
            !r ==> final(self).user_info == old(self).user_info,
            final(self).gh_available == old(self).gh_available,
            final(self).pr_cache == old(self).pr_cache,
    {
        let login = match user {
            Some(bytes) => read_login(bytes),
            None => {
                return false;
            },
        };
        let list = match emails {
            Some(bytes) => read_verified_emails(bytes),
            None => {
                return false;
            },
        };
        match login {
            Ok(username) => match list {
                Ok(emails) => {
                    self.record_user(username, emails, now);
                    true
                },
                Err(_) => false,
            },
            Err(_) => false,
        }
    }

    /// The answer about an email when the forge did not name the user: no. What
    /// is known of `gh` is no longer trusted.
    pub fn give_up_on_email(&mut self) -> (r: bool)
        ensures
            final(self).has_gh(*old(self), None),
            !r,
            final(self).gh_available is None,
            final(self).user_info == old(self).user_info,
            final(self).pr_cache == old(self).pr_cache,
    {
        self.invalidate_gh();
        false
    }

    /// Takes in what the forge answered to a pull request query. An answer that
    /// did not come, or cannot be read, shows no pull request. Either way the
    /// answer is remembered.
    pub fn absorb_prs(
        &mut self,
        gh_repo: &GitHubRepo,
        branch: &str,
        reply: Option<&[u8]>,
        now: Duration,
    ) -> (r: bool)
        requires
            old(self).user_info is Some,
        ensures
            match reply {
                Some(bytes) if is_json(bytes@) => is_ownership(
                    bytes@,
                    old(self).user_info->0.username@,
                    r,
                ),
                _ => !r,
            },
            final(self).gh_available == old(self).gh_available,
            final(self).user_info == old(self).user_info,
            pr_answer(
                final(self).pr_cache@,
                gh_repo.owner@,
                gh_repo.repo@,
                branch@,
            ) matches Some(a) && a.is_owned == r && a.fetched_at == now,
            forall|o: Seq<char>, p: Seq<char>, b: Seq<char>|
                o != gh_repo.owner@ || p != gh_repo.repo@ || b != branch@ ==> #[trigger] pr_answer(
                    final(self).pr_cache@,
                    o,
                    p,
                    b,
                ) == pr_answer(old(self).pr_cache@, o, p, b),
    {
        let owned = match (reply, &self.user_info) {
            (Some(bytes), Some(user)) => match read_ownership(bytes, user.username.as_str()) {
                Ok(owned) => owned,
                Err(_) => false,
            },
            _ => false,
        };
        self.record_pr(gh_repo, branch, owned, now);
        owned
    }
}

/// An answer that was just taken in is given again without asking, as long as it
/// is fresh.
pub proof fn law_pr_answer_is_remembered(
    cache: ForgeCache,
    gh_repo: GitHubRepo,
    branch: Seq<char>,
    owned: bool,
    at: Duration,
    now: Duration,
)
    requires
        pr_answer(cache.pr_cache@, gh_repo.owner@, gh_repo.repo@, branch) matches Some(a)
            && a.is_owned == owned && a.fetched_at == at,
        now@ < at@ + PR_CACHE_TTL_SECS * NANOS_PER_SEC,
    ensures
        cache.fresh_pr(gh_repo.owner@, gh_repo.repo@, branch, now) == Some(owned),
{
}

impl Default for ForgeCache {
    fn default() -> (r: ForgeCache)
        ensures
            r.gh_available is None,
            r.user_info is None,
            r.pr_cache@.len() == 0,
    {
        ForgeCache::new()
    }
}

/// Something that was just fetched is fresh until its time is over.
pub proof fn law_fresh_until_expiry(at: Duration, ttl: u64, now: Duration)
    requires
        at@ <= now@,
    ensures
        is_fresh(at, ttl, now) <==> now@ - at@ < ttl * NANOS_PER_SEC,
{
}

// ---------------------------------------------------------------------------
// Who owns what
// ---------------------------------------------------------------------------

/// The creator and every assignee of a pull request own it, whatever the case of their
/// login, and nobody else does.
pub proof fn law_creator_and_assignees_own_a_pull_request(
    prs: Seq<PullRequest>,
    user: Seq<char>,
    i: int,
    j: int,
)
    ensures
        0 <= i < prs.len() && (prs[i].creator matches Some(l) && same_ignoring_case(l@, user))
            ==> owns_some(prs, user),
        0 <= i < prs.len() && 0 <= j < prs[i].assignees@.len() && (
        prs[i].assignees@[j] matches Some(l) && same_ignoring_case(l@, user)) ==> owns_some(
            prs,
            user,
        ),
        (forall|a: int|
            0 <= a < prs.len() ==> {
                &&& (#[trigger] prs[a]).creator matches Some(l) ==> !same_ignoring_case(l@, user)
                &&& forall|b: int|
                    0 <= b < prs[a].assignees@.len() ==> (
                    #[trigger] prs[a].assignees@[b] matches Some(l) ==> !same_ignoring_case(
                        l@,
                        user,
                    ))
            }) ==> !owns_some(prs, user),
{
    if 0 <= i < prs.len() && 0 <= j < prs[i].assignees@.len() && (
    prs[i].assignees@[j] matches Some(l) && same_ignoring_case(l@, user)) {
        assert(is_login(prs[i].assignees@[j], user));
        assert(owns(prs[i], user));
    }
    if 0 <= i < prs.len() && (prs[i].creator matches Some(l) && same_ignoring_case(l@, user)) {
        assert(owns(prs[i], user));
    }
    if owns_some(prs, user) {
        let a = choose|a: int| 0 <= a < prs.len() && owns(#[trigger] prs[a], user);
        let pr = prs[a];
        if !is_login(pr.creator, user) {
            let b = choose|b: int|
                0 <= b < pr.assignees@.len() && is_login(#[trigger] pr.assignees@[b], user);
            assert(prs[a].assignees@[b] is Some);
        }
    }
}

/// Whether a text of a document is there and is the login of `user`.
pub open spec fn has_login(bytes: Seq<u8>, pointer: Seq<char>, user: Seq<char>) -> bool {
    json_text_at(bytes, pointer) matches Some(l) && same_ignoring_case(l, user)
}

/// The answer to a pull request query shows one that the user owns exactly if one of
/// its items has the user's login as that of its creator or of one of its assignees.
pub proof fn law_ownership_is_read_from_the_answer(bytes: Seq<u8>, user: Seq<char>, owned: bool)
    requires
        is_ownership(bytes, user, owned),
    ensures
        owned <==> exists|i: nat|
            (json_count_at(bytes, ""@) matches Some(n) && i < n) && {
                ||| has_login(bytes, "/"@ + #[trigger] decimal(i) + "/user/login"@, user)
                ||| exists|j: nat|
                    (json_count_at(bytes, "/"@ + decimal(i) + "/assignees"@) matches Some(m) && j
                        < m) && has_login(
                        bytes,
                        "/"@ + decimal(i) + ("/assignees/"@ + #[trigger] decimal(j) + "/login"@),
                        user,
                    )
            },
{
    let prs = choose|prs: Seq<PullRequest>|
        {
            &&& prs.len() == list_len(bytes, ""@)
            &&& forall|i: int|
                0 <= i < prs.len() ==> is_pull_item(bytes, i as nat, #[trigger] prs[i])
            &&& owned == #[trigger] owns_some(prs, user)
        };
    if owned {
        let a = choose|a: int| 0 <= a < prs.len() && owns(#[trigger] prs[a], user);
        let pr = prs[a];
        let i = a as nat;
        assert(is_pull_item(bytes, i, pr));
        let d = decimal(i);
        if is_login(pr.creator, user) {
            assert(has_login(bytes, "/"@ + d + "/user/login"@, user));
        } else {
            let b = choose|b: int|
                0 <= b < pr.assignees@.len() && is_login(#[trigger] pr.assignees@[b], user);
            let j = b as nat;
            assert(view_opt(pr.assignees@[b]) == json_text_at(bytes, assignee_pointer(i, j)));
            let e = decimal(j);
            assert(has_login(bytes, "/"@ + d + ("/assignees/"@ + e + "/login"@), user));
        }
    }
    if exists|i: nat|
        (json_count_at(bytes, ""@) matches Some(n) && i < n) && {
            ||| has_login(bytes, "/"@ + #[trigger] decimal(i) + "/user/login"@, user)
            ||| exists|j: nat|
                (json_count_at(bytes, "/"@ + decimal(i) + "/assignees"@) matches Some(m) && j < m)
                    && has_login(
                    bytes,
                    "/"@ + decimal(i) + ("/assignees/"@ + #[trigger] decimal(j) + "/login"@),
                    user,
                )
        } {
        let i = choose|i: nat|
            (json_count_at(bytes, ""@) matches Some(n) && i < n) && {
                ||| has_login(bytes, "/"@ + #[trigger] decimal(i) + "/user/login"@, user)
                ||| exists|j: nat|
                    (json_count_at(bytes, "/"@ + decimal(i) + "/assignees"@) matches Some(m) && j
                        < m) && has_login(
                        bytes,
                        "/"@ + decimal(i) + ("/assignees/"@ + #[trigger] decimal(j) + "/login"@),
                        user,
                    )
            };
        let pr = prs[i as int];
        assert(is_pull_item(bytes, i, pr));
        if has_login(bytes, "/"@ + decimal(i) + "/user/login"@, user) {
            assert(is_login(pr.creator, user));
        } else {
            let j = choose|j: nat|
                (json_count_at(bytes, "/"@ + decimal(i) + "/assignees"@) matches Some(m) && j < m)
                    && has_login(
                    bytes,
                    "/"@ + decimal(i) + ("/assignees/"@ + #[trigger] decimal(j) + "/login"@),
                    user,
                );
            assert(view_opt(pr.assignees@[j as int]) == json_text_at(
                bytes,
                assignee_pointer(i, j),
            ));
            assert(is_login(pr.assignees@[j as int], user));
        }
        assert(owns(pr, user));
    }
}

/// The emails that count are those of the entries that are marked as verified, and
/// they stand in the order of the entries.
pub proof fn law_only_verified_emails_count(
    entries: Seq<EmailEntry>,
    e: EmailEntry,
    email: Seq<char>,
)
    ensures
        verified_of(Seq::empty()).len() == 0,
        e.verified == Some(true) ==> (e.email matches Some(t) ==> verified_of(entries.push(e))
            == verified_of(entries).push(t@)),
        e.verified != Some(true) || e.email is None ==> verified_of(entries.push(e))
            == verified_of(entries),
        verified_of(entries).contains(email) <==> exists|i: int|
            0 <= i < entries.len() && (#[trigger] entries[i]).verified == Some(true) && (
            entries[i].email matches Some(t) && t@ == email),
    decreases entries.len(),
{
    assert(entries.push(e).drop_last() =~= entries);
    if entries.len() > 0 {
        let front = entries.drop_last();
        let last = entries.last();
        law_only_verified_emails_count(front, last, email);
        assert(front.push(last) =~= entries);
        if last.verified == Some(true) && last.email is Some {
            crate::text::lemma_push_contains(verified_of(front), last.email->0@, email);
            if last.email->0@ == email {
                assert(entries[entries.len() - 1] == last);
            }
        }
        if verified_of(front).contains(email) {
            let i = choose|i: int|
                0 <= i < front.len() && (#[trigger] front[i]).verified == Some(true) && (
                front[i].email matches Some(t) && t@ == email);
            assert(entries[i] == front[i]);
        }
        if exists|i: int|
            0 <= i < entries.len() && (#[trigger] entries[i]).verified == Some(true) && (
            entries[i].email matches Some(t) && t@ == email) {
            let i = choose|i: int|
                0 <= i < entries.len() && (#[trigger] entries[i]).verified == Some(true) && (
                entries[i].email matches Some(t) && t@ == email);
            if i < front.len() {
                assert(front[i] == entries[i]);
            }
        }
    }
}

/// The entries of the list of emails are read from the fields of its items.
pub proof fn law_email_entries_are_read(bytes: Seq<u8>, i: nat, e: EmailEntry)
    requires
        is_email_item(bytes, i, e),
    ensures
        e.verified == json_flag_at(bytes, "/"@ + decimal(i) + "/verified"@),
        e.email matches Some(t) ==> json_text_at(bytes, "/"@ + decimal(i) + "/email"@) == Some(t@),
        e.email is None ==> json_text_at(bytes, "/"@ + decimal(i) + "/email"@) is None,
{
}

/// An email is known if it is one of the user's, whatever its case.
pub proof fn law_emails_are_known_in_any_case(emails: Seq<Seq<char>>, email: Seq<char>, i: int)
    ensures
        0 <= i < emails.len() && same_ignoring_case(emails[i], email) ==> knows_email(
            emails,
            email,
        ),
        (forall|k: int| 0 <= k < emails.len() ==> !same_ignoring_case(#[trigger] emails[k], email))
            ==> !knows_email(emails, email),
{
}

/// The answer for a branch is the newest that was kept for its owner, its repo and its
/// name, and no other.
pub proof fn law_answer_is_for_the_branch(
    answers: Seq<PrAnswer>,
    owner: Seq<char>,
    repo: Seq<char>,
    branch: Seq<char>,
    i: int,
)
    ensures
        0 <= i < answers.len() && answers[i].owner@ == owner && answers[i].repo@ == repo
            && answers[i].branch@ == branch && (forall|k: int|
            0 <= k < i ==> (#[trigger] answers[k]).owner@ != owner || answers[k].repo@ != repo
                || answers[k].branch@ != branch) ==> pr_answer(answers, owner, repo, branch)
            == Some(answers[i]),
        pr_answer(answers, owner, repo, branch) matches Some(a) ==> a.owner@ == owner && a.repo@
            == repo && a.branch@ == branch,
        pr_answer(answers, owner, repo, branch) is None && 0 <= i < answers.len()
            ==> answers[i].owner@ != owner || answers[i].repo@ != repo || answers[i].branch@
            != branch,
    decreases answers.len(),
{
    if answers.len() > 0 {
        let rest = answers.drop_first();
        law_answer_is_for_the_branch(rest, owner, repo, branch, i - 1);
        if 0 < i < answers.len() {
            assert(rest[i - 1] == answers[i]);
            if forall|k: int|
                0 <= k < i ==> (#[trigger] answers[k]).owner@ != owner || answers[k].repo@ != repo
                    || answers[k].branch@ != branch {
                assert(answers[0].owner@ != owner || answers[0].repo@ != repo
                    || answers[0].branch@ != branch);
                assert forall|k: int| 0 <= k < i - 1 implies (#[trigger] rest[k]).owner@ != owner
                    || rest[k].repo@ != repo || rest[k].branch@ != branch by {
                    assert(rest[k] == answers[k + 1]);
                }
            }
        }
    }
}

/// Who the user is stays known for an hour, and an answer about a branch for five
/// minutes.
pub proof fn law_answers_grow_old(
    cache: ForgeCache,
    owner: Seq<char>,
    repo: Seq<char>,
    branch: Seq<char>,
    now: Duration,
)
    ensures
        cache.user_info matches Some(u) ==> {
            &&& now@ < u.fetched_at@ + 3600 * 1_000_000_000 ==> cache.fresh_user(now) == Some(u)
            &&& now@ >= u.fetched_at@ + 3600 * 1_000_000_000 ==> cache.fresh_user(now) is None
        },
        cache.user_info is None ==> cache.fresh_user(now) is None,
        pr_answer(cache.pr_cache@, owner, repo, branch) matches Some(a) ==> {
            &&& now@ < a.fetched_at@ + 300 * 1_000_000_000 ==> cache.fresh_pr(
                owner,
                repo,
                branch,
                now,
            ) == Some(a.is_owned)
            &&& now@ >= a.fetched_at@ + 300 * 1_000_000_000 ==> cache.fresh_pr(
                owner,
                repo,
                branch,
                now,
            ) is None
        },
        pr_answer(cache.pr_cache@, owner, repo, branch) is None ==> cache.fresh_pr(
            owner,
            repo,
            branch,
            now,
        ) is None,
{
}

/// Open pull requests are asked for by the repo, and by the branch of its owner.
pub proof fn law_pulls_are_asked_for_by_branch(
    owner: Seq<char>,
    repo: Seq<char>,
    branch: Seq<char>,
)
    ensures
        has_prefix(pulls_endpoint(owner, repo, branch), "/repos/"@ + owner + "/"@ + repo
            + "/pulls?"@),
        has_suffix(pulls_endpoint(owner, repo, branch), "head="@ + owner + ":"@ + branch
            + "&state=open"@),
        pulls_endpoint(owner, repo, branch) == "/repos/"@ + owner + "/"@ + repo + (
        "/pulls?head="@ + owner + ":"@ + branch + "&state=open"@),
        pulls_endpoint(owner, repo, branch).len() == 2 * owner.len() + repo.len() + branch.len()
            + 32,
{
    reveal_strlit("/repos/");
    reveal_strlit("/");
    reveal_strlit("/pulls?");
    reveal_strlit("/pulls?head=");
    reveal_strlit("head=");
    reveal_strlit(":");
    reveal_strlit("&state=open");
    let e = pulls_endpoint(owner, repo, branch);
    let front = "/repos/"@ + owner + "/"@ + repo + "/pulls?"@;
    let back = "head="@ + owner + ":"@ + branch + "&state=open"@;
    assert("/pulls?head="@ =~= "/pulls?"@ + "head="@);
    assert(e =~= front + back);
    assert(e =~= "/repos/"@ + owner + "/"@ + repo + ("/pulls?head="@ + owner + ":"@ + branch
        + "&state=open"@));
    crate::text::law_ends_are_found(front, back);
    crate::text::law_ends_are_found(back, front);
}

/// Only an address that begins in one of the four ways of GitHub names a repo, and
/// then both the owner and the repo have a name.
pub proof fn law_other_addresses_name_no_repo(raw: Seq<char>)
    ensures
        github_remote(raw) matches Some((owner, repo)) ==> {
            &&& owner.len() > 0 && !owner.contains('/')
            &&& repo.len() > 0
            &&& {
                ||| has_prefix(trimmed(raw), "git@github.com:"@)
                ||| has_prefix(trimmed(raw), "https://github.com/"@)
                ||| has_prefix(trimmed(raw), "http://github.com/"@)
                ||| has_prefix(trimmed(raw), "ssh://git@github.com/"@)
            }
        },
{
    let url = trimmed(raw);
    let path = if has_prefix(url, "git@github.com:"@) {
        without_suffix(url.skip("git@github.com:"@.len() as int), ".git"@)
    } else {
        match github_url_path(url) {
            Some(p) => without_suffix(without_suffix(p, ".git"@), "/"@),
            None => Seq::<char>::empty(),
        }
    };
    crate::text::lemma_first_index(path, '/');
    let owner = before(path, '/');
    if owner.contains('/') {
        let i = choose|i: int| 0 <= i < owner.len() && owner[i] == '/';
        assert(path[i] == '/');
    }
}

/// White space around an address does not matter, and neither does a slash at the end
/// of a URL.
pub proof fn law_address_may_end_in_a_slash(
    head: Seq<char>,
    owner: Seq<char>,
    repo: Seq<char>,
    front: Seq<char>,
    back: Seq<char>,
)
    requires
        is_url_head(head),
        owner.len() > 0,
        repo.len() > 0,
        !owner.contains('/'),
        crate::text::is_blank(front),
        crate::text::is_blank(back),
    ensures
        github_remote(front + (head + (owner + "/"@ + repo + "/"@)) + back) == Some((owner, repo)),
{
    reveal_strlit("/");
    reveal_strlit(".git");
    let path = owner + "/"@ + repo;
    let rest = path + "/"@;
    assert(rest.last() == '/');
    lemma_address_head(head, rest);
    let url = head + rest;
    assert(!is_space(url[0])) by {
        reveal_strlit("https://github.com/");
        reveal_strlit("http://github.com/");
        reveal_strlit("ssh://git@github.com/");
        assert(url[0] == head[0]);
    }
    assert(url.last() == '/');
    crate::text::law_trim_takes_the_white_space(front, url, back);
    if has_suffix(rest, ".git"@) {
        assert(rest.subrange(rest.len() - 4, rest.len() as int)[3] == 't');
    }
    crate::text::law_ends_are_found("/"@, path);
    lemma_path_splits(owner, repo);
}

// ---------------------------------------------------------------------------
// What is remembered
// ---------------------------------------------------------------------------

/// Who the user is, is remembered with the time, and known for an hour; whether there is
/// a way to ask is remembered apart from it.
pub proof fn law_user_is_known_for_an_hour(
    cache: ForgeCache,
    was: ForgeCache,
    user: UserInfo,
    now: Duration,
)
    requires
        cache.has_user(was, user),
    ensures
        cache.user_info == Some(user),
        cache.gh_available == was.gh_available,
        cache.pr_cache == was.pr_cache,
        cache.fresh_user(now) matches Some(u) ==> u == user,
        now@ >= user.fetched_at@ ==> (cache.fresh_user(now) is Some <==> now@ - user.fetched_at@
            < 3600 * 1_000_000_000),
{
}

/// Whether there is a way to ask is remembered until it is found wanting; the rest stays.
pub proof fn law_way_to_ask_is_remembered(cache: ForgeCache, was: ForgeCache, known: Option<bool>)
    requires
        cache.has_gh(was, known),
    ensures
        cache.gh_available == known,
        cache.user_info == was.user_info,
        cache.pr_cache == was.pr_cache,
{
}

/// The verified emails are those in the answer that stand beside a flag that says so: an
/// email is among them if and only if some item of the list has both.
pub proof fn law_verified_emails_are_in_the_answer(
    bytes: Seq<u8>,
    emails: Seq<Seq<char>>,
    email: Seq<char>,
)
    requires
        are_verified_emails(bytes, emails),
    ensures
        emails.contains(email) <==> exists|i: int|
            0 <= i < list_len(bytes, ""@) && json_flag_at(
                bytes,
                #[trigger] item_pointer(i as nat, "/verified"@),
            ) == Some(true) && json_text_at(bytes, item_pointer(i as nat, "/email"@)) == Some(
                email,
            ),
        emails.len() <= list_len(bytes, ""@),
{
    let entries = choose|entries: Seq<EmailEntry>|
        {
            &&& entries.len() == list_len(bytes, ""@)
            &&& forall|i: int|
                0 <= i < entries.len() ==> is_email_item(bytes, i as nat, #[trigger] entries[i])
            &&& emails == #[trigger] verified_of(entries)
        };
    if list_len(bytes, ""@) > 0 {
        law_only_verified_emails_count(entries, entries[0], email);
    }
    lemma_verified_are_entries(entries);
    if emails.contains(email) {
        let i = choose|i: int|
            0 <= i < entries.len() && (#[trigger] entries[i]).verified == Some(true) && (
            entries[i].email matches Some(t) && t@ == email);
        assert(is_email_item(bytes, i as nat, entries[i]));
        assert(json_flag_at(bytes, item_pointer(i as nat, "/verified"@)) == Some(true));
    }
    if exists|i: int|
        0 <= i < list_len(bytes, ""@) && json_flag_at(
            bytes,
            #[trigger] item_pointer(i as nat, "/verified"@),
        ) == Some(true) && json_text_at(bytes, item_pointer(i as nat, "/email"@)) == Some(email) {
        let i = choose|i: int|
            0 <= i < list_len(bytes, ""@) && json_flag_at(
                bytes,
                #[trigger] item_pointer(i as nat, "/verified"@),
            ) == Some(true) && json_text_at(bytes, item_pointer(i as nat, "/email"@)) == Some(
                email,
            );
        assert(is_email_item(bytes, i as nat, entries[i]));
        assert(entries[i].verified == Some(true));
    }
}

/// There are no more verified emails than entries.
proof fn lemma_verified_are_entries(entries: Seq<EmailEntry>)
    ensures
        verified_of(entries).len() <= entries.len(),
    decreases entries.len(),
{
    if entries.len() > 0 {
        lemma_verified_are_entries(entries.drop_last());
    }
}

} // verus!
