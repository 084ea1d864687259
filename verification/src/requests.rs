//! What the daemon answers to the CLI.
//!
//! The answers are built from the tracked repos and the configuration. What has
//! to be looked up in git comes in as an argument.

use vstd::prelude::*;

use crate::clock::Duration;
use crate::config::{extract_host, url_host, UserConfig};
use crate::daemon::{BranchRuntimeState, TrackedRepo};
use crate::git_ops::{text_map, RepoBranch};
use crate::table::Table;
use crate::text::{
    cat, cat3, clone_opt, decimal, format_u64, list_contains, text_eq, view_opt, views,
};
use crate::transport::{BranchStatusData, RepoStatusData, Response, StatusData, SyncEvent};

verus! {

/// A table with the same strings under the same keys.
pub fn clone_table(table: &Table<String>) -> (r: Table<String>)
    ensures
        text_map(r@) == text_map(table@),
        r.keys() == table.keys(),
{
    let n = table.len();
    let mut out: Table<String> = Table::new();
    let mut i: usize = 0;
    let ghost keys = table.keys();
    assert(out.keys() =~= keys.take(0));
    while i < n
        invariant
            n == keys.len(),
            keys == table.keys(),
            keys.no_duplicates(),
            i <= n,
            out.keys() == keys.take(i as int),
            forall|k: Seq<char>| #[trigger] out@.contains_key(k) <==> keys.take(i as int).contains(k),
            forall|j: int|
                0 <= j < i ==> out@.contains_key(#[trigger] keys[j]) && table@.contains_key(keys[j])
                    && out@[keys[j]]@ == table@[keys[j]]@,
        decreases n - i,
    {
        let key = table.key_at(i);
        let value = table.value_at(i);
        let ghost was = out@;
        proof {
            assert(!keys.take(i as int).contains(key@)) by {
                if keys.take(i as int).contains(key@) {
                    let j = choose|j: int|
                        0 <= j < keys.take(i as int).len() && keys.take(i as int)[j] == key@;
                    assert(keys[j] == keys[i as int]);
                }
            }
        }
        out.insert(String::from_str(key), String::from_str(value.as_str()));
        proof {
            assert(keys.take(i + 1) =~= keys.take(i as int).push(key@));
            assert forall|k: Seq<char>| #[trigger]
                out@.contains_key(k) <==> keys.take(i + 1).contains(k) by {
                crate::text::lemma_push_contains(keys.take(i as int), key@, k);
                assert(was.contains_key(k) <==> keys.take(i as int).contains(k));
            }
        }
        i = i + 1;
    }
    proof {
        assert(keys.take(i as int) =~= keys);
        assert forall|k: Seq<char>| #[trigger] text_map(out@).contains_key(k) implies text_map(
            table@,
        ).contains_key(k) && text_map(out@)[k] == text_map(table@)[k] by {
            assert(out@.contains_key(k));
            let j = choose|j: int| 0 <= j < keys.len() && keys[j] == k;
            assert(out@.contains_key(keys[j]));
        }
    }
    proof {
        assert forall|k: Seq<char>| #[trigger] text_map(table@).contains_key(k) implies text_map(
            out@,
        ).contains_key(k) by {
            assert(table@.contains_key(k));
            assert(keys.contains(k));
            assert(out@.contains_key(k));
        }
        assert(text_map(out@) =~= text_map(table@));
    }
    out
}

// ---------------------------------------------------------------------------
// Status of a repo
// ---------------------------------------------------------------------------

/// The remotes among `keys` whose URL is not trusted.
pub open spec fn untrusted_among(
    keys: Seq<Seq<char>>,
    urls: Map<Seq<char>, String>,
    config: UserConfig,
) -> Seq<Seq<char>>
    decreases keys.len(),
{
    if keys.len() == 0 {
        Seq::empty()
    } else {
        let rest = untrusted_among(keys.drop_last(), urls, config);
        if !config.remote_trusted(urls[keys.last()]@) {
            rest.push(keys.last())
        } else {
            rest
        }
    }
}

/// The hosts of the untrusted remotes among `keys`, each once.
pub open spec fn untrusted_hosts_among(
    keys: Seq<Seq<char>>,
    urls: Map<Seq<char>, String>,
    config: UserConfig,
) -> Seq<Seq<char>>
    decreases keys.len(),
{
    if keys.len() == 0 {
        Seq::empty()
    } else {
        let rest = untrusted_hosts_among(keys.drop_last(), urls, config);
        let url = urls[keys.last()]@;
        if !config.remote_trusted(url) && url_host(url) is Some && !rest.contains(
            url_host(url)->0,
        ) {
            rest.push(url_host(url)->0)
        } else {
            rest
        }
    }
}

/// The remotes among `keys` that are disabled.
pub open spec fn disabled_among(
    keys: Seq<Seq<char>>,
    repo_id: Seq<char>,
    config: UserConfig,
) -> Seq<Seq<char>>
    decreases keys.len(),
{
    if keys.len() == 0 {
        Seq::empty()
    } else {
        let rest = disabled_among(keys.drop_last(), repo_id, config);
        if config.remote_disabled(repo_id, keys.last()) {
            rest.push(keys.last())
        } else {
            rest
        }
    }
}

/// The upstream of the branch `name`, as git has it now.
pub open spec fn upstream_of(branches: Seq<RepoBranch>, name: Seq<char>) -> Option<Seq<char>>
    decreases branches.len(),
{
    if branches.len() == 0 {
        None
    } else if branches.last().name@ == name && branches.last().upstream_name is Some {
        view_opt(branches.last().upstream_name)
    } else {
        upstream_of(branches.drop_last(), name)
    }
}

/// When a branch was last pulled, or else last pushed.
pub open spec fn last_action_of(state: BranchRuntimeState) -> Option<Seq<char>> {
    if state.last_pull_at is Some {
        view_opt(state.last_pull_at)
    } else {
        view_opt(state.last_push_at)
    }
}

/// The status line of a branch.
pub open spec fn is_branch_status(
    d: BranchStatusData,
    name: Seq<char>,
    state: BranchRuntimeState,
    git: Seq<RepoBranch>,
) -> bool {
    &&& d.name@ == name
    &&& view_opt(d.upstream) == upstream_of(git, name)
    &&& d.status@ == state.sync_status@
    &&& view_opt(d.last_action) == last_action_of(state)
}

/// The status of a repo.
pub open spec fn is_status_of(
    d: StatusData,
    tr: TrackedRepo,
    config: UserConfig,
    git: Seq<RepoBranch>,
    newly_registered: bool,
) -> bool {
    let remotes = tr.remote_urls.keys();
    &&& d.repo_id@ == tr.repo_id@
    &&& d.display_path@ == tr.display_path@
    &&& view_opt(d.last_sync) == view_opt(tr.last_sync_wall)
    &&& d.branches@.len() == tr.branches.keys().len()
    &&& forall|i: int|
        0 <= i < d.branches@.len() ==> is_branch_status(
            #[trigger] d.branches@[i],
            tr.branches.keys()[i],
            tr.branches@[tr.branches.keys()[i]],
            git,
        )
    &&& views(d.untrusted_remotes@) == untrusted_among(remotes, tr.remote_urls@, config)
    &&& views(d.untrusted_hosts@) == untrusted_hosts_among(remotes, tr.remote_urls@, config)
    &&& views(d.disabled_remotes@) == disabled_among(remotes, tr.repo_id@, config)
    &&& d.remote_urls.keys() == remotes
    &&& text_map(d.remote_urls@) == text_map(tr.remote_urls@)
    &&& d.newly_registered == newly_registered
}

/// The upstream of the branch `name`, as git has it now.
pub fn find_upstream(branches: &Vec<RepoBranch>, name: &str) -> (r: Option<String>)
    ensures
        view_opt(r) == upstream_of(branches@, name@),
{
    let mut i: usize = branches.len();
    assert(branches@.take(i as int) =~= branches@);
    while i > 0
        invariant
            i <= branches@.len(),
            upstream_of(branches@, name@) == upstream_of(branches@.take(i as int), name@),
        decreases i,
    {
        assert(branches@.take(i as int).drop_last() =~= branches@.take(i - 1));
        assert(branches@.take(i as int).last() == branches@[i - 1]);
        i = i - 1;
        let b = &branches[i];
        if let Some(u) = &b.upstream_name {
            if text_eq(b.name.as_str(), name) {
                return Some(String::from_str(u.as_str()));
            }
        }
    }
    None
}

fn branch_lines(branches: &Table<BranchRuntimeState>, git: &Vec<RepoBranch>) -> (r: Vec<
    BranchStatusData,
>)
    ensures
        r@.len() == branches.keys().len(),
        forall|i: int|
            0 <= i < r@.len() ==> is_branch_status(
                #[trigger] r@[i],
                branches.keys()[i],
                branches@[branches.keys()[i]],
                git@,
            ),
{
    let n = branches.len();
    let mut out: Vec<BranchStatusData> = Vec::new();
    let mut i: usize = 0;
    while i < n
        invariant
            n == branches.keys().len(),
            i <= n,
            out@.len() == i,
            forall|k: int|
                0 <= k < i ==> is_branch_status(
                    #[trigger] out@[k],
                    branches.keys()[k],
                    branches@[branches.keys()[k]],
                    git@,
                ),
        decreases n - i,
    {
        let name = branches.key_at(i);
        let state = branches.value_at(i);
        let last_action = match &state.last_pull_at {
            Some(at) => Some(String::from_str(at.as_str())),
            None => clone_opt(&state.last_push_at),
        };
        out.push(
            BranchStatusData {
                name: String::from_str(name),
                upstream: find_upstream(git, name),
                status: String::from_str(state.sync_status.as_str()),
                last_action,
            },
        );
        i = i + 1;
    }
    out
}

/// The remotes of a repo that are not trusted, their hosts, and the remotes
/// that are disabled.
fn remote_warnings(tr: &TrackedRepo, config: &UserConfig) -> (r: (
    Vec<String>,
    Vec<String>,
    Vec<String>,
))
    ensures
        views(r.0@) == untrusted_among(tr.remote_urls.keys(), tr.remote_urls@, *config),
        views(r.1@) == untrusted_hosts_among(tr.remote_urls.keys(), tr.remote_urls@, *config),
        views(r.2@) == disabled_among(tr.remote_urls.keys(), tr.repo_id@, *config),
{
    let n = tr.remote_urls.len();
    let ghost keys = tr.remote_urls.keys();
    let ghost urls = tr.remote_urls@;
    let mut untrusted: Vec<String> = Vec::new();
    let mut hosts: Vec<String> = Vec::new();
    let mut disabled: Vec<String> = Vec::new();
    let mut i: usize = 0;
    assert(views(untrusted@) =~= untrusted_among(keys.take(0), urls, *config));
    assert(views(hosts@) =~= untrusted_hosts_among(keys.take(0), urls, *config));
    assert(views(disabled@) =~= disabled_among(keys.take(0), tr.repo_id@, *config));
    while i < n
        invariant
            n == keys.len(),
            keys == tr.remote_urls.keys(),
            urls == tr.remote_urls@,
            i <= n,
            views(untrusted@) == untrusted_among(keys.take(i as int), urls, *config),
            views(hosts@) == untrusted_hosts_among(keys.take(i as int), urls, *config),
            views(disabled@) == disabled_among(keys.take(i as int), tr.repo_id@, *config),
        decreases n - i,
    {
        let ghost t = keys.take(i + 1);
        assert(t.drop_last() =~= keys.take(i as int));
        let name = tr.remote_urls.key_at(i);
        let url = tr.remote_urls.value_at(i);
        assert(t.last() == name@);
        let ghost u0 = untrusted@;
        let ghost h0 = hosts@;
        let ghost d0 = disabled@;
        if !config.is_remote_trusted(url.as_str()) {
            untrusted.push(String::from_str(name));
            assert(views(untrusted@) =~= views(u0).push(name@));
            if let Some(host) = extract_host(url.as_str()) {
                if !list_contains(&hosts, host.as_str()) {
                    let ghost h = host@;
                    hosts.push(host);
                    assert(views(hosts@) =~= views(h0).push(h));
                }
            }
        }
        if config.is_remote_disabled(tr.repo_id.as_str(), name) {
            disabled.push(String::from_str(name));
            assert(views(disabled@) =~= views(d0).push(name@));
        }
        i = i + 1;
    }
    assert(keys.take(i as int) =~= keys);
    (untrusted, hosts, disabled)
}

/// The status of a repo, given its branches as git has them now.
pub fn build_status_data(tr: &TrackedRepo, config: &UserConfig, git: &Vec<RepoBranch>) -> (r:
    StatusData)
    ensures
        is_status_of(r, *tr, *config, git@, false),
{
    let (untrusted_remotes, untrusted_hosts, disabled_remotes) = remote_warnings(tr, config);
    StatusData {
        repo_id: String::from_str(tr.repo_id.as_str()),
        display_path: String::from_str(tr.display_path.as_str()),
        last_sync: clone_opt(&tr.last_sync_wall),
        branches: branch_lines(&tr.branches, git),
        untrusted_remotes,
        untrusted_hosts,
        disabled_remotes,
        remote_urls: clone_table(&tr.remote_urls),
        newly_registered: false,
    }
}

/// A response is an error with the given message.
pub open spec fn is_error(r: Response, message: Seq<char>) -> bool {
    r matches Response::Error { message: m } && m@ == message
}

/// A response is a confirmation with the given message.
pub open spec fn is_done(r: Response, message: Seq<char>) -> bool {
    r matches Response::Done { message: m } && m@ == message
}

fn error(message: String) -> (r: Response)
    ensures
        is_error(r, message@),
{
    Response::Error { message }
}

/// Whether the status of the repo that was asked for is answered, or why it is not.
pub open spec fn is_status_reply(
    r: Response,
    repos: Table<TrackedRepo>,
    config: UserConfig,
    repo_path: Option<&str>,
    resolved: Result<String, String>,
    git: Seq<RepoBranch>,
) -> bool {
    match repo_path {
        None => is_error(r, "repo_path is required for non-global status"@),
        Some(path) => match resolved {
            Err(e) => is_error(r, "failed to resolve repo: "@ + e@),
            Ok(id) => if repos@.contains_key(id@) {
                r matches Response::Status { data } && is_status_of(
                    data,
                    repos@[id@],
                    config,
                    git,
                    false,
                )
            } else {
                is_error(r, "repo not registered: "@ + path@)
            },
        },
    }
}

/// Answers a status request for one repo. `resolved` is the repo that the path
/// belongs to, and `git` its branches as git has them now.
pub fn handle_status(
    repos: &Table<TrackedRepo>,
    config: &UserConfig,
    repo_path: Option<&str>,
    resolved: &Result<String, String>,
    git: &Vec<RepoBranch>,
) -> (r: Response)
    ensures
        is_status_reply(r, *repos, *config, repo_path, *resolved, git@),
        match repo_path {
            None => is_error(r, "repo_path is required for non-global status"@),
            Some(path) => match *resolved {
                Err(e) => is_error(r, "failed to resolve repo: "@ + e@),
                Ok(id) => if repos@.contains_key(id@) {
                    r matches Response::Status { data } && is_status_of(
                        data,
                        repos@[id@],
                        *config,
                        git@,
                        false,
                    )
                } else {
                    is_error(r, "repo not registered: "@ + path@)
                },
            },
        },
{
    let path = match repo_path {
        Some(p) => p,
        None => {
            return error(String::from_str("repo_path is required for non-global status"));
        },
    };
    match resolved {
        Err(e) => error(cat("failed to resolve repo: ", e.as_str())),
        Ok(id) => match repos.get(id.as_str()) {
            Some(tr) => Response::Status { data: build_status_data(tr, config, git) },
            None => error(cat("repo not registered: ", path)),
        },
    }
}

// ---------------------------------------------------------------------------
// Status of all repos
// ---------------------------------------------------------------------------

/// Whether a status counts as synced in the summary of a repo.
pub open spec fn counts_as_synced(status: Seq<char>) -> bool {
    status == "synced"@ || status == "up_to_date"@
}

/// The number of branches among `keys` that count as synced.
pub open spec fn synced_among(
    keys: Seq<Seq<char>>,
    branches: Map<Seq<char>, BranchRuntimeState>,
) -> nat
    decreases keys.len(),
{
    if keys.len() == 0 {
        0
    } else {
        synced_among(keys.drop_last(), branches) + (if counts_as_synced(
            branches[keys.last()].sync_status@,
        ) {
            1nat
        } else {
            0
        })
    }
}

/// The number of branches among `keys` that diverged.
pub open spec fn diverged_among(
    keys: Seq<Seq<char>>,
    branches: Map<Seq<char>, BranchRuntimeState>,
) -> nat
    decreases keys.len(),
{
    if keys.len() == 0 {
        0
    } else {
        diverged_among(keys.drop_last(), branches) + (if branches[keys.last()].sync_status@
            == "diverged"@ {
            1nat
        } else {
            0
        })
    }
}

/// The summary of a repo.
pub open spec fn summary_of(tr: TrackedRepo, config: UserConfig) -> Seq<char> {
    let keys = tr.branches.keys();
    let diverged = diverged_among(keys, tr.branches@);
    if config.repo_disabled(tr.repo_id@) {
        "disabled"@
    } else if diverged > 0 {
        decimal(diverged) + "/"@ + decimal(keys.len()) + " diverged"@
    } else {
        decimal(synced_among(keys, tr.branches@)) + " synced"@
    }
}

/// The counts in a summary never exceed the number of branches.
pub proof fn law_summary_counts_are_bounded(
    keys: Seq<Seq<char>>,
    branches: Map<Seq<char>, BranchRuntimeState>,
)
    ensures
        synced_among(keys, branches) + diverged_among(keys, branches) <= keys.len(),
    decreases keys.len(),
{
    if keys.len() > 0 {
        law_summary_counts_are_bounded(keys.drop_last(), branches);
        reveal_strlit("synced");
        reveal_strlit("up_to_date");
        reveal_strlit("diverged");
        assert("synced"@.len() == 6);
        assert("up_to_date"@.len() == 10);
        assert("diverged"@.len() == 8);
    }
}

/// The line of a repo in the status of all repos.
pub open spec fn is_repo_status(d: RepoStatusData, tr: TrackedRepo, config: UserConfig) -> bool {
    &&& d.display_path@ == tr.display_path@
    &&& d.status_summary@ == summary_of(tr, config)
    &&& view_opt(d.last_sync) == view_opt(tr.last_sync_wall)
}

fn repo_summary(tr: &TrackedRepo, config: &UserConfig) -> (r: String)
    ensures
        r@ == summary_of(*tr, *config),
{
    let n = tr.branches.len();
    let ghost keys = tr.branches.keys();
    let mut synced: usize = 0;
    let mut diverged: usize = 0;
    let mut i: usize = 0;
    while i < n
        invariant
            n == keys.len(),
            keys == tr.branches.keys(),
            i <= n,
            synced <= i,
            diverged <= i,
            synced == synced_among(keys.take(i as int), tr.branches@),
            diverged == diverged_among(keys.take(i as int), tr.branches@),
        decreases n - i,
    {
        let ghost t = keys.take(i + 1);
        assert(t.drop_last() =~= keys.take(i as int));
        assert(t.last() == keys[i as int]);
        let status = tr.branches.value_at(i).sync_status.as_str();
        if text_eq(status, "synced") || text_eq(status, "up_to_date") {
            synced = synced + 1;
        }
        if text_eq(status, "diverged") {
            diverged = diverged + 1;
        }
        i = i + 1;
    }
    assert(keys.take(i as int) =~= keys);
    if config.is_repo_disabled(tr.repo_id.as_str()) {
        String::from_str("disabled")
    } else if diverged > 0 {
        let mut out = format_u64(diverged as u64);
        out.append("/");
        out.append(format_u64(n as u64).as_str());
        out.append(" diverged");
        out
    } else {
        let mut out = format_u64(synced as u64);
        out.append(" synced");
        out
    }
}

/// Answers a status request for all repos.
pub fn handle_global_status(repos: &Table<TrackedRepo>, config: &UserConfig) -> (r: Response)
    ensures
        match r {
            Response::GlobalStatus { repos: list } => {
                &&& list@.len() == repos.keys().len()
                &&& forall|i: int|
                    0 <= i < list@.len() ==> is_repo_status(
                        #[trigger] list@[i],
                        repos@[repos.keys()[i]],
                        *config,
                    )
            },
            _ => false,
        },
{
    let n = repos.len();
    let mut out: Vec<RepoStatusData> = Vec::new();
    let mut i: usize = 0;
    while i < n
        invariant
            n == repos.keys().len(),
            i <= n,
            out@.len() == i,
            forall|k: int|
                0 <= k < i ==> is_repo_status(#[trigger] out@[k], repos@[repos.keys()[k]], *config),
        decreases n - i,
    {
        let tr = repos.value_at(i);
        out.push(
            RepoStatusData {
                display_path: String::from_str(tr.display_path.as_str()),
                status_summary: repo_summary(tr, config),
                last_sync: clone_opt(&tr.last_sync_wall),
            },
        );
        i = i + 1;
    }
    Response::GlobalStatus { repos: out }
}

// ---------------------------------------------------------------------------
// Sync requests
// ---------------------------------------------------------------------------

/// What a sync request asks for.
#[derive(Debug)]
pub enum SyncPlan {
    /// Sync the given repos.
    All(Vec<String>),
    /// Find the repo that the path belongs to.
    Resolve(String),
    /// Sync the given repo.
    One(String),
    /// Answer at once.
    Reply(Response),
}

/// Whether a sync is to begin as it was asked for.
pub open spec fn is_sync_plan(
    r: SyncPlan,
    repos: Table<TrackedRepo>,
    repo_path: Option<&str>,
    all: bool,
) -> bool {
    if all {
        r matches SyncPlan::All(ids) && views(ids@) == repos.keys()
    } else {
        match repo_path {
            Some(path) => r matches SyncPlan::Resolve(p) && p@ == path@,
            None => r matches SyncPlan::Reply(resp) && is_error(
                resp,
                "repo_path required when --all is not set"@,
            ),
        }
    }
}

/// What a sync request asks for.
pub fn handle_sync(repos: &Table<TrackedRepo>, repo_path: Option<&str>, all: bool) -> (r: SyncPlan)
    ensures
        is_sync_plan(r, *repos, repo_path, all),
        if all {
            r matches SyncPlan::All(ids) && views(ids@) == repos.keys()
        } else {
            match repo_path {
                Some(path) => r matches SyncPlan::Resolve(p) && p@ == path@,
                None => r matches SyncPlan::Reply(resp) && is_error(
                    resp,
                    "repo_path required when --all is not set"@,
                ),
            }
        },
{
    if all {
        let n = repos.len();
        let mut ids: Vec<String> = Vec::new();
        let mut i: usize = 0;
        while i < n
            invariant
                n == repos.keys().len(),
                i <= n,
                ids@.len() == i,
                forall|k: int| 0 <= k < i ==> (#[trigger] ids@[k])@ == repos.keys()[k],
            decreases n - i,
        {
            ids.push(String::from_str(repos.key_at(i)));
            i = i + 1;
        }
        assert(views(ids@) =~= repos.keys());
        SyncPlan::All(ids)
    } else {
        match repo_path {
            Some(path) => SyncPlan::Resolve(String::from_str(path)),
            None => SyncPlan::Reply(
                error(String::from_str("repo_path required when --all is not set")),
            ),
        }
    }
}

/// Whether the repo at a path is to be synced, or why it is not.
pub open spec fn is_one_sync(
    r: SyncPlan,
    repos: Table<TrackedRepo>,
    path: Seq<char>,
    resolved: Result<String, String>,
) -> bool {
    match resolved {
        Err(e) => r matches SyncPlan::Reply(resp) && is_error(
            resp,
            "failed to resolve repo: "@ + e@,
        ),
        Ok(id) => if repos@.contains_key(id@) {
            r matches SyncPlan::One(one) && one@ == id@
        } else {
            r matches SyncPlan::Reply(resp) && is_error(resp, "repo not registered: "@ + path)
        },
    }
}

/// What a sync request asks for once its path is resolved.
pub fn sync_resolved(repos: &Table<TrackedRepo>, path: &str, resolved: &Result<String, String>) -> (r:
    SyncPlan)
    ensures
        is_one_sync(r, *repos, path@, *resolved),
        match *resolved {
            Err(e) => r matches SyncPlan::Reply(resp) && is_error(
                resp,
                "failed to resolve repo: "@ + e@,
            ),
            Ok(id) => if repos@.contains_key(id@) {
                r matches SyncPlan::One(one) && one@ == id@
            } else {
                r matches SyncPlan::Reply(resp) && is_error(resp, "repo not registered: "@ + path@)
            },
        },
{
    match resolved {
        Err(e) => SyncPlan::Reply(error(cat("failed to resolve repo: ", e.as_str()))),
        Ok(id) => {
            if repos.contains_key(id.as_str()) {
                SyncPlan::One(String::from_str(id.as_str()))
            } else {
                SyncPlan::Reply(error(cat("repo not registered: ", path)))
            }
        },
    }
}

/// The answer after `count` repos were synced.
pub fn sync_all_reply(count: usize) -> (r: Response)
    ensures
        is_done(r, "synced "@ + decimal(count as nat) + " repos"@),
{
    let n = format_u64(count as u64);
    Response::Done { message: cat3("synced ", n.as_str(), " repos") }
}

/// Whether what a sync did is answered, or why nothing was done.
pub open spec fn is_sync_reply(
    r: Response,
    repos: Table<TrackedRepo>,
    config: UserConfig,
    path: Seq<char>,
    repo_id: Seq<char>,
    result: Result<Vec<SyncEvent>, String>,
    git: Seq<RepoBranch>,
) -> bool {
    match result {
        Err(e) => is_error(r, "sync failed: "@ + e@),
        Ok(done) => if repos@.contains_key(repo_id) {
            r matches Response::SyncComplete { data, events } && events == done && is_status_of(
                data,
                repos@[repo_id],
                config,
                git,
                false,
            )
        } else {
            is_done(r, "synced "@ + path)
        },
    }
}

/// The answer after one repo was synced. It may have been dropped meanwhile.
pub fn sync_one_reply(
    repos: &Table<TrackedRepo>,
    config: &UserConfig,
    path: &str,
    repo_id: &str,
    result: Result<Vec<SyncEvent>, String>,
    git: &Vec<RepoBranch>,
) -> (r: Response)
    ensures
        is_sync_reply(r, *repos, *config, path@, repo_id@, result, git@),
        match result {
            Err(e) => is_error(r, "sync failed: "@ + e@),
            Ok(done) => if repos@.contains_key(repo_id@) {
                r matches Response::SyncComplete { data, events } && events == done && is_status_of(
                    data,
                    repos@[repo_id@],
                    *config,
                    git@,
                    false,
                )
            } else {
                is_done(r, "synced "@ + path@)
            },
        },
{
    match result {
        Err(e) => error(cat("sync failed: ", e.as_str())),
        Ok(events) => match repos.get(repo_id) {
            Some(tr) => Response::SyncComplete { data: build_status_data(tr, config, git), events },
            None => Response::Done { message: cat("synced ", path) },
        },
    }
}

// ---------------------------------------------------------------------------
// Prompt checks
// ---------------------------------------------------------------------------

/// What a prompt check asks for.
#[derive(Debug)]
pub enum PromptPlan {
    /// Answer at once.
    Reply(Response),
    /// The repo is tracked: answer with its status.
    Known(String),
    /// Register the repo and reload the configuration, then answer with its status.
    Register(String),
}

/// Whether a prompt is answered from what is known, or has its repo registered first.
pub open spec fn is_prompt_plan(
    r: PromptPlan,
    repos: Table<TrackedRepo>,
    resolved: Result<String, String>,
) -> bool {
    match resolved {
        Err(_) => r matches PromptPlan::Reply(resp) && is_error(resp, "not a git repository"@),
        Ok(id) => if repos@.contains_key(id@) {
            r matches PromptPlan::Known(k) && k@ == id@
        } else {
            r matches PromptPlan::Register(k) && k@ == id@
        },
    }
}

/// What a prompt check asks for.
pub fn handle_prompt_check(repos: &Table<TrackedRepo>, resolved: &Result<String, String>) -> (r:
    PromptPlan)
    ensures
        is_prompt_plan(r, *repos, *resolved),
        match *resolved {
            Err(_) => r matches PromptPlan::Reply(resp) && is_error(resp, "not a git repository"@),
            Ok(id) => if repos@.contains_key(id@) {
                r matches PromptPlan::Known(k) && k@ == id@
            } else {
                r matches PromptPlan::Register(k) && k@ == id@
            },
        },
{
    match resolved {
        Err(_) => PromptPlan::Reply(error(String::from_str("not a git repository"))),
        Ok(id) => {
            if repos.contains_key(id.as_str()) {
                PromptPlan::Known(String::from_str(id.as_str()))
            } else {
                PromptPlan::Register(String::from_str(id.as_str()))
            }
        },
    }
}

/// An answer that says that the repo was just registered, where it is a status.
pub open spec fn marked_new(resp: Response) -> Response {
    match resp {
        Response::Status { data } => Response::Status {
            data: StatusData { newly_registered: true, ..data },
        },
        _ => resp,
    }
}

/// The answer to a prompt check that registered the repo, made from its status.
pub fn mark_newly_registered(resp: Response) -> (r: Response)
    ensures
        r == marked_new(resp),
        match resp {
            Response::Status { data } => r == (Response::Status {
                data: StatusData { newly_registered: true, ..data },
            }),
            _ => r == resp,
        },
{
    match resp {
        Response::Status { data } => {
            let mut marked = data;
            marked.newly_registered = true;
            Response::Status { data: marked }
        },
        other => other,
    }
}

// ---------------------------------------------------------------------------
// Reloading the configuration
// ---------------------------------------------------------------------------

/// What git tells of a repo, as far as it could be found out.
#[derive(Debug)]
pub struct RepoProbe {
    pub display_path: Option<String>,
    pub remote_urls: Option<Table<String>>,
}

impl RepoProbe {
    /// The remote URLs, and none where they could not be found out.
    pub open spec fn urls(self) -> Map<Seq<char>, Seq<char>> {
        match self.remote_urls {
            Some(t) => text_map(t@),
            None => Map::empty(),
        }
    }

    /// The path to show, which is the repo's own where none was found out.
    pub open spec fn shown(self, repo_path: Seq<char>) -> Seq<char> {
        match self.display_path {
            Some(p) => p@,
            None => repo_path,
        }
    }
}

/// What becomes of an enabled repo: a tracked one keeps its state and takes
/// over its URLs, and a new one is put under watch.
pub open spec fn is_tracked_after(
    now: TrackedRepo,
    was: Option<TrackedRepo>,
    path: Seq<char>,
    probe: RepoProbe,
) -> bool {
    &&& text_map(now.remote_urls@) == probe.urls()
    &&& match was {
        Some(tr) => now == (TrackedRepo { remote_urls: now.remote_urls, ..tr }),
        None => now.is_new(path, probe.shown(path), now.remote_urls),
    }
}

fn probed_urls(probe: &RepoProbe) -> (r: Table<String>)
    ensures
        text_map(r@) == probe.urls(),
{
    match &probe.remote_urls {
        Some(t) => clone_table(t),
        None => {
            let t: Table<String> = Table::new();
            assert(text_map(t@) =~= Map::<Seq<char>, Seq<char>>::empty());
            t
        },
    }
}

fn track_repo(repos: &mut Table<TrackedRepo>, path: &str, probe: &RepoProbe)
    ensures
        final(repos)@.contains_key(path@),
        is_tracked_after(
            final(repos)@[path@],
            if old(repos)@.contains_key(path@) {
                Some(old(repos)@[path@])
            } else {
                None
            },
            path@,
            *probe,
        ),
        final(repos)@ == old(repos)@.insert(path@, final(repos)@[path@]),
{
    let urls = probed_urls(probe);
    if repos.contains_key(path) {
        if let Some(tr) = repos.get_mut(path) {
            tr.refresh_urls(urls);
        }
    } else {
        let shown = match &probe.display_path {
            Some(p) => String::from_str(p.as_str()),
            None => String::from_str(path),
        };
        repos.insert(String::from_str(path), TrackedRepo::new(String::from_str(path), shown, urls));
    }
}

/// The repos that are tracked after the first `n` entries of the configuration
/// were taken over.
pub open spec fn reloaded_up_to(
    now: Map<Seq<char>, TrackedRepo>,
    was: Map<Seq<char>, TrackedRepo>,
    config: UserConfig,
    probes: Seq<RepoProbe>,
    n: int,
) -> bool {
    &&& forall|i: int|
        0 <= i < n && !config.repo_disabled(#[trigger] config.repos.keys()[i])
            ==> now.contains_key(config.repos.keys()[i]) && is_tracked_after(
            now[config.repos.keys()[i]],
            if was.contains_key(config.repos.keys()[i]) {
                Some(was[config.repos.keys()[i]])
            } else {
                None
            },
            config.repos.keys()[i],
            probes[i],
        )
    &&& forall|k: Seq<char>|
        (!config.repos.keys().take(n).contains(k) || config.repo_disabled(k)) ==> (
        #[trigger] now.contains_key(k) <==> was.contains_key(k)) && (was.contains_key(k) ==> now[k]
            == was[k])
}

/// The repos that are tracked after a reload: those of the configuration that
/// are enabled or were tracked before.
pub open spec fn is_reloaded(
    now: Map<Seq<char>, TrackedRepo>,
    was: Map<Seq<char>, TrackedRepo>,
    config: UserConfig,
    probes: Seq<RepoProbe>,
) -> bool {
    &&& forall|k: Seq<char>| #[trigger]
        now.contains_key(k) <==> config.repos@.contains_key(k) && (!config.repo_disabled(k)
            || was.contains_key(k))
    &&& forall|i: int|
        0 <= i < config.repos.keys().len() && !config.repo_disabled(
            #[trigger] config.repos.keys()[i],
        ) ==> is_tracked_after(
            now[config.repos.keys()[i]],
            if was.contains_key(config.repos.keys()[i]) {
                Some(was[config.repos.keys()[i]])
            } else {
                None
            },
            config.repos.keys()[i],
            probes[i],
        )
    &&& forall|k: Seq<char>| #[trigger]
        now.contains_key(k) && config.repo_disabled(k) ==> now[k] == was[k]
}

fn take_over(repos: &mut Table<TrackedRepo>, config: &UserConfig, probes: &Vec<RepoProbe>)
    requires
        probes@.len() == config.repos.keys().len(),
    ensures
        reloaded_up_to(
            final(repos)@,
            old(repos)@,
            *config,
            probes@,
            config.repos.keys().len() as int,
        ),
{
    let n = config.repos.len();
    let ghost keys = config.repos.keys();
    let ghost was = repos@;
    let mut i: usize = 0;
    while i < n
        invariant
            n == keys.len(),
            keys == config.repos.keys(),
            keys.no_duplicates(),
            probes@.len() == n,
            i <= n,
            reloaded_up_to(repos@, was, *config, probes@, i as int),
        decreases n - i,
    {
        let path = config.repos.key_at(i);
        let ghost before = repos@;
        let ghost upper = keys.take(i + 1);
        proof {
            assert(upper =~= keys.take(i as int).push(path@));
            assert(!keys.take(i as int).contains(path@)) by {
                if keys.take(i as int).contains(path@) {
                    let j = choose|j: int|
                        0 <= j < keys.take(i as int).len() && keys.take(i as int)[j] == path@;
                    assert(keys[j] == keys[i as int]);
                }
            }
            assert(before.contains_key(path@) <==> was.contains_key(path@));
        }
        if !config.is_repo_disabled(path) {
            track_repo(repos, path, &probes[i]);
        }
        proof {
            assert forall|j: int|
                0 <= j < i + 1 && !config.repo_disabled(#[trigger] keys[j]) implies repos@.contains_key(
                keys[j],
            ) && is_tracked_after(
                repos@[keys[j]],
                if was.contains_key(keys[j]) {
                    Some(was[keys[j]])
                } else {
                    None
                },
                keys[j],
                probes@[j],
            ) by {
                if j < i {
                    assert(keys[j] != path@);
                    assert(before.contains_key(keys[j]));
                }
            }
            assert forall|k: Seq<char>|
                (!upper.contains(k) || config.repo_disabled(k)) implies (
            #[trigger] repos@.contains_key(k) <==> was.contains_key(k)) && (was.contains_key(k)
                ==> repos@[k] == was[k]) by {
                crate::text::lemma_push_contains(keys.take(i as int), path@, k);
                assert(before.contains_key(k) <==> was.contains_key(k));
            }
        }
        i = i + 1;
    }
}

/// Drops the repos that the configuration does not name. Gives back their ids.
fn untrack_missing(repos: &mut Table<TrackedRepo>, config: &UserConfig) -> (r: Vec<String>)
    ensures
        final(repos)@ == old(repos)@.restrict(config.repos@.dom()),
        forall|k: int|
            0 <= k < r@.len() ==> old(repos)@.contains_key((#[trigger] r@[k])@)
                && !config.repos@.contains_key(r@[k]@),
        forall|k: Seq<char>| #[trigger]
            old(repos)@.contains_key(k) && !config.repos@.contains_key(k) ==> views(r@).contains(k),
        views(r@).no_duplicates(),
{
    let n = repos.len();
    let ghost keys = repos.keys();
    let ghost was = repos@;
    let mut gone: Vec<String> = Vec::new();
    let mut i: usize = 0;
    while i < n
        invariant
            n == keys.len(),
            keys == repos.keys(),
            keys.no_duplicates(),
            repos@ == was,
            i <= n,
            views(gone@).no_duplicates(),
            forall|m: int| 0 <= m < gone@.len() ==> keys.take(i as int).contains(
                (#[trigger] gone@[m])@,
            ),
            forall|k: int|
                0 <= k < gone@.len() ==> was.contains_key((#[trigger] gone@[k])@)
                    && !config.repos@.contains_key(gone@[k]@),
            forall|j: int|
                0 <= j < i && !config.repos@.contains_key(#[trigger] keys[j]) ==> views(
                    gone@,
                ).contains(keys[j]),
        decreases n - i,
    {
        let id = repos.key_at(i);
        let ghost g0 = gone@;
        if !config.repos.contains_key(id) {
            assert(!views(g0).contains(id@)) by {
                if views(g0).contains(id@) {
                    let m = choose|m: int| 0 <= m < views(g0).len() && views(g0)[m] == id@;
                    assert(keys.take(i as int).contains(g0[m]@));
                }
            }
            gone.push(String::from_str(id));
            assert(views(gone@) =~= views(g0).push(id@));
        }
        proof {
            assert(keys.take(i + 1) =~= keys.take(i as int).push(id@));
            assert forall|m: int| 0 <= m < gone@.len() implies keys.take(i + 1).contains(
                (#[trigger] gone@[m])@,
            ) by {
                crate::text::lemma_push_contains(keys.take(i as int), id@, gone@[m]@);
                if m < g0.len() {
                    assert(keys.take(i as int).contains(g0[m]@));
                }
            }
        }
        proof {
            assert forall|j: int|
                0 <= j < i + 1 && !config.repos@.contains_key(#[trigger] keys[j]) implies views(
                gone@,
            ).contains(keys[j]) by {
                crate::text::lemma_push_contains(views(g0), id@, keys[j]);
            }
        }
        i = i + 1;
    }
    proof {
        assert forall|k: Seq<char>| #[trigger]
            was.contains_key(k) && !config.repos@.contains_key(k) implies views(gone@).contains(
            k,
        ) by {
            assert(keys.contains(k));
            let j = choose|j: int| 0 <= j < keys.len() && keys[j] == k;
            assert(views(gone@).contains(keys[j]));
        }
    }
    let mut j: usize = 0;
    while j < gone.len()
        invariant
            j <= gone@.len(),
            forall|k: int|
                0 <= k < gone@.len() ==> was.contains_key((#[trigger] gone@[k])@)
                    && !config.repos@.contains_key(gone@[k]@),
            forall|k: Seq<char>| #[trigger]
                repos@.contains_key(k) <==> was.contains_key(k) && !views(gone@).take(
                    j as int,
                ).contains(k),
            forall|k: Seq<char>| #[trigger] repos@.contains_key(k) ==> repos@[k] == was[k],
        decreases gone.len() - j,
    {
        let ghost before = repos@;
        let _old = repos.remove(gone[j].as_str());
        proof {
            let t = views(gone@).take(j as int);
            assert(views(gone@).take(j + 1) =~= t.push(gone@[j as int]@));
            assert forall|k: Seq<char>| #[trigger]
                repos@.contains_key(k) <==> was.contains_key(k) && !views(gone@).take(
                    j + 1,
                ).contains(k) by {
                crate::text::lemma_push_contains(t, gone@[j as int]@, k);
                assert(before.contains_key(k) <==> was.contains_key(k) && !t.contains(k));
            }
            assert forall|k: Seq<char>| #[trigger] repos@.contains_key(k) implies repos@[k]
                == was[k] by {
                assert(before.contains_key(k));
            }
        }
        j = j + 1;
    }
    proof {
        assert(views(gone@).take(j as int) =~= views(gone@));
        assert forall|k: Seq<char>| #[trigger]
            repos@.contains_key(k) <==> was.restrict(config.repos@.dom()).contains_key(k) by {
            if was.contains_key(k) && config.repos@.contains_key(k) && views(gone@).contains(k) {
                let m = choose|m: int|
                    0 <= m < views(gone@).len() && views(gone@)[m] == k;
                assert(gone@[m]@ == k);
            }
        }
        assert(repos@ =~= was.restrict(config.repos@.dom()));
    }
    gone
}

/// Takes over a newly loaded configuration: tracks the repos that it enables,
/// refreshes the URLs of those that are tracked already, and drops those that
/// it does not name. `probes` tells of each repo of the configuration, in its
/// order. Gives back the ids of the dropped repos.
pub fn reload_config(
    repos: &mut Table<TrackedRepo>,
    config: &UserConfig,
    probes: &Vec<RepoProbe>,
) -> (r: Vec<String>)
    requires
        probes@.len() == config.repos.keys().len(),
    ensures
        is_reloaded(final(repos)@, old(repos)@, *config, probes@),
        forall|k: int|
            0 <= k < r@.len() ==> old(repos)@.contains_key((#[trigger] r@[k])@)
                && !config.repos@.contains_key(r@[k]@),
        forall|k: Seq<char>| #[trigger]
            old(repos)@.contains_key(k) && !config.repos@.contains_key(k) ==> views(r@).contains(k),
        views(r@).no_duplicates(),
{
    let ghost was = repos@;
    let _n = config.repos.len();
    let ghost keys = config.repos.keys();
    take_over(repos, config, probes);
    let ghost mid = repos@;
    let gone = untrack_missing(repos, config);
    proof {
        assert(keys.take(keys.len() as int) =~= keys);
        assert forall|k: Seq<char>| #[trigger]
            repos@.contains_key(k) <==> config.repos@.contains_key(k) && (!config.repo_disabled(k)
                || was.contains_key(k)) by {
            if config.repos@.contains_key(k) && !config.repo_disabled(k) {
                assert(keys.contains(k));
                let i = choose|i: int| 0 <= i < keys.len() && keys[i] == k;
                assert(mid.contains_key(keys[i]));
            } else {
                assert(mid.contains_key(k) <==> was.contains_key(k));
            }
        }
        assert forall|i: int|
            0 <= i < keys.len() && !config.repo_disabled(
                #[trigger] keys[i],
            ) implies is_tracked_after(
            repos@[keys[i]],
            if was.contains_key(keys[i]) {
                Some(was[keys[i]])
            } else {
                None
            },
            keys[i],
            probes@[i],
        ) by {
            assert(keys.contains(keys[i]));
            assert(config.repos@.contains_key(keys[i]));
            assert(mid.contains_key(keys[i]));
        }
        assert forall|k: Seq<char>| #[trigger]
            repos@.contains_key(k) && config.repo_disabled(k) implies repos@[k] == was[k] by {
            assert(mid.contains_key(k) <==> was.contains_key(k));
        }
        assert forall|k: int|
            0 <= k < gone@.len() implies was.contains_key((#[trigger] gone@[k])@)
            && !config.repos@.contains_key(gone@[k]@) by {
            let g = gone@[k]@;
            assert(mid.contains_key(g));
            assert(!keys.contains(g));
            assert(mid.contains_key(g) <==> was.contains_key(g));
        }
        assert forall|k: Seq<char>| #[trigger]
            was.contains_key(k) && !config.repos@.contains_key(k) implies views(gone@).contains(
            k,
        ) by {
            assert(!keys.contains(k));
            assert(mid.contains_key(k) <==> was.contains_key(k));
        }
    }
    gone
}

/// Loading the same configuration twice tracks the same repos, and none of
/// them loses its state.
pub proof fn law_reload_is_stable(
    first: Map<Seq<char>, TrackedRepo>,
    second: Map<Seq<char>, TrackedRepo>,
    was: Map<Seq<char>, TrackedRepo>,
    config: UserConfig,
    probes: Seq<RepoProbe>,
)
    requires
        is_reloaded(first, was, config, probes),
        is_reloaded(second, first, config, probes),
        forall|k: Seq<char>| #[trigger]
            config.repos@.contains_key(k) ==> config.repos.keys().contains(k),
    ensures
        second.dom() == first.dom(),
        forall|k: Seq<char>| #[trigger]
            first.contains_key(k) ==> second[k].branches == first[k].branches && second[k].backoff
                == first[k].backoff && second[k].last_sync == first[k].last_sync,
{
    assert forall|k: Seq<char>| #[trigger]
        second.dom().contains(k) <==> first.dom().contains(k) by {
        assert(first.contains_key(k) <==> config.repos@.contains_key(k) && (!config.repo_disabled(k)
            || was.contains_key(k)));
        assert(second.contains_key(k) <==> config.repos@.contains_key(k) && (!config.repo_disabled(
            k,
        ) || first.contains_key(k)));
    }
    assert(second.dom() =~= first.dom());
    assert forall|k: Seq<char>| #[trigger] first.contains_key(k) implies second[k].branches
        == first[k].branches && second[k].backoff == first[k].backoff && second[k].last_sync
        == first[k].last_sync by {
        assert(second.dom().contains(k));
        assert(second.contains_key(k));
        if !config.repo_disabled(k) {
            let keys = config.repos.keys();
            let i = choose|i: int| 0 <= i < keys.len() && keys[i] == k;
            assert(!config.repo_disabled(keys[i]));
        }
    }
}

// ---------------------------------------------------------------------------
// The daemon itself
// ---------------------------------------------------------------------------

/// Answers a reload request, once the configuration is reloaded.
pub fn handle_reload_config() -> (r: Response)
    ensures
        is_done(r, "config reloaded"@),
{
    Response::Done { message: String::from_str("config reloaded") }
}

/// Answers a shutdown request.
pub fn handle_shutdown() -> (r: Response)
    ensures
        is_done(r, "shutting down"@),
{
    Response::Done { message: String::from_str("shutting down") }
}

/// Whether the daemon tells of itself.
pub open spec fn is_daemon_status(
    r: Response,
    pid: u32,
    start_time: nat,
    now: nat,
    repos: Table<TrackedRepo>,
    latest_version: Option<String>,
) -> bool {
    match r {
        Response::DaemonStatus { pid: p, uptime_secs, repos_watched, latest_version: v } => {
            &&& p == pid
            &&& uptime_secs == Duration::secs_of(
                if now >= start_time {
                    (now - start_time) as nat
                } else {
                    0
                },
            )
            &&& repos_watched == repos.keys().len()
            &&& view_opt(v) == view_opt(latest_version)
        },
        _ => false,
    }
}

/// Answers a request for the state of the daemon.
pub fn handle_daemon_status(
    pid: u32,
    start_time: Duration,
    now: Duration,
    repos: &Table<TrackedRepo>,
    latest_version: &Option<String>,
) -> (r: Response)
    ensures
        is_daemon_status(r, pid, start_time@, now@, *repos, *latest_version),
        match r {
            Response::DaemonStatus { pid: p, uptime_secs, repos_watched, latest_version: v } => {
                &&& p == pid
                &&& uptime_secs == Duration::secs_of(
                    if now@ >= start_time@ {
                        (now@ - start_time@) as nat
                    } else {
                        0
                    },
                )
                &&& repos_watched == repos.keys().len()
                &&& view_opt(v) == view_opt(*latest_version)
            },
            _ => false,
        },
{
    Response::DaemonStatus {
        pid,
        uptime_secs: now.saturating_sub(start_time).as_secs(),
        repos_watched: repos.len(),
        latest_version: clone_opt(latest_version),
    }
}

// ---------------------------------------------------------------------------
// What is answered
// ---------------------------------------------------------------------------

/// A remote is told as untrusted if its URL is not trusted, and as disabled if it is
/// disabled in this repo. The remotes keep their order.
pub proof fn law_remotes_are_told_apart(
    keys: Seq<Seq<char>>,
    urls: Map<Seq<char>, String>,
    config: UserConfig,
    repo_id: Seq<char>,
    name: Seq<char>,
)
    ensures
        untrusted_among(keys, urls, config) == keys.filter(
            |k: Seq<char>| !config.remote_trusted(urls[k]@),
        ),
        disabled_among(keys, repo_id, config) == keys.filter(
            |k: Seq<char>| config.remote_disabled(repo_id, k),
        ),
        untrusted_among(keys, urls, config).contains(name) <==> keys.contains(name)
            && !config.remote_trusted(urls[name]@),
        disabled_among(keys, repo_id, config).contains(name) <==> keys.contains(name)
            && config.remote_disabled(repo_id, name),
    decreases keys.len(),
{
    reveal(Seq::filter);
    if keys.len() > 0 {
        let front = keys.drop_last();
        law_remotes_are_told_apart(front, urls, config, repo_id, name);
        assert(keys =~= front.push(keys.last()));
        crate::text::lemma_push_contains(front, keys.last(), name);
        crate::text::lemma_push_contains(
            untrusted_among(front, urls, config),
            keys.last(),
            name,
        );
        crate::text::lemma_push_contains(
            disabled_among(front, repo_id, config),
            keys.last(),
            name,
        );
    }
}

/// The hosts to be trusted are those of the untrusted remotes, each once.
pub proof fn law_hosts_to_trust_are_told_once(
    keys: Seq<Seq<char>>,
    urls: Map<Seq<char>, String>,
    config: UserConfig,
    host: Seq<char>,
)
    ensures
        untrusted_hosts_among(keys, urls, config).contains(host) <==> exists|i: int|
            0 <= i < keys.len() && !config.remote_trusted(urls[#[trigger] keys[i]]@) && url_host(
                urls[keys[i]]@,
            ) == Some(host),
        untrusted_hosts_among(keys, urls, config).no_duplicates(),
    decreases keys.len(),
{
    if keys.len() > 0 {
        let front = keys.drop_last();
        let url = urls[keys.last()]@;
        law_hosts_to_trust_are_told_once(front, urls, config, host);
        assert(forall|i: int| 0 <= i < front.len() ==> #[trigger] keys[i] == front[i]);
        assert(forall|i: int| 0 <= i < front.len() ==> keys[i] == #[trigger] front[i]);
        if url_host(url) is Some {
            crate::text::lemma_push_contains(
                untrusted_hosts_among(front, urls, config),
                url_host(url)->0,
                host,
            );
        }
        assert(keys[keys.len() - 1] == keys.last());
    }
}

/// The upstream of a branch is that of the last branch of that name which has one.
pub proof fn law_upstream_is_that_of_the_branch(
    branches: Seq<RepoBranch>,
    name: Seq<char>,
    i: int,
)
    ensures
        0 <= i < branches.len() && branches[i].name@ == name && branches[i].upstream_name is Some
            && (forall|j: int|
            i < j < branches.len() ==> (#[trigger] branches[j]).name@ != name
                || branches[j].upstream_name is None) ==> (branches[i].upstream_name matches Some(
            u,
        ) && upstream_of(branches, name) == Some(u@)),
        (forall|j: int|
            0 <= j < branches.len() ==> (#[trigger] branches[j]).name@ != name
                || branches[j].upstream_name is None) ==> upstream_of(branches, name) is None,
    decreases branches.len(),
{
    if branches.len() > 0 {
        let front = branches.drop_last();
        law_upstream_is_that_of_the_branch(front, name, i);
        assert(forall|j: int| 0 <= j < front.len() ==> #[trigger] front[j] == branches[j]);
        assert(branches.last() == branches[branches.len() - 1]);
    }
}

/// The status of a repo tells of each branch what it is called, how it is, and when it
/// was last pulled, or else pushed; of the repo where it is and when it was synced; and
/// of each remote whether it is trusted and enabled.
pub proof fn law_status_tells_of_the_repo(
    d: StatusData,
    tr: TrackedRepo,
    config: UserConfig,
    git: Seq<RepoBranch>,
    new: bool,
    i: int,
    name: Seq<char>,
)
    requires
        is_status_of(d, tr, config, git, new),
    ensures
        d.repo_id@ == tr.repo_id@,
        d.display_path@ == tr.display_path@,
        d.newly_registered == new,
        tr.last_sync_wall matches Some(t) ==> (d.last_sync matches Some(u) && u@ == t@),
        tr.last_sync_wall is None ==> d.last_sync is None,
        d.branches@.len() == tr.branches.keys().len(),
        0 <= i < d.branches@.len() ==> {
            let b = d.branches@[i];
            let state = tr.branches@[tr.branches.keys()[i]];
            &&& b.name@ == tr.branches.keys()[i]
            &&& b.status@ == state.sync_status@
            &&& state.last_pull_at matches Some(t) ==> (b.last_action matches Some(u) && u@ == t@)
            &&& state.last_pull_at is None ==> (state.last_push_at matches Some(t) ==> (
            b.last_action matches Some(u) && u@ == t@))
            &&& state.last_pull_at is None && state.last_push_at is None ==> b.last_action is None
            &&& upstream_of(git, b.name@) matches Some(t) ==> (b.upstream matches Some(u) && u@
                == t)
            &&& upstream_of(git, b.name@) is None ==> b.upstream is None
        },
        views(d.untrusted_remotes@).contains(name) <==> tr.remote_urls.keys().contains(name)
            && !config.remote_trusted(tr.remote_urls@[name]@),
        views(d.disabled_remotes@).contains(name) <==> tr.remote_urls.keys().contains(name)
            && config.remote_disabled(tr.repo_id@, name),
        d.remote_urls.keys() == tr.remote_urls.keys(),
        d.remote_urls@.contains_key(name) <==> tr.remote_urls@.contains_key(name),
        tr.remote_urls@.contains_key(name) ==> d.remote_urls@[name]@ == tr.remote_urls@[name]@,
{
    law_remotes_are_told_apart(
        tr.remote_urls.keys(),
        tr.remote_urls@,
        config,
        tr.repo_id@,
        name,
    );
    if 0 <= i < d.branches@.len() {
        assert(is_branch_status(
            d.branches@[i],
            tr.branches.keys()[i],
            tr.branches@[tr.branches.keys()[i]],
            git,
        ));
    }
    assert(text_map(d.remote_urls@).dom() =~= d.remote_urls@.dom());
    assert(text_map(tr.remote_urls@).dom() =~= tr.remote_urls@.dom());
    if tr.remote_urls@.contains_key(name) {
        assert(d.remote_urls@.contains_key(name));
        assert(text_map(d.remote_urls@)[name] == d.remote_urls@[name]@);
        assert(text_map(tr.remote_urls@)[name] == tr.remote_urls@[name]@);
    }
}

/// A status is answered of the repo that was asked for, where it is registered, and an
/// error else.
pub proof fn law_status_is_of_the_repo_asked_for(
    r: Response,
    repos: Table<TrackedRepo>,
    config: UserConfig,
    repo_path: Option<&str>,
    resolved: Result<String, String>,
    git: Seq<RepoBranch>,
)
    requires
        is_status_reply(r, repos, config, repo_path, resolved, git),
    ensures
        r is Status || r is Error,
        r is Status <==> repo_path is Some && (resolved matches Ok(id) && repos@.contains_key(id@)),
        r matches Response::Status { data } ==> (resolved matches Ok(id) && data.repo_id@
            == repos@[id@].repo_id@ && data.branches@.len() == repos@[id@].branches.keys().len()
            && !data.newly_registered),
        r matches Response::Error { message } ==> {
            &&& repo_path is None ==> message@ == "repo_path is required for non-global status"@
            &&& repo_path matches Some(path) ==> {
                &&& resolved matches Err(e) ==> message@ == "failed to resolve repo: "@ + e@
                &&& resolved is Ok ==> message@ == "repo not registered: "@ + path@
            }
        },
{
}

/// A sync answers with what it did, in the order in which it was done, and with the
/// repo as it is after that. A sync that failed says why.
pub proof fn law_sync_reply_tells_what_was_done(
    r: Response,
    repos: Table<TrackedRepo>,
    config: UserConfig,
    path: Seq<char>,
    repo_id: Seq<char>,
    result: Result<Vec<SyncEvent>, String>,
    git: Seq<RepoBranch>,
)
    requires
        is_sync_reply(r, repos, config, path, repo_id, result, git),
    ensures
        r is Error <==> result is Err,
        result matches Err(e) ==> (r matches Response::Error { message } && message@
            == "sync failed: "@ + e@),
        result is Ok ==> (r is SyncComplete <==> repos@.contains_key(repo_id)),
        r matches Response::SyncComplete { data, events } ==> {
            &&& Ok::<Vec<SyncEvent>, String>(events) == result
            &&& data.repo_id@ == repos@[repo_id].repo_id@
        },
        r matches Response::Done { message } ==> message@ == "synced "@ + path,
{
}

/// A sync of all takes every registered repo, in order; any other the one repo at the
/// path that was given.
pub proof fn law_sync_takes_what_was_asked_for(
    r: SyncPlan,
    repos: Table<TrackedRepo>,
    repo_path: Option<&str>,
    all: bool,
    i: int,
)
    requires
        is_sync_plan(r, repos, repo_path, all),
    ensures
        r is All <==> all,
        r matches SyncPlan::All(ids) ==> ids@.len() == repos.keys().len() && (0 <= i < ids@.len()
            ==> ids@[i]@ == repos.keys()[i]),
        r is Resolve <==> !all && repo_path is Some,
        r matches SyncPlan::Resolve(p) ==> (repo_path matches Some(path) && p@ == path@),
        r is Reply <==> !all && repo_path is None,
        r matches SyncPlan::Reply(resp) ==> (resp matches Response::Error { message } && message@
            == "repo_path required when --all is not set"@),
        !(r is One),
{
    if let SyncPlan::All(ids) = r {
        assert(views(ids@).len() == ids@.len());
        if 0 <= i < ids@.len() {
            assert(views(ids@)[i] == ids@[i]@);
        }
    }
}

/// A prompt in a repo that is not yet registered has it registered, under its own path.
pub proof fn law_prompt_registers_new_repos(
    r: PromptPlan,
    repos: Table<TrackedRepo>,
    resolved: Result<String, String>,
)
    requires
        is_prompt_plan(r, repos, resolved),
    ensures
        r is Register <==> (resolved matches Ok(id) && !repos@.contains_key(id@)),
        r is Known <==> (resolved matches Ok(id) && repos@.contains_key(id@)),
        r matches PromptPlan::Register(k) ==> (resolved matches Ok(id) && k@ == id@),
        r matches PromptPlan::Known(k) ==> (resolved matches Ok(id) && k@ == id@),
        r matches PromptPlan::Reply(resp) ==> resolved is Err && (resp matches Response::Error {
            message,
        } && message@ == "not a git repository"@),
{
}

/// What the summary counts: the branches that are in sync, and those that have diverged.
pub proof fn law_summary_counts_branches(
    keys: Seq<Seq<char>>,
    branches: Map<Seq<char>, BranchRuntimeState>,
)
    ensures
        synced_among(keys, branches) == keys.filter(
            |k: Seq<char>|
                branches[k].sync_status@ == "synced"@ || branches[k].sync_status@
                    == "up_to_date"@,
        ).len(),
        diverged_among(keys, branches) == keys.filter(
            |k: Seq<char>| branches[k].sync_status@ == "diverged"@,
        ).len(),
    decreases keys.len(),
{
    reveal(Seq::filter);
    if keys.len() > 0 {
        law_summary_counts_branches(keys.drop_last(), branches);
    }
}

/// The summary of a repo says that it is disabled, else how many of its branches have
/// diverged, else how many are in sync.
pub proof fn law_summary_tells_the_worst(d: RepoStatusData, tr: TrackedRepo, config: UserConfig)
    requires
        is_repo_status(d, tr, config),
    ensures
        d.display_path@ == tr.display_path@,
        tr.last_sync_wall matches Some(t) ==> (d.last_sync matches Some(u) && u@ == t@),
        tr.last_sync_wall is None ==> d.last_sync is None,
        config.repo_disabled(tr.repo_id@) ==> d.status_summary@ == "disabled"@,
        !config.repo_disabled(tr.repo_id@) ==> {
            let keys = tr.branches.keys();
            let diverged = keys.filter(
                |k: Seq<char>| tr.branches@[k].sync_status@ == "diverged"@,
            ).len();
            let synced = keys.filter(
                |k: Seq<char>|
                    tr.branches@[k].sync_status@ == "synced"@ || tr.branches@[k].sync_status@
                        == "up_to_date"@,
            ).len();
            &&& diverged > 0 ==> d.status_summary@ == decimal(diverged) + "/"@ + decimal(keys.len())
                + " diverged"@
            &&& diverged == 0 ==> d.status_summary@ == decimal(synced) + " synced"@
        },
{
    law_summary_counts_branches(tr.branches.keys(), tr.branches@);
}

/// After a reload the repos of the config are watched, unless they are disabled; what
/// is known of a repo that was watched before stays, but for the URLs of its remotes,
/// which are those that git has now.
pub proof fn law_reload_follows_the_config(
    now: Map<Seq<char>, TrackedRepo>,
    was: Map<Seq<char>, TrackedRepo>,
    config: UserConfig,
    probes: Seq<RepoProbe>,
    k: Seq<char>,
    i: int,
    name: Seq<char>,
)
    requires
        is_reloaded(now, was, config, probes),
    ensures
        !config.repos@.contains_key(k) ==> !now.contains_key(k),
        config.repos@.contains_key(k) && !config.repo_disabled(k) ==> now.contains_key(k),
        config.repos@.contains_key(k) && config.repo_disabled(k) ==> now.contains_key(k)
            == was.contains_key(k),
        now.contains_key(k) && config.repo_disabled(k) ==> now[k] == was[k],
        0 <= i < config.repos.keys().len() && !config.repo_disabled(config.repos.keys()[i]) ==> {
            let path = config.repos.keys()[i];
            let tr = now[path];
            &&& probes[i].remote_urls is None ==> !tr.remote_urls@.contains_key(name)
            &&& probes[i].remote_urls matches Some(t) ==> {
                &&& tr.remote_urls@.contains_key(name) <==> t@.contains_key(name)
                &&& t@.contains_key(name) ==> tr.remote_urls@[name]@ == t@[name]@
            }
            &&& was.contains_key(path) ==> {
                &&& tr.repo_id == was[path].repo_id
                &&& tr.display_path == was[path].display_path
                &&& tr.last_sync == was[path].last_sync
                &&& tr.last_sync_wall == was[path].last_sync_wall
                &&& tr.sync_reason == was[path].sync_reason
                &&& tr.in_sync == was[path].in_sync
                &&& tr.backoff == was[path].backoff
                &&& tr.branches == was[path].branches
                &&& tr.notification_cooldowns == was[path].notification_cooldowns
            }
            &&& !was.contains_key(path) ==> {
                &&& tr.repo_id@ == path
                &&& probes[i].display_path matches Some(p) ==> tr.display_path@ == p@
                &&& probes[i].display_path is None ==> tr.display_path@ == path
                &&& tr.last_sync is None
                &&& tr.last_sync_wall is None
                &&& tr.sync_reason is None
                &&& !tr.in_sync
                &&& tr.branches@.dom() == Set::<Seq<char>>::empty()
                &&& tr.notification_cooldowns@.dom() == Set::<Seq<char>>::empty()
            }
        },
{
    if 0 <= i < config.repos.keys().len() && !config.repo_disabled(config.repos.keys()[i]) {
        let path = config.repos.keys()[i];
        let tr = now[path];
        assert(text_map(tr.remote_urls@).dom() =~= tr.remote_urls@.dom());
        assert(text_map(tr.remote_urls@) == probes[i].urls());
        assert(text_map(tr.remote_urls@).contains_key(name) <==> tr.remote_urls@.contains_key(
            name,
        ));
        if let Some(t) = probes[i].remote_urls {
            assert(text_map(t@).dom() =~= t@.dom());
            assert(text_map(t@).contains_key(name) <==> t@.contains_key(name));
            if t@.contains_key(name) {
                assert(text_map(t@)[name] == t@[name]@);
                assert(text_map(tr.remote_urls@)[name] == tr.remote_urls@[name]@);
            }
        }
        if !was.contains_key(path) {
            assert(tr.branches@.dom() =~= Set::<Seq<char>>::empty());
            assert(tr.notification_cooldowns@.dom() =~= Set::<Seq<char>>::empty());
        }
    }
}

/// The repo that was found at a path is synced if it is registered; nothing else is.
pub proof fn law_registered_repo_is_synced(
    r: SyncPlan,
    repos: Table<TrackedRepo>,
    path: Seq<char>,
    resolved: Result<String, String>,
)
    requires
        is_one_sync(r, repos, path, resolved),
    ensures
        r is One <==> (resolved matches Ok(id) && repos@.contains_key(id@)),
        r matches SyncPlan::One(one) ==> (resolved matches Ok(id) && one@ == id@),
        r matches SyncPlan::Reply(resp) ==> (resp matches Response::Error { message } && (
        resolved matches Err(e) ==> message@ == "failed to resolve repo: "@ + e@) && (resolved
            is Ok ==> message@ == "repo not registered: "@ + path)),
        r is One || r is Reply,
{
}

/// Marking an answer as one of a new repo changes nothing else in it.
pub proof fn law_mark_changes_nothing_else(resp: Response)
    ensures
        !(resp is Status) ==> marked_new(resp) == resp,
        resp matches Response::Status { data } ==> (marked_new(resp) matches Response::Status {
            data: d,
        } && d.newly_registered && d.repo_id == data.repo_id && d.display_path
            == data.display_path && d.last_sync == data.last_sync && d.branches == data.branches
            && d.untrusted_remotes == data.untrusted_remotes && d.untrusted_hosts
            == data.untrusted_hosts && d.disabled_remotes == data.disabled_remotes && d.remote_urls
            == data.remote_urls),
{
}

/// The daemon tells its process number, for how many whole seconds it has run, how many
/// repos it watches, and the latest release that it knows of.
pub proof fn law_daemon_tells_of_itself(
    r: Response,
    pid: u32,
    start_time: nat,
    now: nat,
    repos: Table<TrackedRepo>,
    latest_version: Option<String>,
)
    requires
        is_daemon_status(r, pid, start_time, now, repos, latest_version),
    ensures
        r matches Response::DaemonStatus { pid: p, uptime_secs, repos_watched, latest_version: v }
            && p == pid && repos_watched == repos.keys().len() && (now >= start_time ==> uptime_secs
            * 1_000_000_000 <= now - start_time < (uptime_secs + 1) * 1_000_000_000) && (now
            < start_time ==> uptime_secs == 0) && (latest_version matches Some(x) ==> (
        v matches Some(y) && y@ == x@)) && (latest_version is None ==> v is None),
{
}

} // verus!
