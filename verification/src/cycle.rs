//! One sync cycle of a repo: which remotes to fetch and which branches to sync.

use vstd::prelude::*;

use crate::clock::Duration;
use crate::config::{law_what_is_disabled, Disabled, InRepoConfig, UserConfig};
use crate::daemon::{clock_reaches, TrackedRepo};
use crate::git_ops::RepoBranch;
use crate::table::Table;
use crate::text::{
    clone_list, lemma_push_contains, list_contains, text_eq, views,
};
use crate::transport::SyncEvent;

verus! {

// ---------------------------------------------------------------------------
// Which repos
// ---------------------------------------------------------------------------

/// The refresh interval that an in-repo config asks for, if it does.
pub open spec fn asked_interval(in_repo: Option<InRepoConfig>) -> Option<Duration> {
    match in_repo {
        Some(c) => c.refresh_interval,
        None => None,
    }
}

/// The repos among the first `n` that are due for a sync.
pub open spec fn due_among(
    repos: Table<TrackedRepo>,
    config: UserConfig,
    in_repo: Seq<Option<InRepoConfig>>,
    now: Duration,
    n: nat,
) -> Seq<Seq<char>>
    decreases n,
{
    if n == 0 {
        Seq::empty()
    } else {
        let front = due_among(repos, config, in_repo, now, (n - 1) as nat);
        let key = repos.keys()[n - 1];
        if repos@[key].due(config, asked_interval(in_repo[n - 1]), now) {
            front.push(key)
        } else {
            front
        }
    }
}

/// The repos that are due for a sync. `in_repo` holds the in-repo config of each
/// repo, where it has one that can be read.
pub fn due_repos(
    repos: &Table<TrackedRepo>,
    config: &UserConfig,
    in_repo: &Vec<Option<InRepoConfig>>,
    now: Duration,
) -> (r: Vec<String>)
    requires
        in_repo@.len() == repos.keys().len(),
    ensures
        views(r@) == due_among(*repos, *config, in_repo@, now, repos.keys().len()),
{
    let n = repos.len();
    let mut due: Vec<String> = Vec::new();
    let mut i: usize = 0;
    assert(views(due@) =~= Seq::<Seq<char>>::empty());
    while i < n
        invariant
            n == repos.keys().len(),
            in_repo@.len() == n,
            i <= n,
            views(due@) == due_among(*repos, *config, in_repo@, now, i as nat),
        decreases n - i,
    {
        let key = repos.key_at(i);
        let repo = repos.value_at(i);
        let ghost was = due@;
        if repo.is_due(config, in_repo[i].as_ref(), now) {
            due.push(String::from_str(key));
            assert(views(due@) =~= views(was).push(key@));
        }
        i = i + 1;
    }
    due
}

/// Exactly the repos that are due are synced.
pub proof fn law_due_repos_are_synced(
    repos: Table<TrackedRepo>,
    config: UserConfig,
    in_repo: Seq<Option<InRepoConfig>>,
    now: Duration,
    i: int,
)
    requires
        0 <= i < repos.keys().len(),
        repos.keys().no_duplicates(),
    ensures
        due_among(repos, config, in_repo, now, repos.keys().len()).contains(repos.keys()[i])
            <==> repos@[repos.keys()[i]].due(config, asked_interval(in_repo[i]), now),
{
    lemma_due(repos, config, in_repo, now, repos.keys().len(), i);
}

proof fn lemma_due(
    repos: Table<TrackedRepo>,
    config: UserConfig,
    in_repo: Seq<Option<InRepoConfig>>,
    now: Duration,
    n: nat,
    i: int,
)
    requires
        n <= repos.keys().len(),
        0 <= i < repos.keys().len(),
        repos.keys().no_duplicates(),
    ensures
        due_among(repos, config, in_repo, now, n).contains(repos.keys()[i]) <==> i < n
            && repos@[repos.keys()[i]].due(config, asked_interval(in_repo[i]), now),
    decreases n,
{
    if n > 0 {
        lemma_due(repos, config, in_repo, now, (n - 1) as nat, i);
        let front = due_among(repos, config, in_repo, now, (n - 1) as nat);
        let key = repos.keys()[n - 1];
        lemma_push_contains(front, key, repos.keys()[i]);
    }
}

// ---------------------------------------------------------------------------
// Fetching
// ---------------------------------------------------------------------------

/// Whether a remote may be contacted, be it for a fetch or for a push: it is not
/// disabled, and its URL, where it is known, is trusted.
pub open spec fn may_fetch(
    config: UserConfig,
    repo_id: Seq<char>,
    urls: Map<Seq<char>, String>,
    remote: Seq<char>,
) -> bool {
    &&& !config.remote_disabled(repo_id, remote)
    &&& urls.contains_key(remote) ==> config.remote_trusted(urls[remote]@)
}

/// The remotes of the branches with an upstream that may be fetched, each once,
/// in the order in which they first occur.
pub open spec fn tracked_remotes(
    branches: Seq<RepoBranch>,
    config: UserConfig,
    repo_id: Seq<char>,
    urls: Map<Seq<char>, String>,
) -> Seq<Seq<char>>
    decreases branches.len(),
{
    if branches.len() == 0 {
        Seq::empty()
    } else {
        let rest = tracked_remotes(branches.drop_last(), config, repo_id, urls);
        let b = branches.last();
        if b.upstream_name is Some && may_fetch(config, repo_id, urls, b.remote@) && !rest.contains(
            b.remote@,
        ) {
            rest.push(b.remote@)
        } else {
            rest
        }
    }
}

/// The remotes to fetch: those of the tracked branches, or "origin" where there
/// are none of these and "origin" is configured and may be fetched.
pub open spec fn fetch_list(
    branches: Seq<RepoBranch>,
    config: UserConfig,
    repo_id: Seq<char>,
    urls: Map<Seq<char>, String>,
) -> Seq<Seq<char>> {
    let needed = tracked_remotes(branches, config, repo_id, urls);
    if needed.len() == 0 && urls.contains_key("origin"@) && may_fetch(
        config,
        repo_id,
        urls,
        "origin"@,
    ) {
        seq!["origin"@]
    } else {
        needed
    }
}

/// Whether a remote may be contacted.
pub fn is_fetchable(
    config: &UserConfig,
    repo_id: &str,
    urls: &Table<String>,
    remote: &str,
) -> (r: bool)
    ensures
        r == may_fetch(*config, repo_id@, urls@, remote@),
{
    if config.is_remote_disabled(repo_id, remote) {
        return false;
    }
    match urls.get(remote) {
        Some(url) => config.is_remote_trusted(url.as_str()),
        None => true,
    }
}

/// The remotes to fetch.
pub fn remotes_to_fetch(
    branches: &Vec<RepoBranch>,
    config: &UserConfig,
    repo_id: &str,
    urls: &Table<String>,
) -> (r: Vec<String>)
    ensures
        views(r@) == fetch_list(branches@, *config, repo_id@, urls@),
{
    let mut out: Vec<String> = Vec::new();
    let mut i: usize = 0;
    assert(views(out@) =~= tracked_remotes(branches@.take(0), *config, repo_id@, urls@));
    while i < branches.len()
        invariant
            i <= branches@.len(),
            views(out@) == tracked_remotes(branches@.take(i as int), *config, repo_id@, urls@),
        decreases branches.len() - i,
    {
        let ghost t = branches@.take(i + 1);
        assert(t.drop_last() =~= branches@.take(i as int));
        assert(t.last() == branches@[i as int]);
        let b = &branches[i];
        let ghost was = out@;
        if b.upstream_name.is_some() && is_fetchable(config, repo_id, urls, b.remote.as_str())
            && !list_contains(&out, b.remote.as_str()) {
            out.push(String::from_str(b.remote.as_str()));
            assert(views(out@) =~= views(was).push(b.remote@));
        }
        i = i + 1;
    }
    assert(branches@.take(i as int) =~= branches@);
    assert(views(out@).len() == out@.len());
    if out.len() == 0 && urls.contains_key("origin") && is_fetchable(
        config,
        repo_id,
        urls,
        "origin",
    ) {
        out.push(String::from_str("origin"));
        assert(views(out@) =~= seq!["origin"@]);
    }
    out
}

proof fn lemma_tracked_remotes(
    branches: Seq<RepoBranch>,
    config: UserConfig,
    repo_id: Seq<char>,
    urls: Map<Seq<char>, String>,
)
    ensures
        ({
            let list = tracked_remotes(branches, config, repo_id, urls);
            &&& list.no_duplicates()
            &&& forall|r: Seq<char>| #[trigger]
                list.contains(r) <==> may_fetch(config, repo_id, urls, r) && exists|i: int|
                    0 <= i < branches.len() && (#[trigger] branches[i]).upstream_name is Some
                        && branches[i].remote@ == r
        }),
    decreases branches.len(),
{
    if branches.len() > 0 {
        let front = branches.drop_last();
        let b = branches.last();
        lemma_tracked_remotes(front, config, repo_id, urls);
        let rest = tracked_remotes(front, config, repo_id, urls);
        let list = tracked_remotes(branches, config, repo_id, urls);
        assert forall|r: Seq<char>| #[trigger]
            list.contains(r) <==> may_fetch(config, repo_id, urls, r) && exists|i: int|
                0 <= i < branches.len() && (#[trigger] branches[i]).upstream_name is Some
                    && branches[i].remote@ == r by {
            lemma_push_contains(rest, b.remote@, r);
            if rest.contains(r) {
                let i = choose|i: int|
                    0 <= i < front.len() && (#[trigger] front[i]).upstream_name is Some
                        && front[i].remote@ == r;
                assert(branches[i] == front[i]);
            }
            if may_fetch(config, repo_id, urls, r) && exists|i: int|
                0 <= i < branches.len() && (#[trigger] branches[i]).upstream_name is Some
                    && branches[i].remote@ == r {
                let i = choose|i: int|
                    0 <= i < branches.len() && (#[trigger] branches[i]).upstream_name is Some
                        && branches[i].remote@ == r;
                if i < front.len() {
                    assert(front[i] == branches[i]);
                    assert(rest.contains(r));
                }
            }
            if list.contains(r) && !rest.contains(r) {
                assert(branches[branches.len() - 1] == b);
            }
        }
    }
}

/// Untrusted and disabled remotes are never fetched, no remote is fetched
/// twice, and every remote that a tracked branch needs and that may be fetched
/// is fetched.
pub proof fn law_only_allowed_remotes_are_fetched(
    branches: Seq<RepoBranch>,
    config: UserConfig,
    repo_id: Seq<char>,
    urls: Map<Seq<char>, String>,
)
    ensures
        ({
            let list = fetch_list(branches, config, repo_id, urls);
            &&& list.no_duplicates()
            &&& forall|r: Seq<char>| #[trigger]
                list.contains(r) ==> may_fetch(config, repo_id, urls, r)
            &&& forall|i: int|
                0 <= i < branches.len() && (#[trigger] branches[i]).upstream_name is Some
                    && may_fetch(config, repo_id, urls, branches[i].remote@) ==> list.contains(
                    branches[i].remote@,
                )
        }),
{
    lemma_tracked_remotes(branches, config, repo_id, urls);
    let needed = tracked_remotes(branches, config, repo_id, urls);
    let list = fetch_list(branches, config, repo_id, urls);
    if needed.len() == 0 {
        assert forall|i: int|
            0 <= i < branches.len() && (#[trigger] branches[i]).upstream_name is Some && may_fetch(
                config,
                repo_id,
                urls,
                branches[i].remote@,
            ) implies list.contains(branches[i].remote@) by {
            assert(needed.contains(branches[i].remote@));
        }
    }
    assert forall|r: Seq<char>| #[trigger] list.contains(r) implies may_fetch(
        config,
        repo_id,
        urls,
        r,
    ) by {
        if list != needed {
            let i = choose|i: int| 0 <= i < list.len() && list[i] == r;
            assert(list == seq!["origin"@]);
        }
    }
}

/// Whether one of the fetches went through.
pub open spec fn any_true(results: Seq<bool>) -> bool {
    exists|i: int| 0 <= i < results.len() && #[trigger] results[i]
}

fn any(results: &Vec<bool>) -> (r: bool)
    ensures
        r == any_true(results@),
{
    let mut i: usize = 0;
    while i < results.len()
        invariant
            i <= results@.len(),
            forall|k: int| 0 <= k < i ==> !#[trigger] results@[k],
        decreases results.len() - i,
    {
        if results[i] {
            return true;
        }
        i = i + 1;
    }
    false
}

impl TrackedRepo {
    /// The remotes to fetch now, or none while fetches are held back.
    pub fn plan_fetch(
        &self,
        branches: &Vec<RepoBranch>,
        config: &UserConfig,
        now: Duration,
    ) -> (r: Option<Vec<String>>)
        ensures
            match r {
                Some(list) => !self.backoff.fetch_blocked(now) && views(list@) == fetch_list(
                    branches@,
                    *config,
                    self.repo_id@,
                    self.remote_urls@,
                ),
                None => self.backoff.fetch_blocked(now),
            },
    {
        if self.backoff.should_skip_fetch(now) {
            return None;
        }
        Some(remotes_to_fetch(branches, config, self.repo_id.as_str(), &self.remote_urls))
    }

    /// Records how the fetches went: one that went through clears the backoff,
    /// and where none did the backoff grows.
    pub fn record_fetch(&mut self, remotes: &Vec<String>, results: &Vec<bool>, now: Duration) -> (r:
        Option<SyncEvent>)
        requires
            !any_true(results@) ==> old(self).backoff.fetch_consecutive_failures < u32::MAX
                && clock_reaches(now),
        ensures
            match r {
                Some(SyncEvent::Fetch { remotes: list }) => any_true(results@) && views(list@)
                    == views(remotes@),
                Some(SyncEvent::Branch { .. }) => false,
                None => !any_true(results@),
            },
            if any_true(results@) {
                final(self).backoff.after_fetch_success(old(self).backoff)
            } else {
                final(self).backoff.after_fetch_failure(old(self).backoff, now)
            },
            *final(self) == (TrackedRepo { backoff: final(self).backoff, ..*old(self) }),
    {
        if any(results) {
            self.backoff.reset_fetch_backoff();
            Some(SyncEvent::Fetch { remotes: clone_list(remotes) })
        } else {
            self.backoff.record_fetch_failure(now);
            None
        }
    }
}

// ---------------------------------------------------------------------------
// Canonical branches
// ---------------------------------------------------------------------------

/// Whether two branches with an upstream track the same remote ref.
pub open spec fn same_target(a: RepoBranch, b: RepoBranch) -> bool {
    &&& a.upstream_name is Some
    &&& b.upstream_name is Some
    &&& a.remote@ == b.remote@
    &&& a.remote_ref@ == b.remote_ref@
}

/// Whether no other branch tracks what branch `i` tracks.
pub open spec fn tracks_alone(branches: Seq<RepoBranch>, i: int) -> bool {
    forall|j: int|
        0 <= j < branches.len() && j != i ==> !same_target(branches[i], #[trigger] branches[j])
}

/// Whether branch `i` is the first one that has the name of what it tracks.
pub open spec fn is_namesake(branches: Seq<RepoBranch>, i: int) -> bool {
    &&& branches[i].name@ == branches[i].remote_ref@
    &&& forall|j: int|
        0 <= j < i && same_target(branches[i], #[trigger] branches[j]) ==> branches[j].name@
            != branches[i].remote_ref@
}

/// Whether branch `i` is the one to sync with the remote ref that it tracks. Of
/// several branches that track one ref, that is the one with its name; where
/// none has it, it is none of them.
pub open spec fn is_canonical(branches: Seq<RepoBranch>, i: int) -> bool {
    &&& 0 <= i < branches.len()
    &&& branches[i].upstream_name is Some
    &&& tracks_alone(branches, i) || is_namesake(branches, i)
}

/// A remote ref has one canonical branch at most.
pub proof fn law_one_canonical_branch_per_target(branches: Seq<RepoBranch>, i: int, j: int)
    requires
        is_canonical(branches, i),
        is_canonical(branches, j),
        same_target(branches[i], branches[j]),
    ensures
        i == j,
{
    if i != j {
        assert(same_target(branches[j], branches[i]));
        assert(!tracks_alone(branches, i));
        assert(!tracks_alone(branches, j));
        if i < j {
            assert(branches[i].name@ != branches[j].remote_ref@);
        } else {
            assert(branches[j].name@ != branches[i].remote_ref@);
        }
    }
}

/// A branch that is the only one to track its ref is canonical, and so is the
/// one among several that has the name of the ref, if no other has.
pub proof fn law_namesake_is_canonical(branches: Seq<RepoBranch>, i: int)
    requires
        0 <= i < branches.len(),
        branches[i].upstream_name is Some,
        tracks_alone(branches, i) || (branches[i].name@ == branches[i].remote_ref@ && forall|j: int|
            0 <= j < branches.len() && j != i ==> (#[trigger] branches[j]).name@
                != branches[i].name@),
    ensures
        is_canonical(branches, i),
{
}

fn same_target_as(a: &RepoBranch, b: &RepoBranch) -> (r: bool)
    ensures
        r == same_target(*a, *b),
{
    a.upstream_name.is_some() && b.upstream_name.is_some() && text_eq(
        a.remote.as_str(),
        b.remote.as_str(),
    ) && text_eq(a.remote_ref.as_str(), b.remote_ref.as_str())
}

fn canonical(branches: &Vec<RepoBranch>, i: usize) -> (r: bool)
    requires
        i < branches@.len(),
    ensures
        r == is_canonical(branches@, i as int),
{
    let b = &branches[i];
    if b.upstream_name.is_none() {
        return false;
    }
    let named = text_eq(b.name.as_str(), b.remote_ref.as_str());
    let mut alone = true;
    let mut first = true;
    let mut j: usize = 0;
    while j < branches.len()
        invariant
            i < branches@.len(),
            *b == branches@[i as int],
            j <= branches@.len(),
            alone <==> forall|k: int|
                0 <= k < j && k != i ==> !same_target(branches@[i as int], #[trigger] branches@[k]),
            first <==> forall|k: int|
                0 <= k < j && k < i && same_target(branches@[i as int], #[trigger] branches@[k])
                    ==> branches@[k].name@ != branches@[i as int].remote_ref@,
        decreases branches.len() - j,
    {
        if j != i && same_target_as(b, &branches[j]) {
            assert(same_target(branches@[i as int], branches@[j as int]));
            alone = false;
            if j < i && text_eq(branches[j].name.as_str(), b.remote_ref.as_str()) {
                first = false;
            }
        }
        j = j + 1;
    }
    alone || (named && first)
}

/// The positions of the canonical branches, from the first to the last.
pub fn canonical_branches(branches: &Vec<RepoBranch>) -> (r: Vec<usize>)
    ensures
        forall|k: int| 0 <= k < r@.len() ==> is_canonical(branches@, #[trigger] r@[k] as int),
        forall|i: int| #[trigger]
            is_canonical(branches@, i) ==> exists|k: int|
                0 <= k < r@.len() && #[trigger] r@[k] == i,
        forall|k: int, l: int| 0 <= k < l < r@.len() ==> #[trigger] r@[k] < #[trigger] r@[l],
{
    let mut out: Vec<usize> = Vec::new();
    let mut i: usize = 0;
    while i < branches.len()
        invariant
            i <= branches@.len(),
            forall|k: int|
                0 <= k < out@.len() ==> is_canonical(branches@, #[trigger] out@[k] as int)
                    && out@[k] < i,
            forall|m: int|
                m < i && #[trigger] is_canonical(branches@, m) ==> exists|k: int|
                    0 <= k < out@.len() && #[trigger] out@[k] == m,
            forall|k: int, l: int|
                0 <= k < l < out@.len() ==> #[trigger] out@[k] < #[trigger] out@[l],
        decreases branches.len() - i,
    {
        let ghost was = out@;
        if canonical(branches, i) {
            out.push(i);
            assert(out@[was.len() as int] == i);
        }
        proof {
            assert forall|m: int| m < i + 1 && #[trigger] is_canonical(branches@, m) implies exists|
                k: int,
            |
                0 <= k < out@.len() && #[trigger] out@[k] == m by {
                if m < i {
                    let k = choose|k: int| 0 <= k < was.len() && #[trigger] was[k] == m;
                    assert(out@[k] == m);
                }
            }
        }
        i = i + 1;
    }
    out
}

// ---------------------------------------------------------------------------
// What holds of every cycle
// ---------------------------------------------------------------------------

/// A remote is contacted unless its repo is disabled, it is listed as disabled, or its
/// URL is known and not trusted.
pub proof fn law_who_may_be_contacted(
    config: UserConfig,
    repo_id: Seq<char>,
    urls: Map<Seq<char>, String>,
    remote: Seq<char>,
)
    ensures
        may_fetch(config, repo_id, urls, remote) ==> {
            &&& !config.remote_disabled(repo_id, remote)
            &&& !config.repo_disabled(repo_id)
            &&& urls.contains_key(remote) ==> config.remote_trusted(urls[remote]@)
        },
        config.repos@.contains_key(repo_id) ==> match config.repos@[repo_id].disabled {
            Some(Disabled::All(true)) => !may_fetch(config, repo_id, urls, remote),
            Some(Disabled::Remotes(list)) => (exists|i: int|
                0 <= i < list@.len() && (#[trigger] list@[i])@ == remote) ==> !may_fetch(
                config,
                repo_id,
                urls,
                remote,
            ),
            _ => true,
        },
        !config.remote_disabled(repo_id, remote) && (urls.contains_key(remote)
            ==> config.remote_trusted(urls[remote]@)) ==> may_fetch(config, repo_id, urls, remote),
{
    law_what_is_disabled(config, repo_id, remote);
}

/// Only what a branch with an upstream tracks is fetched, or "origin" where nothing
/// else is; and "origin" is fetched then if it is known and may be contacted.
pub proof fn law_fetches_are_needed(
    branches: Seq<RepoBranch>,
    config: UserConfig,
    repo_id: Seq<char>,
    urls: Map<Seq<char>, String>,
    remote: Seq<char>,
)
    ensures
        ({
            let list = fetch_list(branches, config, repo_id, urls);
            &&& list.contains(remote) ==> (remote == "origin"@ && list.len() == 1
                && urls.contains_key("origin"@)) || exists|i: int|
                0 <= i < branches.len() && (#[trigger] branches[i]).upstream_name is Some
                    && branches[i].remote@ == remote
            &&& list.len() == 0 && urls.contains_key("origin"@) ==> !may_fetch(
                config,
                repo_id,
                urls,
                "origin"@,
            )
        }),
{
    lemma_tracked_remotes(branches, config, repo_id, urls);
    let needed = tracked_remotes(branches, config, repo_id, urls);
    let list = fetch_list(branches, config, repo_id, urls);
    if list.contains(remote) {
        if list == needed {
            assert(needed.contains(remote));
        } else {
            let i = choose|i: int| 0 <= i < list.len() && list[i] == remote;
            assert(list[i] == "origin"@);
        }
    }
}

/// The branch that is synced with a ref of a remote: the only one that tracks it, or
/// of several the first that has its name.
pub proof fn law_which_branch_is_synced(branches: Seq<RepoBranch>, i: int)
    requires
        0 <= i < branches.len(),
    ensures
        branches[i].upstream_name is None ==> !is_canonical(branches, i),
        branches[i].upstream_name is Some ==> {
            let alone = forall|j: int|
                0 <= j < branches.len() && j != i ==> {
                    ||| (#[trigger] branches[j]).upstream_name is None
                    ||| branches[j].remote@ != branches[i].remote@
                    ||| branches[j].remote_ref@ != branches[i].remote_ref@
                };
            let first = forall|j: int|
                0 <= j < i ==> {
                    ||| (#[trigger] branches[j]).upstream_name is None
                    ||| branches[j].remote@ != branches[i].remote@
                    ||| branches[j].remote_ref@ != branches[i].remote_ref@
                    ||| branches[j].name@ != branches[i].remote_ref@
                };
            &&& alone ==> is_canonical(branches, i)
            &&& !alone && branches[i].name@ == branches[i].remote_ref@ && first ==> is_canonical(
                branches,
                i,
            )
            &&& !alone && branches[i].name@ != branches[i].remote_ref@ ==> !is_canonical(
                branches,
                i,
            )
            &&& !alone && !first ==> !is_canonical(branches, i)
        },
{
    assert forall|j: int| 0 <= j < branches.len() && j != i implies (same_target(
        branches[i],
        #[trigger] branches[j],
    ) <==> branches[i].upstream_name is Some && !({
        ||| branches[j].upstream_name is None
        ||| branches[j].remote@ != branches[i].remote@
        ||| branches[j].remote_ref@ != branches[i].remote_ref@
    })) by {
    }
}

/// A fetch counts as gone through if any remote could be fetched.
pub proof fn law_one_fetch_is_enough(results: Seq<bool>, i: int)
    ensures
        0 <= i < results.len() && results[i] ==> any_true(results),
        any_true(results) ==> results.contains(true),
{
    if any_true(results) {
        let k = choose|k: int| 0 <= k < results.len() && #[trigger] results[k];
        assert(results[k] == true);
    }
}

/// An in-repo config asks for its own interval, and a missing one for none.
pub proof fn law_in_repo_interval_is_asked(c: InRepoConfig)
    ensures
        asked_interval(Some(c)) == c.refresh_interval,
        asked_interval(None) is None,
{
}

} // verus!
