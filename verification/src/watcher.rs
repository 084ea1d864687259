//! Filesystem watcher for near-instant reaction to local git changes.
//!
//! Watches `.git/refs/heads/`, `.git/HEAD`, and `.git/refs/remotes/` per
//! registered repo. Events are debounced per repo (configurable, default 1s)
//! before triggering a sync cycle.

use vstd::prelude::*;

use crate::clock::{Duration, MAX_NANOS, NANOS_PER_MILLI};
use crate::config::GlobalSettings;
use crate::daemon::TrackedRepo;
use crate::table::Table;
use crate::text::{cat3, join, join_from, lemma_push_contains, text_eq, view_opt, views};

verus! {

/// Default debounce interval for filesystem events, in milliseconds.
pub const DEFAULT_DEBOUNCE_MILLIS: u64 = 1000;

/// The directories within a git dir that are watched with all below them.
pub fn watch_subdirs() -> (r: &'static [&'static str])
    ensures
        r@.len() == 2,
        r@[0]@ == "refs/heads"@,
        r@[1]@ == "refs/remotes"@,
{
    &["refs/heads", "refs/remotes"]
}

/// The files within a git dir that are watched.
pub fn watch_files() -> (r: &'static [&'static str])
    ensures
        r@.len() == 1,
        r@[0]@ == "HEAD"@,
{
    &["HEAD"]
}

/// How long a repo has to be quiet.
pub open spec fn debounce_nanos(global: GlobalSettings) -> nat {
    match global.watcher_debounce {
        Some(d) => d@,
        None => (DEFAULT_DEBOUNCE_MILLIS * NANOS_PER_MILLI) as nat,
    }
}

/// The debounce interval in force.
pub fn debounce_of(global: &GlobalSettings) -> (r: Duration)
    ensures
        r@ == debounce_nanos(*global),
        r@ == (match global.watcher_debounce {
            Some(d) => d@,
            None => (DEFAULT_DEBOUNCE_MILLIS * NANOS_PER_MILLI) as nat,
        }),
{
    match global.watcher_debounce {
        Some(d) => d,
        None => Duration::from_millis(DEFAULT_DEBOUNCE_MILLIS),
    }
}

// ---------------------------------------------------------------------------
// Changed paths
// ---------------------------------------------------------------------------

/// A path that changed.
#[derive(Debug)]
pub struct ChangedPath {
    pub components: Vec<String>,
    /// The path as text.
    pub display: String,
    pub extension: Option<String>,
}

/// Whether `refs/` and then `name` stand in a path.
pub open spec fn is_under(components: Seq<Seq<char>>, name: Seq<char>) -> bool {
    exists|i: int|
        0 <= i && i + 1 < components.len() && #[trigger] components[i] == "refs"@ && components[i
            + 1] == name
}

/// The position of the first `refs/` with `name` behind it, or the length.
pub open spec fn place_of(components: Seq<Seq<char>>, name: Seq<char>) -> int
    decreases components.len(),
{
    if components.len() == 0 {
        0
    } else if components.len() > 1 && components[0] == "refs"@ && components[1] == name {
        0
    } else {
        1 + place_of(components.drop_first(), name)
    }
}

proof fn lemma_place_of(components: Seq<Seq<char>>, name: Seq<char>)
    ensures
        0 <= place_of(components, name) <= components.len(),
        is_under(components, name) <==> place_of(components, name) + 1 < components.len(),
        place_of(components, name) + 1 != components.len(),
    decreases components.len(),
{
    if components.len() == 0 {
    } else if components.len() > 1 && components[0] == "refs"@ && components[1] == name {
        assert(is_under(components, name));
    } else {
        let rest = components.drop_first();
        lemma_place_of(rest, name);
        if is_under(rest, name) {
            let i = choose|i: int|
                0 <= i && i + 1 < rest.len() && #[trigger] rest[i] == "refs"@ && rest[i + 1]
                    == name;
            assert(components[i + 1] == "refs"@ && components[i + 2] == name);
        }
        if is_under(components, name) {
            let i = choose|i: int|
                0 <= i && i + 1 < components.len() && #[trigger] components[i] == "refs"@
                    && components[i + 1] == name;
            assert(rest[i - 1] == "refs"@ && rest[i] == name);
        }
    }
}

/// The part of a path below the first `refs/` and `name`.
pub open spec fn below(components: Seq<Seq<char>>, name: Seq<char>) -> Seq<char> {
    if is_under(components, name) {
        join(components.skip(place_of(components, name) + 2), "/"@)
    } else {
        Seq::empty()
    }
}

/// What a change of a path is called.
pub open spec fn change_text(components: Seq<Seq<char>>, display: Seq<char>) -> Seq<char> {
    if below(components, "heads"@).len() > 0 {
        "ref update ("@ + below(components, "heads"@) + ")"@
    } else if below(components, "remotes"@).len() > 0 {
        "remote ref ("@ + below(components, "remotes"@) + ")"@
    } else if components.len() > 0 && components.last() == "HEAD"@ {
        "HEAD changed"@
    } else {
        "file changed ("@ + display + ")"@
    }
}

/// The position of the first `refs/` with `name` behind it, if there is one.
fn find_place(components: &Vec<String>, name: &str) -> (r: Option<usize>)
    ensures
        match r {
            Some(i) => is_under(views(components@), name@) && i == place_of(
                views(components@),
                name@,
            ) && i + 2 <= components@.len(),
            None => !is_under(views(components@), name@),
        },
{
    let ghost all = views(components@);
    let mut i: usize = 0;
    assert(all.skip(0) =~= all);
    proof {
        lemma_place_of(all, name@);
    }
    while i < components.len()
        invariant
            i <= components@.len(),
            all == views(components@),
            place_of(all, name@) == i + place_of(all.skip(i as int), name@),
            is_under(all, name@) <==> place_of(all, name@) + 1 < all.len(),
        decreases components.len() - i,
    {
        assert(all.skip(i as int)[0] == components@[i as int]@);
        if i + 1 < components.len() && text_eq(components[i].as_str(), "refs") && text_eq(
            components[i + 1].as_str(),
            name,
        ) {
            assert(all.skip(i as int)[1] == components@[i + 1]@);
            return Some(i);
        }
        proof {
            if i + 1 < components@.len() {
                assert(all.skip(i as int)[1] == components@[i + 1]@);
            }
        }
        assert(all.skip(i as int).drop_first() =~= all.skip(i + 1));
        i = i + 1;
    }
    None
}

fn text_below(components: &Vec<String>, name: &str) -> (r: String)
    ensures
        r@ == below(views(components@), name@),
{
    let n: usize = components.len();
    match find_place(components, name) {
        Some(i) => join_from(components, i + 2, "/"),
        None => String::new(),
    }
}

/// Derive a human-readable reason from a changed path.
///
/// Examples: "ref update (main)", "HEAD changed", "remote ref (origin/main)"
pub fn describe_change(path: &ChangedPath) -> (r: String)
    ensures
        r@ == change_text(views(path.components@), path.display@),
{
    let branch = text_below(&path.components, "heads");
    if !branch.as_str().is_empty() {
        return cat3("ref update (", branch.as_str(), ")");
    }
    let remote = text_below(&path.components, "remotes");
    if !remote.as_str().is_empty() {
        return cat3("remote ref (", remote.as_str(), ")");
    }
    let n = path.components.len();
    if n > 0 && text_eq(path.components[n - 1].as_str(), "HEAD") {
        return String::from_str("HEAD changed");
    }
    cat3("file changed (", path.display.as_str(), ")")
}

/// Whether a path is under refs/remotes/.
pub open spec fn names_remote_ref(components: Seq<Seq<char>>) -> bool {
    is_under(components, "remotes"@)
}

/// Check if a path is under refs/remotes/.
pub fn is_remote_ref(path: &ChangedPath) -> (r: bool)
    ensures
        r == names_remote_ref(views(path.components@)),
{
    find_place(&path.components, "remotes").is_some()
}

/// Whether `path` is `base` or lies below it.
pub open spec fn lies_in(path: Seq<Seq<char>>, base: Seq<Seq<char>>) -> bool {
    base.len() <= path.len() && path.take(base.len() as int) == base
}

/// Whether `path` is one of the watched paths or lies below one.
pub open spec fn is_covered(path: Seq<Seq<char>>, bases: Seq<Vec<String>>) -> bool {
    exists|i: int| 0 <= i < bases.len() && lies_in(path, views((#[trigger] bases[i])@))
}

fn lies_below(path: &Vec<String>, base: &Vec<String>) -> (r: bool)
    ensures
        r == lies_in(views(path@), views(base@)),
{
    if base.len() > path.len() {
        return false;
    }
    let ghost p = views(path@);
    let ghost b = views(base@);
    let mut i: usize = 0;
    while i < base.len()
        invariant
            i <= base@.len() <= path@.len(),
            p == views(path@),
            b == views(base@),
            forall|k: int| 0 <= k < i ==> p[k] == b[k],
        decreases base.len() - i,
    {
        if !text_eq(path[i].as_str(), base[i].as_str()) {
            assert(p[i as int] != b[i as int]);
            assert(p.take(b.len() as int)[i as int] != b[i as int]);
            return false;
        }
        assert(p[i as int] == b[i as int]);
        i = i + 1;
    }
    assert(p.take(b.len() as int) =~= b);
    true
}

fn covers(bases: &Vec<Vec<String>>, path: &Vec<String>) -> (r: bool)
    ensures
        r == is_covered(views(path@), bases@),
{
    let mut i: usize = 0;
    while i < bases.len()
        invariant
            i <= bases@.len(),
            forall|k: int| 0 <= k < i ==> !lies_in(views(path@), views((#[trigger] bases@[k])@)),
        decreases bases.len() - i,
    {
        if lies_below(path, &bases[i]) {
            assert(lies_in(views(path@), views(bases@[i as int]@)));
            return true;
        }
        i = i + 1;
    }
    false
}

/// The repo that a path belongs to is the first one whose watched paths cover it.
pub open spec fn is_owner(
    watched: Table<Vec<Vec<String>>>,
    path: Seq<Seq<char>>,
    owner: Option<Seq<char>>,
) -> bool {
    let keys = watched.keys();
    match owner {
        Some(id) => exists|i: int|
            {
                &&& 0 <= i < keys.len()
                &&& #[trigger] keys[i] == id
                &&& is_covered(path, watched@[id]@)
                &&& forall|j: int|
                    0 <= j < i ==> !is_covered(path, watched@[#[trigger] keys[j]]@)
            },
        None => forall|j: int|
            0 <= j < keys.len() ==> !is_covered(path, watched@[#[trigger] keys[j]]@),
    }
}

/// Given a changed path, figure out which repo_id it belongs to.
pub fn resolve_repo_id_for_path(path: &ChangedPath, watched: &Table<Vec<Vec<String>>>) -> (r: Option<
    String,
>)
    ensures
        is_owner(*watched, views(path.components@), view_opt(r)),
{
    let n = watched.len();
    let mut i: usize = 0;
    while i < n
        invariant
            n == watched.keys().len(),
            i <= n,
            forall|j: int|
                0 <= j < i ==> !is_covered(
                    views(path.components@),
                    watched@[#[trigger] watched.keys()[j]]@,
                ),
        decreases n - i,
    {
        if covers(watched.value_at(i), &path.components) {
            let id = String::from_str(watched.key_at(i));
            assert(watched.keys()[i as int] == id@);
            return Some(id);
        }
        i = i + 1;
    }
    None
}

// ---------------------------------------------------------------------------
// Debouncing
// ---------------------------------------------------------------------------

/// A change that waits for its debounce interval to be over.
#[derive(Debug)]
pub struct PendingChange {
    pub last_event: Duration,
    pub reason: String,
}

/// What is watched, and which changes wait.
#[derive(Debug)]
pub struct WatchState {
    pub debounce: Duration,
    /// The watched paths of each repo.
    pub watched: Table<Vec<Vec<String>>>,
    /// The waiting change of each repo.
    pub pending: Table<PendingChange>,
}

impl WatchState {
    /// Nothing is watched yet.
    pub fn new(debounce: Duration) -> (r: WatchState)
        ensures
            r.debounce == debounce,
            r.watched@ == Map::<Seq<char>, Vec<Vec<String>>>::empty(),
            r.pending@ == Map::<Seq<char>, PendingChange>::empty(),
    {
        WatchState { debounce, watched: Table::new(), pending: Table::new() }
    }

    /// Whether a change is one of our own: the remote-tracking ref of a repo
    /// changed while a sync of it runs or shortly after one.
    pub open spec fn is_own_change(
        self,
        path: Seq<Seq<char>>,
        owner: Option<Seq<char>>,
        repos: Map<Seq<char>, TrackedRepo>,
        now: Duration,
    ) -> bool {
        &&& names_remote_ref(path)
        &&& owner is Some
        &&& repos.contains_key(owner->0)
        &&& {
            let last = repos[owner->0].last_sync;
            last is None || now@ < last->0@ + self.debounce@ * 5
        }
        &&& repos[owner->0].last_sync is Some ==> self.debounce@ > 0
    }

    /// Whether a changed path is reacted to: it is no lock file and no change
    /// of our own.
    pub open spec fn reacts_to(
        self,
        path: ChangedPath,
        owner: Option<Seq<char>>,
        repos: Map<Seq<char>, TrackedRepo>,
        now: Duration,
    ) -> bool {
        &&& view_opt(path.extension) != Some("lock"@)
        &&& owner is Some
        &&& !self.is_own_change(views(path.components@), owner, repos, now)
    }

    /// Whether this is `was` after a change at `path`, which belongs to `owner`.
    pub open spec fn has_noted(
        self,
        was: WatchState,
        path: ChangedPath,
        owner: Option<Seq<char>>,
        repos: Map<Seq<char>, TrackedRepo>,
        now: Duration,
    ) -> bool {
        &&& is_owner(was.watched, views(path.components@), owner)
        &&& if was.reacts_to(path, owner, repos, now) {
            &&& self.pending@.contains_key(owner->0)
            &&& self.pending@ == was.pending@.insert(owner->0, self.pending@[owner->0])
            &&& self.pending@[owner->0].last_event == now
            &&& self.pending@[owner->0].reason@ == change_text(
                views(path.components@),
                path.display@,
            )
        } else {
            self.pending == was.pending
        }
    }

    /// Takes note of a changed path. The change then waits for its interval,
    /// in place of an earlier change of the same repo.
    pub fn note_change(&mut self, path: &ChangedPath, repos: &Table<TrackedRepo>, now: Duration)
        requires
            old(self).debounce@ * 5 <= MAX_NANOS,
        ensures
            exists|owner: Option<Seq<char>>| #[trigger]
                final(self).has_noted(*old(self), *path, owner, repos@, now),
            final(self).debounce == old(self).debounce,
            final(self).watched == old(self).watched,
            exists|owner: Option<Seq<char>>|
                {
                    &&& #[trigger] is_owner(old(self).watched, views(path.components@), owner)
                    &&& if old(self).reacts_to(*path, owner, repos@, now) {
                        &&& final(self).pending@.contains_key(owner->0)
                        &&& final(self).pending@ == old(self).pending@.insert(
                            owner->0,
                            final(self).pending@[owner->0],
                        )
                        &&& final(self).pending@[owner->0].last_event == now
                        &&& final(self).pending@[owner->0].reason@ == change_text(
                            views(path.components@),
                            path.display@,
                        )
                    } else {
                        final(self).pending == old(self).pending
                    }
                },
    {
        let owner = resolve_repo_id_for_path(path, &self.watched);
        let ghost o = view_opt(owner);
        assert(is_owner(old(self).watched, views(path.components@), o));
        if let Some(ext) = &path.extension {
            if text_eq(ext.as_str(), "lock") {
                assert(self.has_noted(*old(self), *path, o, repos@, now));
                return ;
            }
        }
        let id = match owner {
            Some(id) => id,
            None => {
                assert(self.has_noted(*old(self), *path, o, repos@, now));
                return ;
            },
        };
        if is_remote_ref(path) {
            if let Some(tr) = repos.get(id.as_str()) {
                match tr.last_sync {
                    None => {
                        assert(self.has_noted(*old(self), *path, o, repos@, now));
                        return ;
                    },
                    Some(last) => {
                        let window = match self.debounce.checked_mul(5) {
                            Some(w) => w,
                            None => self.debounce,
                        };
                        if !now.saturating_sub(last).at_least(window) {
                            assert(self.has_noted(*old(self), *path, o, repos@, now));
                            return ;
                        }
                    },
                }
            }
        }
        let reason = describe_change(path);
        self.pending.insert(id, PendingChange { last_event: now, reason });
        assert(self.has_noted(*old(self), *path, o, repos@, now));
    }

    /// Whether a change has waited long enough.
    pub open spec fn is_ripe(self, change: PendingChange, now: Duration) -> bool {
        self.debounce@ == 0 || now@ >= change.last_event@ + self.debounce@
    }

    /// The repos among `keys` whose change has waited long enough.
    pub open spec fn ripe_among(self, keys: Seq<Seq<char>>, now: Duration) -> Seq<Seq<char>>
        decreases keys.len(),
    {
        if keys.len() == 0 {
            Seq::empty()
        } else {
            let rest = self.ripe_among(keys.drop_last(), now);
            if self.is_ripe(self.pending@[keys.last()], now) {
                rest.push(keys.last())
            } else {
                rest
            }
        }
    }

    proof fn lemma_ripe_among(self, keys: Seq<Seq<char>>, now: Duration, key: Seq<char>)
        ensures
            self.ripe_among(keys, now).contains(key) <==> keys.contains(key) && self.is_ripe(
                self.pending@[key],
                now,
            ),
        decreases keys.len(),
    {
        if keys.len() > 0 {
            let front = keys.drop_last();
            self.lemma_ripe_among(front, now, key);
            lemma_push_contains(front, keys.last(), key);
            lemma_push_contains(self.ripe_among(front, now), keys.last(), key);
            assert(keys =~= front.push(keys.last()));
        }
    }

    /// Takes out the changes that have waited long enough. Gives back the repos
    /// to scan again, each with the reason.
    pub fn fire(&mut self, now: Duration) -> (r: Vec<(String, String)>)
        ensures
            final(self).debounce == old(self).debounce,
            final(self).watched == old(self).watched,
            r@.len() == old(self).ripe_among(old(self).pending.keys(), now).len(),
            forall|i: int|
                0 <= i < r@.len() ==> (#[trigger] r@[i]).0@ == old(self).ripe_among(
                    old(self).pending.keys(),
                    now,
                )[i] && r@[i].1@ == old(self).pending@[r@[i].0@].reason@,
            forall|k: Seq<char>| #[trigger]
                final(self).pending@.contains_key(k) <==> old(self).pending@.contains_key(k)
                    && !old(self).is_ripe(old(self).pending@[k], now),
            forall|k: Seq<char>| #[trigger]
                final(self).pending@.contains_key(k) ==> final(self).pending@[k]
                    == old(self).pending@[k],
    {
        let n = self.pending.len();
        let ghost start = *self;
        let ghost keys = self.pending.keys();
        let mut fired: Vec<(String, String)> = Vec::new();
        let mut i: usize = 0;
        while i < n
            invariant
                n == keys.len(),
                start == *self,
                keys == self.pending.keys(),
                i <= n,
                fired@.len() == start.ripe_among(keys.take(i as int), now).len(),
                forall|k: int|
                    0 <= k < fired@.len() ==> (#[trigger] fired@[k]).0@ == start.ripe_among(
                        keys.take(i as int),
                        now,
                    )[k] && fired@[k].1@ == start.pending@[fired@[k].0@].reason@,
            decreases n - i,
        {
            let ghost t = keys.take(i + 1);
            assert(t.drop_last() =~= keys.take(i as int));
            assert(t.last() == keys[i as int]);
            let change = self.pending.value_at(i);
            if now.saturating_sub(change.last_event).at_least(self.debounce) {
                let id = String::from_str(self.pending.key_at(i));
                fired.push((id, String::from_str(change.reason.as_str())));
            }
            i = i + 1;
        }
        assert(keys.take(i as int) =~= keys);
        let ghost ripe = start.ripe_among(keys, now);
        let mut j: usize = 0;
        while j < fired.len()
            invariant
                j <= fired@.len(),
                fired@.len() == ripe.len(),
                forall|k: int| 0 <= k < fired@.len() ==> (#[trigger] fired@[k]).0@ == ripe[k],
                self.debounce == start.debounce,
                self.watched == start.watched,
                forall|k: Seq<char>| #[trigger]
                    self.pending@.contains_key(k) <==> start.pending@.contains_key(k)
                        && !ripe.take(j as int).contains(k),
                forall|k: Seq<char>| #[trigger]
                    self.pending@.contains_key(k) ==> self.pending@[k] == start.pending@[k],
            decreases fired.len() - j,
        {
            let ghost before = self.pending@;
            let _gone = self.pending.remove(fired[j].0.as_str());
            proof {
                assert(ripe.take(j + 1) =~= ripe.take(j as int).push(ripe[j as int]));
                assert forall|k: Seq<char>| #[trigger]
                    self.pending@.contains_key(k) <==> start.pending@.contains_key(k)
                        && !ripe.take(j + 1).contains(k) by {
                    lemma_push_contains(ripe.take(j as int), ripe[j as int], k);
                    assert(before.contains_key(k) <==> start.pending@.contains_key(k)
                        && !ripe.take(j as int).contains(k));
                }
                assert forall|k: Seq<char>| #[trigger]
                    self.pending@.contains_key(k) implies self.pending@[k] == start.pending@[k] by {
                    assert(before.contains_key(k));
                }
            }
            j = j + 1;
        }
        proof {
            assert(ripe.take(j as int) =~= ripe);
            assert forall|k: Seq<char>| #[trigger]
                self.pending@.contains_key(k) <==> start.pending@.contains_key(k) && !start.is_ripe(
                    start.pending@[k],
                    now,
                ) by {
                start.lemma_ripe_among(keys, now, k);
                assert(start.pending@.contains_key(k) <==> keys.contains(k));
            }
        }
        fired
    }

    /// Whether `add` is to be watched from now on, and `gone` no more.
    pub open spec fn is_plan(
        self,
        add: Seq<Seq<char>>,
        gone: Seq<Seq<char>>,
        repos: Map<Seq<char>, TrackedRepo>,
    ) -> bool {
        &&& forall|k: Seq<char>| #[trigger]
            add.contains(k) <==> repos.contains_key(k) && !self.watched@.contains_key(k) && k
                != "__shutdown__"@
        &&& forall|k: Seq<char>| #[trigger]
            gone.contains(k) <==> self.watched@.contains_key(k) && !repos.contains_key(k)
        &&& add.no_duplicates()
        &&& gone.no_duplicates()
    }

    /// The repos that are to be watched and are not yet, and those that are
    /// watched and are tracked no more.
    pub fn plan_watches(&self, repos: &Table<TrackedRepo>) -> (r: (Vec<String>, Vec<String>))
        ensures
            self.is_plan(views(r.0@), views(r.1@), repos@),
            forall|k: Seq<char>| #[trigger]
                views(r.0@).contains(k) <==> repos@.contains_key(k)
                    && !self.watched@.contains_key(k) && k != "__shutdown__"@,
            forall|k: Seq<char>| #[trigger]
                views(r.1@).contains(k) <==> self.watched@.contains_key(k)
                    && !repos@.contains_key(k),
            views(r.0@).no_duplicates(),
            views(r.1@).no_duplicates(),
    {
        let mut add: Vec<String> = Vec::new();
        let n = repos.len();
        let mut i: usize = 0;
        assert(views(add@) =~= Seq::<Seq<char>>::empty());
        while i < n
            invariant
                n == repos.keys().len(),
                i <= n,
                repos.keys().no_duplicates(),
                views(add@).no_duplicates(),
                forall|k: Seq<char>| #[trigger]
                    views(add@).contains(k) <==> repos.keys().take(i as int).contains(k)
                        && !self.watched@.contains_key(k) && k != "__shutdown__"@,
            decreases n - i,
        {
            let id = repos.key_at(i);
            let ghost was = views(add@);
            if !text_eq(id, "__shutdown__") && !self.watched.contains_key(id) {
                assert(!repos.keys().take(i as int).contains(id@));
                assert(!was.contains(id@));
                add.push(String::from_str(id));
                assert(views(add@) =~= was.push(id@));
            }
            proof {
                let t = repos.keys().take(i as int);
                assert(repos.keys().take(i + 1) =~= t.push(id@));
                assert forall|k: Seq<char>| #[trigger]
                    views(add@).contains(k) <==> repos.keys().take(i + 1).contains(k)
                        && !self.watched@.contains_key(k) && k != "__shutdown__"@ by {
                    lemma_push_contains(t, id@, k);
                    lemma_push_contains(was, id@, k);
                    assert(was.contains(k) <==> t.contains(k) && !self.watched@.contains_key(k) && k
                        != "__shutdown__"@);
                }
            }
            i = i + 1;
        }
        assert(repos.keys().take(i as int) =~= repos.keys());
        let mut gone: Vec<String> = Vec::new();
        let m = self.watched.len();
        let mut j: usize = 0;
        assert(views(gone@) =~= Seq::<Seq<char>>::empty());
        while j < m
            invariant
                m == self.watched.keys().len(),
                j <= m,
                self.watched.keys().no_duplicates(),
                views(gone@).no_duplicates(),
                forall|k: Seq<char>| #[trigger]
                    views(gone@).contains(k) <==> self.watched.keys().take(j as int).contains(k)
                        && !repos@.contains_key(k),
            decreases m - j,
        {
            let id = self.watched.key_at(j);
            let ghost was = views(gone@);
            if !repos.contains_key(id) {
                assert(!self.watched.keys().take(j as int).contains(id@));
                assert(!was.contains(id@));
                gone.push(String::from_str(id));
                assert(views(gone@) =~= was.push(id@));
            }
            proof {
                let t = self.watched.keys().take(j as int);
                assert(self.watched.keys().take(j + 1) =~= t.push(id@));
                assert forall|k: Seq<char>| #[trigger]
                    views(gone@).contains(k) <==> self.watched.keys().take(j + 1).contains(k)
                        && !repos@.contains_key(k) by {
                    lemma_push_contains(t, id@, k);
                    lemma_push_contains(was, id@, k);
                    assert(was.contains(k) <==> t.contains(k) && !repos@.contains_key(k));
                }
            }
            j = j + 1;
        }
        assert(self.watched.keys().take(j as int) =~= self.watched.keys());
        (add, gone)
    }
}

impl TrackedRepo {
    /// Marks the repo for a scan at the next occasion.
    pub fn rescan(&mut self, reason: String)
        ensures
            *final(self) == (TrackedRepo {
                last_sync: None,
                sync_reason: Some(reason),
                ..*old(self)
            }),
    {
        self.last_sync = None;
        self.sync_reason = Some(reason);
    }
}

/// A change does not fire before its interval is over, and each further change
/// of the repo begins a new one.
pub proof fn law_changes_are_debounced(state: WatchState, change: PendingChange, now: Duration)
    requires
        state.debounce@ > 0,
    ensures
        state.is_ripe(change, now) <==> now@ >= change.last_event@ + state.debounce@,
        change.last_event == now ==> !state.is_ripe(change, now),
{
}

/// What stands behind the first place where a path goes below the refs.
proof fn lemma_place_behind(front: Seq<Seq<char>>, name: Seq<char>, rest: Seq<Seq<char>>)
    requires
        !front.contains("refs"@),
    ensures
        place_of(front + seq!["refs"@, name] + rest, name) == front.len(),
        is_under(front + seq!["refs"@, name] + rest, name),
        (front + seq!["refs"@, name] + rest).skip(front.len() as int + 2) == rest,
    decreases front.len(),
{
    let all = front + seq!["refs"@, name] + rest;
    assert(all[front.len() as int] == "refs"@ && all[front.len() as int + 1] == name);
    assert(all.skip(front.len() as int + 2) =~= rest);
    if front.len() > 0 {
        let less = front.drop_first();
        assert(front.contains(front[0]));
        assert forall|x: Seq<char>| less.contains(x) implies front.contains(x) by {
            let i = choose|i: int| 0 <= i < less.len() && less[i] == x;
            assert(front[i + 1] == x);
        }
        lemma_place_behind(less, name, rest);
        assert(all.drop_first() =~= less + seq!["refs"@, name] + rest);
        assert(all[0] == front[0]);
    }
}

/// A change of a branch, or of a remote's branch, is told with the name of the branch:
/// what stands in the path behind the first place of the refs.
pub proof fn law_changes_name_the_branch(
    front: Seq<Seq<char>>,
    rest: Seq<Seq<char>>,
    display: Seq<char>,
)
    requires
        !front.contains("refs"@),
        !rest.contains("refs"@),
        join(rest, "/"@).len() > 0,
    ensures
        change_text(front + seq!["refs"@, "heads"@] + rest, display) == "ref update ("@ + join(
            rest,
            "/"@,
        ) + ")"@,
        change_text(front + seq!["refs"@, "remotes"@] + rest, display) == "remote ref ("@ + join(
            rest,
            "/"@,
        ) + ")"@,
        names_remote_ref(front + seq!["refs"@, "remotes"@] + rest),
        !names_remote_ref(front + seq!["refs"@, "heads"@] + rest),
{
    reveal_strlit("heads");
    reveal_strlit("remotes");
    reveal_strlit("refs");
    assert("heads"@.len() == 5 && "remotes"@.len() == 7 && "refs"@.len() == 4);
    lemma_place_behind(front, "heads"@, rest);
    lemma_place_behind(front, "remotes"@, rest);
    let heads = front + seq!["refs"@, "heads"@] + rest;
    let remotes = front + seq!["refs"@, "remotes"@] + rest;
    let n = front.len() as int;
    assert forall|i: int| 0 <= i < heads.len() && i != n implies heads[i] != "refs"@ by {
        if i < n {
            assert(front.contains(front[i]));
        } else if i > n + 1 {
            assert(rest.contains(rest[i - n - 2]));
        }
    }
    assert forall|i: int| 0 <= i < remotes.len() && i != n implies remotes[i] != "refs"@ by {
        if i < n {
            assert(front.contains(front[i]));
        } else if i > n + 1 {
            assert(rest.contains(rest[i - n - 2]));
        }
    }
    assert(!is_under(remotes, "heads"@));
    assert(!is_under(heads, "remotes"@));
}

/// A change elsewhere is told as one of `HEAD`, if that is the file, or by its path.
pub proof fn law_other_changes_name_the_file(components: Seq<Seq<char>>, display: Seq<char>)
    requires
        !components.contains("refs"@),
    ensures
        components.len() > 0 && components.last() == "HEAD"@ ==> change_text(components, display)
            == "HEAD changed"@,
        components.len() == 0 || components.last() != "HEAD"@ ==> change_text(components, display)
            == "file changed ("@ + display + ")"@,
        !names_remote_ref(components),
{
    assert forall|i: int| 0 <= i < components.len() implies components[i] != "refs"@ by {
        assert(components.contains(components[i]));
    }
    assert(!is_under(components, "heads"@));
    assert(!is_under(components, "remotes"@));
}

/// A change belongs to the first repo that has one of its directories above it; and only
/// to one.
pub proof fn law_change_has_one_owner(
    watched: Table<Vec<Vec<String>>>,
    path: Seq<Seq<char>>,
    a: Option<Seq<char>>,
    b: Option<Seq<char>>,
    i: int,
    j: int,
)
    requires
        is_owner(watched, path, a),
        is_owner(watched, path, b),
    ensures
        a == b,
        a matches Some(id) ==> watched.keys().contains(id) && exists|k: int|
            0 <= k < watched@[id]@.len() && lies_in(path, views((#[trigger] watched@[id]@[k])@)),
        a is None && 0 <= i < watched.keys().len() && 0 <= j
            < watched@[watched.keys()[i]]@.len() ==> !lies_in(
            path,
            views(watched@[watched.keys()[i]]@[j]@),
        ),
{
    let keys = watched.keys();
    if let Some(x) = a {
        let n = choose|n: int|
            {
                &&& 0 <= n < keys.len()
                &&& #[trigger] keys[n] == x
                &&& is_covered(path, watched@[x]@)
                &&& forall|j: int|
                    0 <= j < n ==> !is_covered(path, watched@[#[trigger] keys[j]]@)
            };
        assert(keys.contains(keys[n]));
        assert(is_covered(path, watched@[keys[n]]@));
        if let Some(y) = b {
            let m = choose|m: int|
                {
                    &&& 0 <= m < keys.len()
                    &&& #[trigger] keys[m] == y
                    &&& is_covered(path, watched@[y]@)
                    &&& forall|j: int|
                        0 <= j < m ==> !is_covered(path, watched@[#[trigger] keys[j]]@)
                };
            assert(is_covered(path, watched@[keys[m]]@));
            if n < m {
                assert(!is_covered(path, watched@[keys[n]]@));
            } else if m < n {
                assert(!is_covered(path, watched@[keys[m]]@));
            }
        }
    } else {
        if let Some(y) = b {
            let m = choose|m: int|
                {
                    &&& 0 <= m < keys.len()
                    &&& #[trigger] keys[m] == y
                    &&& is_covered(path, watched@[y]@)
                    &&& forall|j: int|
                        0 <= j < m ==> !is_covered(path, watched@[#[trigger] keys[j]]@)
                };
            assert(is_covered(path, watched@[keys[m]]@));
        }
        if 0 <= i < keys.len() && 0 <= j < watched@[keys[i]]@.len() {
            assert(!is_covered(path, watched@[keys[i]]@));
        }
    }
}

/// A path lies in a directory if it begins with the components of the directory.
pub proof fn law_directory_holds_what_is_below(
    base: Seq<Seq<char>>,
    rest: Seq<Seq<char>>,
    path: Seq<Seq<char>>,
)
    ensures
        lies_in(base + rest, base),
        lies_in(path, base) <==> exists|tail: Seq<Seq<char>>| path == #[trigger] (base + tail),
{
    assert((base + rest).take(base.len() as int) =~= base);
    if lies_in(path, base) {
        assert(path =~= base + path.skip(base.len() as int));
    }
    if exists|tail: Seq<Seq<char>>| path == #[trigger] (base + tail) {
        let tail = choose|tail: Seq<Seq<char>>| path == #[trigger] (base + tail);
        assert((base + tail).take(base.len() as int) =~= base);
    }
}

/// A change is noted unless it is that of a lock file, belongs to no repo, or moves a
/// remote's branch within five debounce intervals of a sync of that repo, or before its
/// first one, for it is then the daemon's own.
pub proof fn law_own_changes_are_passed_over(
    state: WatchState,
    path: ChangedPath,
    id: Seq<char>,
    repos: Map<Seq<char>, TrackedRepo>,
    now: Duration,
)
    ensures
        !state.reacts_to(path, None, repos, now),
        (path.extension matches Some(e) && e@ == "lock"@) ==> !state.reacts_to(
            path,
            Some(id),
            repos,
            now,
        ),
        !(path.extension matches Some(e) && e@ == "lock"@) ==> {
            let remote = names_remote_ref(views(path.components@));
            let reacts = state.reacts_to(path, Some(id), repos, now);
            &&& !remote || !repos.contains_key(id) ==> reacts
            &&& remote && repos.contains_key(id) && repos[id].last_sync is None ==> !reacts
            &&& remote && repos.contains_key(id) ==> (repos[id].last_sync matches Some(t) ==> (
            reacts <==> state.debounce@ == 0 || now@ >= t@ + 5 * state.debounce@))
        },
{
}

/// What is fired are the changes that have been quiet for the debounce interval, in the
/// order in which their repos came up.
pub proof fn law_quiet_changes_are_fired(
    state: WatchState,
    keys: Seq<Seq<char>>,
    key: Seq<char>,
    now: Duration,
)
    ensures
        state.ripe_among(Seq::empty(), now).len() == 0,
        state.debounce@ == 0 || now@ >= state.pending@[key].last_event@ + state.debounce@
            ==> state.ripe_among(keys.push(key), now) == state.ripe_among(keys, now) + seq![key],
        state.debounce@ > 0 && now@ < state.pending@[key].last_event@ + state.debounce@
            ==> state.ripe_among(keys.push(key), now) == state.ripe_among(keys, now),
{
    assert(keys.push(key).drop_last() =~= keys);
    assert(state.ripe_among(keys, now).push(key) =~= state.ripe_among(keys, now) + seq![key]);
}

/// A repo has to be quiet for as long as was configured, or else for a second.
pub proof fn law_quiet_lasts_a_second(global: GlobalSettings)
    ensures
        global.watcher_debounce matches Some(d) ==> debounce_nanos(global) == d@,
        global.watcher_debounce is None ==> debounce_nanos(global) == 1_000_000_000,
{
}

/// A change that is noted makes its repo wait anew from now on, with the reason; the
/// other repos wait as before. After the wait the repo is fired.
pub proof fn law_noted_change_starts_the_wait(
    state: WatchState,
    was: WatchState,
    path: ChangedPath,
    owner: Option<Seq<char>>,
    repos: Map<Seq<char>, TrackedRepo>,
    now: Duration,
    later: Duration,
    other: Seq<char>,
)
    requires
        state.has_noted(was, path, owner, repos, now),
        state.debounce == was.debounce,
    ensures
        was.reacts_to(path, owner, repos, now) ==> (owner matches Some(id)
            && state.pending@.contains_key(id) && state.pending@[id].last_event == now
            && state.pending@[id].reason@ == change_text(views(path.components@), path.display@)
            && (state.debounce@ > 0 ==> (state.is_ripe(state.pending@[id], later) <==> later@ >= now@
            + state.debounce@))),
        owner != Some(other) ==> state.pending@.contains_key(other) == was.pending@.contains_key(
            other,
        ),
        owner != Some(other) && was.pending@.contains_key(other) ==> state.pending@[other]
            == was.pending@[other],
        !was.reacts_to(path, owner, repos, now) ==> state.pending == was.pending,
{
}

/// Every tracked repo is watched after a plan was carried out, and no other; what was
/// right before is not touched.
pub proof fn law_plan_watches_what_is_tracked(
    state: WatchState,
    add: Seq<Seq<char>>,
    gone: Seq<Seq<char>>,
    repos: Map<Seq<char>, TrackedRepo>,
    k: Seq<char>,
)
    requires
        state.is_plan(add, gone, repos),
        k != "__shutdown__"@,
    ensures
        (state.watched@.contains_key(k) && !gone.contains(k)) || add.contains(k)
            <==> repos.contains_key(k),
        !(add.contains(k) && gone.contains(k)),
        add.contains(k) ==> !state.watched@.contains_key(k),
        gone.contains(k) ==> state.watched@.contains_key(k),
{
}

} // verus!
