//! Daemon state and decisions.
//!
//! The daemon keeps local branches in sync with their tracking remotes. All
//! runtime state lives in memory, in one [`TrackedRepo`] per repo. A point in
//! time is a [`Duration`] on the daemon's clock.

use vstd::prelude::*;
use vstd::arithmetic::power2::{lemma_pow2_strictly_increases, lemma_pow2_unfold, pow2};

use crate::clock::{Duration, MAX_NANOS, NANOS_PER_SEC};
use crate::config::{InRepoConfig, UserConfig};
use crate::git_ops::{is_operation_in_progress, is_operation_marker, MergeAnalysis};
use crate::sync;
use crate::table::Table;
use crate::text::{
    has_prefix, replace_char, replaced, strip_prefix, trim_end_chars, view_opt, without_end,
};

verus! {

// ---------------------------------------------------------------------------
// Constants
// ---------------------------------------------------------------------------

/// Default timeout for git CLI commands (seconds).
pub const GIT_TIMEOUT_SECS: u64 = 30;

/// Initial backoff duration for fetch/push failures.
pub const INITIAL_BACKOFF_SECS: u64 = 30;

/// Maximum backoff duration (1 hour).
pub const MAX_BACKOFF_SECS: u64 = 3600;

/// Timeout for the resolve agent (seconds).
pub const RESOLVE_TIMEOUT_SECS: u64 = 180;

// ---------------------------------------------------------------------------
// Backoff
// ---------------------------------------------------------------------------

/// The backoff in seconds after `n` failures in a row: it doubles with each
/// failure, up to the maximum.
pub open spec fn backoff_secs(n: nat) -> nat {
    let secs = INITIAL_BACKOFF_SECS as nat * pow2((n - 1) as nat);
    if secs < MAX_BACKOFF_SECS {
        secs
    } else {
        MAX_BACKOFF_SECS as nat
    }
}

/// Each further failure doubles the backoff, up to the maximum.
pub proof fn law_backoff_doubles(n: nat)
    requires
        n >= 1,
    ensures
        backoff_secs(1) == INITIAL_BACKOFF_SECS,
        backoff_secs(1) == 30,
        backoff_secs(n) <= 3600,
        2 * backoff_secs(n) <= 3600 ==> backoff_secs(n + 1) == 2 * backoff_secs(n),
        2 * backoff_secs(n) > 3600 ==> backoff_secs(n + 1) == 3600,
        backoff_secs(n + 1) == (if 2 * backoff_secs(n) < MAX_BACKOFF_SECS {
            2 * backoff_secs(n)
        } else {
            MAX_BACKOFF_SECS as nat
        }),
{
    vstd::arithmetic::power2::lemma2_to64();
    lemma_pow2_unfold(n);
}

/// The backoff is never shorter than the initial one, never longer than the
/// maximum, and never shrinks from one failure to the next.
pub proof fn law_backoff_is_bounded(n: nat, m: nat)
    requires
        1 <= n <= m,
    ensures
        INITIAL_BACKOFF_SECS <= backoff_secs(n) <= backoff_secs(m) <= MAX_BACKOFF_SECS,
{
    vstd::arithmetic::power2::lemma_pow2_pos((n - 1) as nat);
    if n < m {
        lemma_pow2_strictly_increases((n - 1) as nat, (m - 1) as nat);
    }
}

/// The backoff in seconds after `n` failures in a row.
fn backoff_after(n: u32) -> (r: u64)
    requires
        n >= 1,
    ensures
        r == backoff_secs(n as nat),
{
    proof {
        law_backoff_doubles(1);
    }
    let mut secs: u64 = INITIAL_BACKOFF_SECS;
    let mut i: u32 = 1;
    while i < n && secs < MAX_BACKOFF_SECS
        invariant
            1 <= i <= n,
            secs == backoff_secs(i as nat),
            secs <= MAX_BACKOFF_SECS,
        decreases n - i,
    {
        proof {
            law_backoff_doubles(i as nat);
        }
        secs = if 2 * secs < MAX_BACKOFF_SECS {
            2 * secs
        } else {
            MAX_BACKOFF_SECS
        };
        i = i + 1;
    }
    proof {
        law_backoff_is_bounded(i as nat, n as nat);
    }
    secs
}

/// Whether the clock can show the end of a backoff that begins at `now`.
pub open spec fn clock_reaches(now: Duration) -> bool {
    now@ + MAX_BACKOFF_SECS * NANOS_PER_SEC <= MAX_NANOS
}

/// The end of a backoff of `secs` seconds that begins at `now`.
fn end_of(now: Duration, secs: u64) -> (r: Duration)
    requires
        clock_reaches(now),
        secs <= MAX_BACKOFF_SECS,
    ensures
        r@ == now@ + secs * NANOS_PER_SEC,
{
    let span = Duration::from_secs(secs);
    assert(secs * NANOS_PER_SEC <= MAX_BACKOFF_SECS * NANOS_PER_SEC);
    match now.checked_add(span) {
        Some(end) => end,
        None => now,
    }
}

/// Backoff state for a repo's network operations.
#[derive(Debug)]
pub struct BackoffState {
    /// Per-remote fetch backoff (covers auth/network failures).
    pub fetch_backoff_until: Option<Duration>,
    pub fetch_consecutive_failures: u32,
    /// Per-ref push backoff (covers push rejections): its end and the number of
    /// failures in a row.
    pub per_ref_backoff: Table<(Duration, u32)>,
}

impl BackoffState {
    /// Whether fetches are held back at `now`.
    pub open spec fn fetch_blocked(self, now: Duration) -> bool {
        self.fetch_backoff_until matches Some(until) && now@ < until@
    }

    /// Whether pushes of a ref are held back at `now`.
    pub open spec fn push_blocked(self, ref_name: Seq<char>, now: Duration) -> bool {
        self.per_ref_backoff@.contains_key(ref_name) && now@ < self.per_ref_backoff@[ref_name].0@
    }

    /// The pushes of a ref that failed in a row.
    pub open spec fn push_failures(self, ref_name: Seq<char>) -> u32 {
        if self.per_ref_backoff@.contains_key(ref_name) {
            self.per_ref_backoff@[ref_name].1
        } else {
            0
        }
    }

    /// Nothing is held back and nothing has failed.
    pub open spec fn is_clear(self) -> bool {
        &&& self.fetch_backoff_until is None
        &&& self.fetch_consecutive_failures == 0
        &&& self.per_ref_backoff@ == Map::<Seq<char>, (Duration, u32)>::empty()
    }

    /// What a failed fetch at `now` makes of the state `was`.
    pub open spec fn after_fetch_failure(self, was: BackoffState, now: Duration) -> bool {
        &&& self.fetch_consecutive_failures == was.fetch_consecutive_failures + 1
        &&& self.fetch_backoff_until matches Some(until) && until@ == now@ + backoff_secs(
            self.fetch_consecutive_failures as nat,
        ) * NANOS_PER_SEC
        &&& self.per_ref_backoff == was.per_ref_backoff
    }

    /// What a successful fetch makes of the state `was`.
    pub open spec fn after_fetch_success(self, was: BackoffState) -> bool {
        &&& self.fetch_consecutive_failures == 0
        &&& self.fetch_backoff_until is None
        &&& self.per_ref_backoff == was.per_ref_backoff
    }

    /// What a failed push of a ref at `now` makes of the state `was`.
    pub open spec fn after_push_failure(
        self,
        was: BackoffState,
        ref_name: Seq<char>,
        now: Duration,
    ) -> bool {
        &&& self.fetch_consecutive_failures == was.fetch_consecutive_failures
        &&& self.fetch_backoff_until == was.fetch_backoff_until
        &&& self.push_failures(ref_name) == was.push_failures(ref_name) + 1
        &&& self.per_ref_backoff@.contains_key(ref_name)
        &&& self.per_ref_backoff@[ref_name].0@ == now@ + backoff_secs(
            self.push_failures(ref_name) as nat,
        ) * NANOS_PER_SEC
        &&& self.per_ref_backoff@ == was.per_ref_backoff@.insert(
            ref_name,
            self.per_ref_backoff@[ref_name],
        )
    }

    /// What a successful push of a ref makes of the state `was`.
    pub open spec fn after_push_success(self, was: BackoffState, ref_name: Seq<char>) -> bool {
        &&& self.fetch_consecutive_failures == was.fetch_consecutive_failures
        &&& self.fetch_backoff_until == was.fetch_backoff_until
        &&& self.per_ref_backoff@ == was.per_ref_backoff@.remove(ref_name)
    }

    /// Nothing held back.
    pub fn new() -> (r: BackoffState)
        ensures
            r.is_clear(),
    {
        BackoffState {
            fetch_backoff_until: None,
            fetch_consecutive_failures: 0,
            per_ref_backoff: Table::new(),
        }
    }

    /// Whether fetches are held back at `now`.
    pub fn should_skip_fetch(&self, now: Duration) -> (r: bool)
        ensures
            r == self.fetch_blocked(now),
    {
        match self.fetch_backoff_until {
            Some(until) => !now.at_least(until),
            None => false,
        }
    }

    /// Records a failed fetch, or a push that failed on credentials or network.
    pub fn record_fetch_failure(&mut self, now: Duration)
        requires
            old(self).fetch_consecutive_failures < u32::MAX,
            clock_reaches(now),
        ensures
            final(self).after_fetch_failure(*old(self), now),
    {
        self.fetch_consecutive_failures = self.fetch_consecutive_failures + 1;
        proof {
            law_backoff_is_bounded(
                self.fetch_consecutive_failures as nat,
                self.fetch_consecutive_failures as nat,
            );
        }
        let secs = backoff_after(self.fetch_consecutive_failures);
        self.fetch_backoff_until = Some(end_of(now, secs));
    }

    /// Records a successful fetch.
    pub fn reset_fetch_backoff(&mut self)
        ensures
            final(self).after_fetch_success(*old(self)),
    {
        self.fetch_backoff_until = None;
        self.fetch_consecutive_failures = 0;
    }

    /// Whether pushes of a ref are held back at `now`.
    pub fn should_skip_push(&self, ref_name: &str, now: Duration) -> (r: bool)
        ensures
            r == self.push_blocked(ref_name@, now),
    {
        match self.per_ref_backoff.get(ref_name) {
            Some(entry) => !now.at_least(entry.0),
            None => false,
        }
    }

    /// Records a failed push of a ref.
    pub fn record_push_failure(&mut self, ref_name: &str, now: Duration)
        requires
            old(self).push_failures(ref_name@) < u32::MAX,
            clock_reaches(now),
        ensures
            final(self).after_push_failure(*old(self), ref_name@, now),
    {
        let before: u32 = match self.per_ref_backoff.get(ref_name) {
            Some(entry) => entry.1,
            None => 0,
        };
        let count: u32 = before + 1;
        proof {
            law_backoff_is_bounded(count as nat, count as nat);
        }
        let until = end_of(now, backoff_after(count));
        self.per_ref_backoff.insert(String::from_str(ref_name), (until, count));
    }

    /// Records a successful push of a ref.
    pub fn reset_push_backoff(&mut self, ref_name: &str)
        ensures
            final(self).after_push_success(*old(self), ref_name@),
    {
        let _gone = self.per_ref_backoff.remove(ref_name);
    }
}

/// After a failed fetch, fetches are held back for the backoff and no longer, and
/// pushes as before.
pub proof fn law_failed_fetch_blocks(
    was: BackoffState,
    state: BackoffState,
    now: Duration,
    later: Duration,
    ref_name: Seq<char>,
)
    requires
        state.after_fetch_failure(was, now),
    ensures
        state.fetch_consecutive_failures == was.fetch_consecutive_failures + 1,
        state.per_ref_backoff@ == was.per_ref_backoff@,
        state.push_blocked(ref_name, later) == was.push_blocked(ref_name, later),
        state.fetch_blocked(later) <==> later@ < now@ + backoff_secs(
            (was.fetch_consecutive_failures + 1) as nat,
        ) * NANOS_PER_SEC,
{
}

/// After a failed push of a ref, pushes of that ref are held back for the
/// backoff and no longer, and those of other refs as before.
pub proof fn law_failed_push_blocks(
    was: BackoffState,
    state: BackoffState,
    ref_name: Seq<char>,
    other: Seq<char>,
    now: Duration,
    later: Duration,
)
    requires
        state.after_push_failure(was, ref_name, now),
    ensures
        state.push_blocked(ref_name, later) <==> later@ < now@ + backoff_secs(
            (was.push_failures(ref_name) + 1) as nat,
        ) * NANOS_PER_SEC,
        other != ref_name ==> state.push_blocked(other, later) == was.push_blocked(other, later),
        other != ref_name ==> state.push_failures(other) == was.push_failures(other),
        state.push_failures(ref_name) == was.push_failures(ref_name) + 1,
        state.fetch_blocked(later) == was.fetch_blocked(later),
        state.fetch_consecutive_failures == was.fetch_consecutive_failures,
{
}

/// After a success nothing is held back, and the next failure counts as the first. A
/// fetch clears no pushes, and a push clears no fetches and no other pushes.
pub proof fn law_success_clears(
    was: BackoffState,
    fetched: BackoffState,
    pushed: BackoffState,
    ref_name: Seq<char>,
    other: Seq<char>,
    later: Duration,
)
    requires
        fetched.after_fetch_success(was),
        pushed.after_push_success(was, ref_name),
    ensures
        !fetched.fetch_blocked(later),
        fetched.fetch_consecutive_failures == 0,
        !pushed.push_blocked(ref_name, later),
        pushed.push_failures(ref_name) == 0,
        fetched.push_blocked(other, later) == was.push_blocked(other, later),
        fetched.push_failures(other) == was.push_failures(other),
        pushed.fetch_blocked(later) == was.fetch_blocked(later),
        pushed.fetch_consecutive_failures == was.fetch_consecutive_failures,
        other != ref_name ==> {
            &&& pushed.push_blocked(other, later) == was.push_blocked(other, later)
            &&& pushed.push_failures(other) == was.push_failures(other)
        },
{
}

/// A hold ends at the time that is kept for it, and where none is kept there is none.
pub proof fn law_hold_ends_in_time(state: BackoffState, ref_name: Seq<char>, now: Duration)
    ensures
        state.fetch_backoff_until is None ==> !state.fetch_blocked(now),
        state.fetch_backoff_until matches Some(until) ==> (state.fetch_blocked(now) <==> now@
            < until@),
        !state.per_ref_backoff@.contains_key(ref_name) ==> !state.push_blocked(ref_name, now)
            && state.push_failures(ref_name) == 0,
        state.per_ref_backoff@.contains_key(ref_name) ==> {
            &&& state.push_blocked(ref_name, now) <==> now@ < state.per_ref_backoff@[ref_name].0@
            &&& state.push_failures(ref_name) == state.per_ref_backoff@[ref_name].1
        },
{
}

// ---------------------------------------------------------------------------
// Tracked repos
// ---------------------------------------------------------------------------

/// Runtime state for a single branch, kept in memory only.
#[derive(Debug, Clone, PartialEq)]
pub struct BranchRuntimeState {
    pub sync_status: String,
    pub last_pull_at: Option<String>,
    pub last_push_at: Option<String>,
    pub local_oid: Option<String>,
    pub remote_oid: Option<String>,
    pub error_message: Option<String>,
}

/// What a `BranchRuntimeState` says.
pub struct BranchRuntimeView {
    pub sync_status: Seq<char>,
    pub last_pull_at: Option<Seq<char>>,
    pub last_push_at: Option<Seq<char>>,
    pub local_oid: Option<Seq<char>>,
    pub remote_oid: Option<Seq<char>>,
    pub error_message: Option<Seq<char>>,
}

impl View for BranchRuntimeState {
    type V = BranchRuntimeView;

    open spec fn view(&self) -> BranchRuntimeView {
        BranchRuntimeView {
            sync_status: self.sync_status@,
            last_pull_at: view_opt(self.last_pull_at),
            last_push_at: view_opt(self.last_push_at),
            local_oid: view_opt(self.local_oid),
            remote_oid: view_opt(self.remote_oid),
            error_message: view_opt(self.error_message),
        }
    }
}

/// In-memory tracking info for a single repo.
#[derive(Debug)]
pub struct TrackedRepo {
    pub repo_id: String,
    pub display_path: String,
    /// Map of remote_name -> URL for all git remotes.
    pub remote_urls: Table<String>,
    pub last_sync: Option<Duration>,
    pub last_sync_wall: Option<String>,
    pub sync_reason: Option<String>,
    pub in_sync: bool,
    pub backoff: BackoffState,
    pub branches: Table<BranchRuntimeState>,
    pub notification_cooldowns: Table<Duration>,
}

impl TrackedRepo {
    /// A repo that was just put under watch.
    pub open spec fn is_new(
        self,
        repo_id: Seq<char>,
        display_path: Seq<char>,
        remote_urls: Table<String>,
    ) -> bool {
        &&& self.repo_id@ == repo_id
        &&& self.display_path@ == display_path
        &&& self.remote_urls == remote_urls
        &&& self.last_sync is None
        &&& self.last_sync_wall is None
        &&& self.sync_reason is None
        &&& !self.in_sync
        &&& self.backoff.is_clear()
        &&& self.branches@ == Map::<Seq<char>, BranchRuntimeState>::empty()
        &&& self.notification_cooldowns@ == Map::<Seq<char>, Duration>::empty()
    }

    /// A repo that was just put under watch.
    pub fn new(repo_id: String, display_path: String, remote_urls: Table<String>) -> (r: Self)
        ensures
            r.is_new(repo_id@, display_path@, remote_urls),
    {
        TrackedRepo {
            repo_id,
            display_path,
            remote_urls,
            last_sync: None,
            last_sync_wall: None,
            sync_reason: None,
            in_sync: false,
            backoff: BackoffState::new(),
            branches: Table::new(),
            notification_cooldowns: Table::new(),
        }
    }

    /// The URL of the remote that stands for the repo.
    pub open spec fn primary_url(self) -> Seq<char> {
        if self.remote_urls@.contains_key("origin"@) {
            self.remote_urls@["origin"@]@
        } else if self.remote_urls.keys().len() > 0 {
            self.remote_urls@[self.remote_urls.keys()[0]]@
        } else {
            ""@
        }
    }

    /// Get the URL for the "origin" remote, or the first available remote URL.
    pub fn primary_remote_url(&self) -> (r: &str)
        ensures
            r@ == self.primary_url(),
            r@ == (if self.remote_urls@.contains_key("origin"@) {
                self.remote_urls@["origin"@]@
            } else if self.remote_urls.keys().len() > 0 {
                self.remote_urls@[self.remote_urls.keys()[0]]@
            } else {
                ""@
            }),
    {
        match self.remote_urls.get("origin") {
            Some(url) => url.as_str(),
            None => {
                if self.remote_urls.len() > 0 {
                    self.remote_urls.value_at(0).as_str()
                } else {
                    ""
                }
            },
        }
    }

    /// Records the state of a branch.
    pub fn set_branch(&mut self, name: &str, state: BranchRuntimeState)
        ensures
            final(self).branches@ == old(self).branches@.insert(name@, state),
            *final(self) == (TrackedRepo { branches: final(self).branches, ..*old(self) }),
    {
        self.branches.insert(String::from_str(name), state);
    }

    /// Whether a message may be shown at `now`.
    pub open spec fn may_notify(self, key: Seq<char>, cooldown: nat, now: nat) -> bool {
        ||| !self.notification_cooldowns@.contains_key(key)
        ||| cooldown == 0
        ||| now >= self.notification_cooldowns@[key]@ + cooldown
    }

    /// Whether a notification is due again.
    pub fn should_notify(&self, key: &str, cooldown: Duration, now: Duration) -> (r: bool)
        ensures
            r == self.may_notify(key@, cooldown@, now@),
            r == (!self.notification_cooldowns@.contains_key(key@) || cooldown@ == 0
                || now@ >= self.notification_cooldowns@[key@]@ + cooldown@),
    {
        match self.notification_cooldowns.get(key) {
            None => true,
            Some(last) => now.saturating_sub(*last).at_least(cooldown),
        }
    }

    /// Whether this is `was` after a message was shown at `now`.
    pub open spec fn has_notified(self, was: TrackedRepo, key: Seq<char>, now: Duration) -> bool {
        &&& self.notification_cooldowns@ == was.notification_cooldowns@.insert(key, now)
        &&& self == (TrackedRepo { notification_cooldowns: self.notification_cooldowns, ..was })
    }

    /// Records that a notification was given.
    pub fn record_notification(&mut self, key: &str, now: Duration)
        ensures
            final(self).has_notified(*old(self), key@, now),
            final(self).notification_cooldowns@ == old(self).notification_cooldowns@.insert(
                key@,
                now,
            ),
            *final(self) == (TrackedRepo {
                notification_cooldowns: final(self).notification_cooldowns,
                ..*old(self)
            }),
    {
        self.notification_cooldowns.insert(String::from_str(key), now);
    }
}

// ---------------------------------------------------------------------------
// When to sync
// ---------------------------------------------------------------------------

impl TrackedRepo {
    /// Whether the repo is due for a sync: none is running, the repo is not
    /// disabled, and either a sync was asked for, or there was none yet, or the
    /// last one is a refresh interval ago.
    pub open spec fn due(
        self,
        config: UserConfig,
        in_repo: Option<Duration>,
        now: Duration,
    ) -> bool {
        &&& !self.in_sync
        &&& !config.repo_disabled(self.repo_id@)
        &&& {
            ||| self.sync_reason is Some
            ||| self.last_sync is None
            ||| config.refresh_interval_of(self.repo_id@, in_repo)@ == 0
            ||| now@ >= self.last_sync->0@ + config.refresh_interval_of(self.repo_id@, in_repo)@
        }
    }

    /// Whether the repo is due for a sync.
    pub fn is_due(
        &self,
        config: &UserConfig,
        in_repo_config: Option<&InRepoConfig>,
        now: Duration,
    ) -> (r: bool)
        ensures
            r == self.due(
                *config,
                match in_repo_config {
                    Some(c) => c.refresh_interval,
                    None => None,
                },
                now,
            ),
    {
        if self.in_sync {
            return false;
        }
        if config.is_repo_disabled(self.repo_id.as_str()) {
            return false;
        }
        if self.sync_reason.is_some() {
            return true;
        }
        match self.last_sync {
            None => true,
            Some(last) => {
                let interval = config.effective_refresh_interval(
                    self.repo_id.as_str(),
                    in_repo_config,
                );
                now.saturating_sub(last).at_least(interval)
            },
        }
    }

    /// Whether this is `was` after a sync was begun, which is refused while one runs.
    pub open spec fn has_begun(self, was: TrackedRepo, r: bool) -> bool {
        r == !was.in_sync && self == (TrackedRepo { in_sync: true, ..was })
    }

    /// Claims the repo for a sync. Says no where one is running already.
    pub fn begin_sync(&mut self) -> (r: bool)
        ensures
            final(self).has_begun(*old(self), r),
            r == !old(self).in_sync,
            *final(self) == (TrackedRepo { in_sync: true, ..*old(self) }),
    {
        if self.in_sync {
            return false;
        }
        self.in_sync = true;
        true
    }

    /// Whether this is `was` after its sync was over.
    pub open spec fn has_ended(self, was: TrackedRepo) -> bool {
        self == (TrackedRepo { in_sync: false, ..was })
    }

    /// Gives the repo free again after a sync.
    pub fn end_sync(&mut self)
        ensures
            final(self).has_ended(*old(self)),
            *final(self) == (TrackedRepo { in_sync: false, ..*old(self) }),
    {
        self.in_sync = false;
    }

    /// Whether this is `was` after it was looked at whether a sync may run.
    pub open spec fn is_admitted(
        self,
        was: TrackedRepo,
        r: bool,
        present: bool,
        git_dir: Seq<String>,
        config: UserConfig,
        now: Duration,
    ) -> bool {
        &&& r == (present && !(exists|i: int|
            0 <= i < git_dir.len() && is_operation_marker(#[trigger] git_dir[i]@))
            && !config.repo_disabled(was.repo_id@))
        &&& self == (if r {
            was
        } else {
            TrackedRepo { last_sync: Some(now), ..was }
        })
    }

    /// Whether a sync may go on: the repo is there, no git operation is in
    /// progress and the repo is not disabled. Where it may not, the sync counts
    /// as done, so that the next one waits for its interval.
    pub fn admit_sync(
        &mut self,
        present: bool,
        git_dir: &Vec<String>,
        config: &UserConfig,
        now: Duration,
    ) -> (r: bool)
        ensures
            final(self).is_admitted(*old(self), r, present, git_dir@, *config, now),
            r == (present && !(exists|i: int|
                0 <= i < git_dir@.len() && is_operation_marker(#[trigger] git_dir@[i]@))
                && !config.repo_disabled(old(self).repo_id@)),
            *final(self) == (if r {
                *old(self)
            } else {
                TrackedRepo { last_sync: Some(now), ..*old(self) }
            }),
    {
        if !present || is_operation_in_progress(git_dir) || config.is_repo_disabled(
            self.repo_id.as_str(),
        ) {
            self.last_sync = Some(now);
            return false;
        }
        true
    }

    /// Takes over the remote URLs as git has them now.
    pub fn refresh_urls(&mut self, fresh: Table<String>)
        ensures
            *final(self) == (TrackedRepo { remote_urls: fresh, ..*old(self) }),
    {
        self.remote_urls = fresh;
    }

    /// Asks for a sync before the next interval is over.
    pub fn request_sync(&mut self, reason: String)
        ensures
            *final(self) == (TrackedRepo { sync_reason: Some(reason), ..*old(self) }),
    {
        self.sync_reason = Some(reason);
    }

    /// Whether this is `was` after a sync was done at `now`.
    pub open spec fn has_finished(
        self,
        was: TrackedRepo,
        r: Option<String>,
        now: Duration,
        now_wall: Seq<char>,
    ) -> bool {
        &&& r == was.sync_reason
        &&& view_opt(self.last_sync_wall) == Some(now_wall)
        &&& self == (TrackedRepo {
            last_sync: Some(now),
            last_sync_wall: self.last_sync_wall,
            sync_reason: None,
            ..was
        })
    }

    /// Records that a sync went through. Gives back what had asked for it.
    pub fn finish_sync(&mut self, now: Duration, now_wall: &str) -> (r: Option<String>)
        ensures
            final(self).has_finished(*old(self), r, now, now_wall@),
            r == old(self).sync_reason,
            view_opt(final(self).last_sync_wall) == Some(now_wall@),
            *final(self) == (TrackedRepo {
                last_sync: Some(now),
                last_sync_wall: final(self).last_sync_wall,
                sync_reason: None,
                ..*old(self)
            }),
    {
        let reason = self.sync_reason.take();
        self.last_sync = Some(now);
        self.last_sync_wall = Some(String::from_str(now_wall));
        reason
    }
}

/// A repo that was just synced is not due before its interval is over, unless
/// a sync is asked for; and then it is due at once.
pub proof fn law_synced_repo_rests(
    synced: TrackedRepo,
    asked: TrackedRepo,
    reason: String,
    config: UserConfig,
    in_repo: Option<Duration>,
    at: Duration,
    now: Duration,
)
    requires
        synced.last_sync == Some(at),
        synced.sync_reason is None,
        asked == (TrackedRepo { sync_reason: Some(reason), ..synced }),
        config.refresh_interval_of(synced.repo_id@, in_repo)@ > 0,
    ensures
        now@ < at@ + config.refresh_interval_of(synced.repo_id@, in_repo)@ ==> !synced.due(
            config,
            in_repo,
            now,
        ),
        !synced.in_sync && !config.repo_disabled(synced.repo_id@) ==> asked.due(config, in_repo, now),
{
}

/// A repo is never synced twice at a time, nor while it is disabled. Else it is due
/// if a sync was asked for, if there was none yet, and once the interval since the last
/// one is over.
pub proof fn law_due_is_decided_by_the_interval(
    repo: TrackedRepo,
    config: UserConfig,
    in_repo: Option<Duration>,
    now: Duration,
)
    ensures
        repo.in_sync ==> !repo.due(config, in_repo, now),
        config.repo_disabled(repo.repo_id@) ==> !repo.due(config, in_repo, now),
        !repo.in_sync && !config.repo_disabled(repo.repo_id@) ==> {
            &&& repo.sync_reason is Some ==> repo.due(config, in_repo, now)
            &&& repo.last_sync is None ==> repo.due(config, in_repo, now)
            &&& repo.sync_reason is None ==> (repo.last_sync matches Some(at) ==> {
                let wait = config.refresh_interval_of(repo.repo_id@, in_repo)@;
                &&& now@ >= at@ + wait ==> repo.due(config, in_repo, now)
                &&& now@ < at@ + wait && now@ >= at@ ==> !repo.due(config, in_repo, now)
            })
        },
{
}

// ---------------------------------------------------------------------------
// Pure sync decision logic
// ---------------------------------------------------------------------------

/// The action that the sync loop should take for a single branch.
#[derive(Debug, Clone, Copy, PartialEq, Eq, Structural)]
pub enum SyncAction {
    /// Nothing to do: branch is in sync.
    UpToDate,
    /// Upstream tracking ref was deleted.
    UpstreamGone,
    /// Fast-forward the branch (it's checked out in a worktree).
    FastForwardMerge,
    /// Fast-forward the branch via update-ref (not checked out).
    FastForwardRef,
    /// Skip fast-forward because the worktree is dirty.
    SkipDirty,
    /// Push local commits to the remote.
    Push,
    /// Local is ahead but user doesn't own the branch: don't push.
    LocalAheadNotOwned,
    /// Skip push because we're in backoff.
    SkipPushBackoff,
    /// Rebase local onto remote, then push (user owns both sides).
    RebaseThenPush,
    /// Skip rebase because worktree is dirty.
    SkipRebaseDirty,
    /// Diverged but user doesn't own the remote tip: flag it.
    DivergedNotOwned,
}

impl SyncAction {
    /// The name of the action.
    pub open spec fn name(self) -> Seq<char> {
        match self {
            SyncAction::UpToDate => "UpToDate"@,
            SyncAction::UpstreamGone => "UpstreamGone"@,
            SyncAction::FastForwardMerge => "FastForwardMerge"@,
            SyncAction::FastForwardRef => "FastForwardRef"@,
            SyncAction::SkipDirty => "SkipDirty"@,
            SyncAction::Push => "Push"@,
            SyncAction::LocalAheadNotOwned => "LocalAheadNotOwned"@,
            SyncAction::SkipPushBackoff => "SkipPushBackoff"@,
            SyncAction::RebaseThenPush => "RebaseThenPush"@,
            SyncAction::SkipRebaseDirty => "SkipRebaseDirty"@,
            SyncAction::DivergedNotOwned => "DivergedNotOwned"@,
        }
    }

    /// The name of the action.
    pub fn label(&self) -> (r: &'static str)
        ensures
            r@ == self.name(),
    {
        match self {
            SyncAction::UpToDate => "UpToDate",
            SyncAction::UpstreamGone => "UpstreamGone",
            SyncAction::FastForwardMerge => "FastForwardMerge",
            SyncAction::FastForwardRef => "FastForwardRef",
            SyncAction::SkipDirty => "SkipDirty",
            SyncAction::Push => "Push",
            SyncAction::LocalAheadNotOwned => "LocalAheadNotOwned",
            SyncAction::SkipPushBackoff => "SkipPushBackoff",
            SyncAction::RebaseThenPush => "RebaseThenPush",
            SyncAction::SkipRebaseDirty => "SkipRebaseDirty",
            SyncAction::DivergedNotOwned => "DivergedNotOwned",
        }
    }
}

/// Inputs to the sync decision function. All the state needed to decide
/// what to do with a single branch, without any side effects.
#[derive(Debug, Clone, Copy)]
pub struct BranchSyncInput {
    pub merge_analysis: MergeAnalysis,
    pub is_checked_out: bool,
    pub is_worktree_dirty: bool,
    pub is_owner: bool,
    /// For LocalAhead with a merge commit incorporating remote changes.
    pub is_merge_of_remote: bool,
    pub push_backoff_active: bool,
}

/// The action for a branch in the given situation.
pub open spec fn action_for(input: BranchSyncInput) -> SyncAction {
    match input.merge_analysis {
        MergeAnalysis::UpstreamGone => SyncAction::UpstreamGone,
        MergeAnalysis::UpToDate => SyncAction::UpToDate,
        MergeAnalysis::FastForward => if !input.is_checked_out {
            SyncAction::FastForwardRef
        } else if input.is_worktree_dirty {
            SyncAction::SkipDirty
        } else {
            SyncAction::FastForwardMerge
        },
        MergeAnalysis::LocalAhead => if !input.is_owner && !input.is_merge_of_remote {
            SyncAction::LocalAheadNotOwned
        } else if input.push_backoff_active {
            SyncAction::SkipPushBackoff
        } else {
            SyncAction::Push
        },
        MergeAnalysis::Diverged => if !input.is_owner {
            SyncAction::DivergedNotOwned
        } else if input.is_checked_out && input.is_worktree_dirty {
            SyncAction::SkipRebaseDirty
        } else {
            SyncAction::RebaseThenPush
        },
    }
}

/// Decide what sync action to take for a branch, purely from its state.
pub fn decide_branch_action(input: &BranchSyncInput) -> (r: SyncAction)
    ensures
        r == action_for(*input),
{
    match input.merge_analysis {
        MergeAnalysis::UpstreamGone => SyncAction::UpstreamGone,
        MergeAnalysis::UpToDate => SyncAction::UpToDate,
        MergeAnalysis::FastForward => {
            if input.is_checked_out {
                if input.is_worktree_dirty {
                    SyncAction::SkipDirty
                } else {
                    SyncAction::FastForwardMerge
                }
            } else {
                SyncAction::FastForwardRef
            }
        },
        MergeAnalysis::LocalAhead => {
            if !input.is_owner && !input.is_merge_of_remote {
                return SyncAction::LocalAheadNotOwned;
            }
            if input.push_backoff_active {
                return SyncAction::SkipPushBackoff;
            }
            SyncAction::Push
        },
        MergeAnalysis::Diverged => {
            if input.is_owner {
                if input.is_checked_out && input.is_worktree_dirty {
                    SyncAction::SkipRebaseDirty
                } else {
                    SyncAction::RebaseThenPush
                }
            } else {
                SyncAction::DivergedNotOwned
            }
        },
    }
}

/// What is done to a branch, for every way in which it can stand to its upstream.
pub proof fn law_action_fits_the_branch(input: BranchSyncInput)
    ensures
        input.merge_analysis is UpToDate <==> action_for(input) is UpToDate,
        input.merge_analysis is UpstreamGone <==> action_for(input) is UpstreamGone,
        input.merge_analysis is FastForward ==> {
            &&& !input.is_checked_out <==> action_for(input) is FastForwardRef
            &&& input.is_checked_out && input.is_worktree_dirty <==> action_for(input) is SkipDirty
            &&& input.is_checked_out && !input.is_worktree_dirty <==> action_for(input)
                is FastForwardMerge
        },
        input.merge_analysis is LocalAhead ==> {
            &&& !input.is_owner && !input.is_merge_of_remote <==> action_for(input)
                is LocalAheadNotOwned
            &&& (input.is_owner || input.is_merge_of_remote) && input.push_backoff_active
                <==> action_for(input) is SkipPushBackoff
            &&& (input.is_owner || input.is_merge_of_remote) && !input.push_backoff_active
                <==> action_for(input) is Push
        },
        input.merge_analysis is Diverged ==> {
            &&& !input.is_owner <==> action_for(input) is DivergedNotOwned
            &&& input.is_owner && input.is_checked_out && input.is_worktree_dirty <==> action_for(
                input,
            ) is SkipRebaseDirty
            &&& input.is_owner && !(input.is_checked_out && input.is_worktree_dirty)
                <==> action_for(input) is RebaseThenPush
        },
{
}

/// The remote is written only where the user owns the branch, or where the
/// local tip merges the remote into a branch that is ahead of it.
pub proof fn law_remote_write_needs_a_right(input: BranchSyncInput)
    ensures
        action_for(input) is Push || action_for(input) is RebaseThenPush ==> input.is_owner || (
        input.is_merge_of_remote && input.merge_analysis is LocalAhead),
{
}

/// A dirty worktree is neither merged into nor rebased, and a checked-out
/// branch is never moved under its worktree.
pub proof fn law_worktree_is_safe(input: BranchSyncInput)
    ensures
        input.is_checked_out && input.is_worktree_dirty ==> !(action_for(input) is FastForwardMerge)
            && !(action_for(input) is FastForwardRef) && !(action_for(input) is RebaseThenPush),
        action_for(input) is FastForwardRef ==> !input.is_checked_out,
        action_for(input) is FastForwardMerge ==> input.is_checked_out,
{
}

/// A branch is pushed or rebased only while no push backoff holds it, unless it
/// diverged.
pub proof fn law_backoff_holds_pushes(input: BranchSyncInput)
    requires
        input.push_backoff_active,
    ensures
        !(action_for(input) is Push),
{
}

/// The action that the typed model of branch states gives in the same situation
/// has the same name, except on a diverged branch that the user owns: there the
/// typed model holds, and this one rebases unless the worktree is dirty.
pub proof fn law_policies_agree(input: BranchSyncInput, typed: sync::BranchInputs)
    requires
        typed.analysis == input.merge_analysis,
        typed.is_checked_out == input.is_checked_out,
        typed.is_worktree_dirty == input.is_worktree_dirty,
        typed.is_owner == input.is_owner,
        typed.is_merge_of_remote == input.is_merge_of_remote,
        typed.push_backoff_active == input.push_backoff_active,
    ensures
        !(input.merge_analysis is Diverged && input.is_owner) ==> sync::action_for(typed).name()
            == action_for(input).name(),
        input.merge_analysis is Diverged && input.is_owner ==> sync::action_for(typed) is Hold && (
        action_for(input) is RebaseThenPush || action_for(input) is SkipRebaseDirty),
{
}

// ---------------------------------------------------------------------------
// Labels
// ---------------------------------------------------------------------------

/// A path without the Windows device prefix and with slashes for backslashes.
pub open spec fn plain_path(path: Seq<char>) -> Seq<char> {
    replaced(
        if has_prefix(path, "\\\\?\\"@) {
            path.skip("\\\\?\\"@.len() as int)
        } else {
            path
        },
        '\\',
        '/',
    )
}

fn strip_windows_device_prefix(path: &str) -> (r: String)
    ensures
        r@ == plain_path(path@),
{
    match strip_prefix(path, "\\\\?\\") {
        Some(rest) => replace_char(rest.as_str(), '\\', '/'),
        None => replace_char(path, '\\', '/'),
    }
}

/// The label of a repo in logs: its plain path without slashes at the end.
pub fn display_repo_label(path: &str) -> (r: String)
    ensures
        r@ == without_end(plain_path(path@), '\\', '/'),
{
    let plain = strip_windows_device_prefix(path);
    trim_end_chars(plain.as_str(), '\\', '/')
}

/// The label of a path in logs: its plain path.
pub fn display_path_label(path: &str) -> (r: String)
    ensures
        r@ == plain_path(path@),
{
    strip_windows_device_prefix(path)
}

/// The label of a repo in logs.
pub fn repo_log_label(repo_id: &str) -> (r: String)
    ensures
        r@ == without_end(plain_path(repo_id@), '\\', '/'),
{
    display_repo_label(repo_id)
}

// ---------------------------------------------------------------------------
// What happens to a repo
// ---------------------------------------------------------------------------

/// The remote that stands for a repo is `origin`, else its first one.
pub proof fn law_origin_stands_for_the_repo(repo: TrackedRepo)
    ensures
        repo.remote_urls@.contains_key("origin"@) ==> repo.primary_url()
            == repo.remote_urls@["origin"@]@,
        !repo.remote_urls@.contains_key("origin"@) && repo.remote_urls.keys().len() > 0
            ==> repo.primary_url() == repo.remote_urls@[repo.remote_urls.keys()[0]]@,
        !repo.remote_urls@.contains_key("origin"@) && repo.remote_urls.keys().len() == 0
            ==> repo.primary_url().len() == 0,
{
    reveal_strlit("");
}

/// A message that was shown is held until its cooldown is over. Other messages, and the
/// repo itself, are as they were.
pub proof fn law_shown_message_is_held(
    repo: TrackedRepo,
    was: TrackedRepo,
    key: Seq<char>,
    other: Seq<char>,
    at: Duration,
    cooldown: nat,
    now: nat,
)
    requires
        repo.has_notified(was, key, at),
    ensures
        cooldown > 0 ==> (repo.may_notify(key, cooldown, now) <==> now >= at@ + cooldown),
        repo.may_notify(key, 0, now),
        other != key ==> repo.may_notify(other, cooldown, now) == was.may_notify(
            other,
            cooldown,
            now,
        ),
        !was.notification_cooldowns@.contains_key(key) ==> was.may_notify(key, cooldown, now),
        repo.repo_id == was.repo_id,
        repo.branches == was.branches,
        repo.backoff == was.backoff,
        repo.last_sync == was.last_sync,
        repo.in_sync == was.in_sync,
        repo.remote_urls == was.remote_urls,
{
}

/// One sync of a repo runs at a time: a second one is refused until the first is over.
/// Beginning and ending one changes nothing else.
pub proof fn law_one_sync_at_a_time(
    was: TrackedRepo,
    begun: TrackedRepo,
    again: TrackedRepo,
    ended: TrackedRepo,
    next: TrackedRepo,
    first: bool,
    second: bool,
    third: bool,
)
    requires
        begun.has_begun(was, first),
        again.has_begun(begun, second),
        ended.has_ended(again),
        next.has_begun(ended, third),
    ensures
        first <==> !was.in_sync,
        !second,
        third,
        !was.in_sync ==> ended == was,
        ended.repo_id == was.repo_id,
        ended.branches == was.branches,
        ended.backoff == was.backoff,
        ended.last_sync == was.last_sync,
        ended.sync_reason == was.sync_reason,
{
}

/// A sync may run if the repo is there, is not disabled, and no operation of git is under
/// way in it. One that may not counts as done, so that it is tried again an interval
/// later.
pub proof fn law_refused_sync_waits_an_interval(
    repo: TrackedRepo,
    was: TrackedRepo,
    r: bool,
    present: bool,
    git_dir: Seq<String>,
    config: UserConfig,
    now: Duration,
    i: int,
)
    requires
        repo.is_admitted(was, r, present, git_dir, config, now),
    ensures
        !present ==> !r,
        config.repo_disabled(was.repo_id@) ==> !r,
        0 <= i < git_dir.len() && (git_dir[i]@ == "rebase-merge"@ || git_dir[i]@ == "rebase-apply"@
            || git_dir[i]@ == "MERGE_HEAD"@ || git_dir[i]@ == "CHERRY_PICK_HEAD"@) ==> !r,
        present && !config.repo_disabled(was.repo_id@) && (forall|k: int|
            0 <= k < git_dir.len() ==> !is_operation_marker(#[trigger] git_dir[k]@)) ==> r,
        r ==> repo == was,
        !r ==> repo.last_sync == Some(now) && repo.branches == was.branches && repo.backoff
            == was.backoff && repo.sync_reason == was.sync_reason && repo.last_sync_wall
            == was.last_sync_wall,
{
}

/// After a sync the repo knows when it was, and what it was asked for is answered.
pub proof fn law_finished_sync_is_remembered(
    repo: TrackedRepo,
    was: TrackedRepo,
    r: Option<String>,
    now: Duration,
    now_wall: Seq<char>,
)
    requires
        repo.has_finished(was, r, now, now_wall),
    ensures
        r == was.sync_reason,
        repo.last_sync == Some(now),
        repo.last_sync_wall matches Some(t) && t@ == now_wall,
        repo.sync_reason is None,
        repo.repo_id == was.repo_id,
        repo.branches == was.branches,
        repo.backoff == was.backoff,
        repo.in_sync == was.in_sync,
        repo.remote_urls == was.remote_urls,
        repo.notification_cooldowns == was.notification_cooldowns,
{
}

/// A path is shown with slashes, and without the prefix that Windows puts before a long
/// one.
pub proof fn law_paths_are_shown_with_slashes(path: Seq<char>, i: int)
    ensures
        plain_path(seq!['\\', '\\', '?', '\\'] + path) == replaced(path, '\\', '/'),
        !has_prefix(path, seq!['\\', '\\', '?', '\\']) ==> plain_path(path) == replaced(
            path,
            '\\',
            '/',
        ),
        0 <= i < path.len() ==> (replaced(path, '\\', '/')[i] == (if path[i] == '\\' {
            '/'
        } else {
            path[i]
        })),
{
    reveal_strlit("\\\\?\\");
    let p = seq!['\\', '\\', '?', '\\'];
    assert("\\\\?\\"@ =~= p);
    crate::text::law_ends_are_found(p, path);
    assert((p + path).skip(4) =~= path);
}

/// A repo that was just put under watch has never been synced and is due at once, unless
/// it is disabled.
pub proof fn law_new_repo_is_due(
    repo: TrackedRepo,
    repo_id: Seq<char>,
    display_path: Seq<char>,
    remote_urls: Table<String>,
    config: UserConfig,
    in_repo: Option<Duration>,
    now: Duration,
    name: Seq<char>,
)
    requires
        repo.is_new(repo_id, display_path, remote_urls),
    ensures
        repo.repo_id@ == repo_id,
        repo.display_path@ == display_path,
        repo.remote_urls == remote_urls,
        repo.last_sync is None && repo.last_sync_wall is None && repo.sync_reason is None,
        !repo.branches@.contains_key(name),
        !repo.notification_cooldowns@.contains_key(name),
        repo.due(config, in_repo, now) <==> !config.repo_disabled(repo_id),
{
}

} // verus!
