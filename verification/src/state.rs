//! The state that the daemon keeps between runs: repo metadata, branch sync
//! status, worktree info, and notification cooldowns.
//!
//! The rows are stored elsewhere. Here stand their contents, the statements that
//! are built from them, and what is decided from them.

use vstd::prelude::*;

use crate::clock::Duration;
use crate::text::{cat, decimal, format_u128, join, join_from, views};
use crate::timestamp::{later, not_before, parse_stamp, reaches, stamp_of, stamp_plus, Stamp};

verus! {

// ---------------------------------------------------------------------------
// Data structures
// ---------------------------------------------------------------------------

#[derive(Debug, Clone)]
pub struct RepoState {
    pub repo_id: String,
    pub display_path: String,
    pub remote_url: Option<String>,
    pub status: String,
    pub last_fetch_at: Option<String>,
    pub last_sync_at: Option<String>,
    pub missing_since: Option<String>,
    pub created_at: String,
}

#[derive(Debug, Clone)]
pub struct BranchState {
    pub branch_name: String,
    pub sync_status: String,
    pub last_pull_at: Option<String>,
    pub last_push_at: Option<String>,
    pub local_oid: Option<String>,
    pub remote_oid: Option<String>,
    pub error_message: Option<String>,
    pub push_backoff_until: Option<String>,
}

#[derive(Debug, Clone)]
pub struct WorktreeState {
    pub path: String,
    pub current_head: Option<String>,
    pub is_clean: bool,
    pub last_seen: String,
}

// ---------------------------------------------------------------------------
// Worktrees
// ---------------------------------------------------------------------------

/// The placeholders of `n` paths. The first one stands behind the repo's.
pub open spec fn placeholders(n: nat) -> Seq<Seq<char>> {
    Seq::new(n, |i: int| "?"@ + decimal((i + 2) as nat))
}

/// The statement that removes the worktrees of a repo that are not among `n`
/// paths.
pub open spec fn stale_statement(n: nat) -> Seq<char> {
    if n == 0 {
        "DELETE FROM worktrees WHERE repo_id = ?1"@
    } else {
        "DELETE FROM worktrees WHERE repo_id = ?1 AND path NOT IN ("@ + join(
            placeholders(n),
            ", "@,
        ) + ")"@
    }
}

/// The statement, and the values it is run with, that removes the worktrees of
/// `repo_id` whose path is **not** in `current_paths`.
pub fn remove_stale_worktrees(repo_id: &str, current_paths: &Vec<String>) -> (r: (
    String,
    Vec<String>,
))
    ensures
        r.0@ == stale_statement(current_paths@.len()),
        views(r.1@) == seq![repo_id@] + views(current_paths@),
{
    let mut values: Vec<String> = Vec::new();
    values.push(String::from_str(repo_id));
    let mut marks: Vec<String> = Vec::new();
    let mut i: usize = 0;
    assert(views(values@) =~= seq![repo_id@] + views(current_paths@.take(0)));
    while i < current_paths.len()
        invariant
            i <= current_paths@.len(),
            views(values@) == seq![repo_id@] + views(current_paths@.take(i as int)),
            views(marks@) == placeholders(i as nat),
        decreases current_paths.len() - i,
    {
        let ghost v0 = values@;
        let ghost m0 = marks@;
        values.push(String::from_str(current_paths[i].as_str()));
        marks.push(cat("?", format_u128(i as u128 + 2).as_str()));
        proof {
            assert(views(values@) =~= views(v0).push(current_paths@[i as int]@));
            assert(current_paths@.take(i + 1) =~= current_paths@.take(i as int).push(
                current_paths@[i as int],
            ));
            assert(views(current_paths@.take(i + 1)) =~= views(current_paths@.take(i as int)).push(
                current_paths@[i as int]@,
            ));
            assert(views(marks@) =~= views(m0).push("?"@ + decimal((i + 2) as nat)));
            assert(views(marks@) =~= placeholders((i + 1) as nat));
        }
        i = i + 1;
    }
    assert(current_paths@.take(i as int) =~= current_paths@);
    if current_paths.len() == 0 {
        return (String::from_str("DELETE FROM worktrees WHERE repo_id = ?1"), values);
    }
    let list = join_from(&marks, 0, ", ");
    assert(views(marks@).skip(0) =~= views(marks@));
    let mut out = cat(
        "DELETE FROM worktrees WHERE repo_id = ?1 AND path NOT IN (",
        list.as_str(),
    );
    out.append(")");
    (out, values)
}

// ---------------------------------------------------------------------------
// Notification cooldowns
// ---------------------------------------------------------------------------

/// Whether a cooldown that began at `last` is over at `now`.
pub fn cooldown_elapsed(last: Stamp, cooldown: Duration, now: Stamp) -> (r: bool)
    requires
        last.wf(),
        stamp_plus(last, cooldown@) is Some,
    ensures
        r == not_before(now, stamp_plus(last, cooldown@)->0),
{
    match later(last, cooldown) {
        Some(end) => reaches(now, end),
        None => false,
    }
}

/// Why it cannot be said whether a cooldown is over.
#[derive(Debug, Clone, Copy, PartialEq, Eq, Structural)]
pub enum CooldownError {
    /// The stored time is in no format that is known.
    Unreadable,
    /// The cooldown ends beyond the calendar.
    BeyondCalendar,
}

/// Whether a message may be shown again, as far as that can be told.
pub open spec fn is_notice(
    r: Result<bool, CooldownError>,
    last_shown: Option<&str>,
    cooldown: nat,
    now: Stamp,
) -> bool {
    match last_shown {
        None => r == Ok::<bool, CooldownError>(true),
        Some(s) => match stamp_of(s@) {
            None => r == Err::<bool, CooldownError>(CooldownError::Unreadable),
            Some(t) => match stamp_plus(Stamp { secs: t.0, nanos: t.1 }, cooldown) {
                None => r == Err::<bool, CooldownError>(CooldownError::BeyondCalendar),
                Some(end) => r == Ok::<bool, CooldownError>(not_before(now, end)),
            },
        },
    }
}

/// Returns `true` if a notification should be shown: either none was shown
/// before, or the cooldown has elapsed since `last_shown`.
pub fn should_notify(last_shown: Option<&str>, cooldown: Duration, now: Stamp) -> (r: Result<
    bool,
    CooldownError,
>)
    ensures
        is_notice(r, last_shown, cooldown@, now),
        match last_shown {
            None => r == Ok::<bool, CooldownError>(true),
            Some(s) => match stamp_of(s@) {
                None => r == Err::<bool, CooldownError>(CooldownError::Unreadable),
                Some(t) => {
                    let last = Stamp { secs: t.0, nanos: t.1 };
                    match stamp_plus(last, cooldown@) {
                        None => r == Err::<bool, CooldownError>(CooldownError::BeyondCalendar),
                        Some(end) => r == Ok::<bool, CooldownError>(not_before(now, end)),
                    }
                },
            },
        },
{
    match last_shown {
        None => Ok(true),
        Some(s) => match parse_stamp(s) {
            None => Err(CooldownError::Unreadable),
            Some(last) => match later(last, cooldown) {
                None => Err(CooldownError::BeyondCalendar),
                Some(_) => Ok(cooldown_elapsed(last, cooldown, now)),
            },
        },
    }
}

/// Once a cooldown is over it stays over.
pub proof fn law_cooldown_stays_over(end: Stamp, now: Stamp, after: Stamp)
    requires
        not_before(now, end),
        not_before(after, now),
    ensures
        not_before(after, end),
{
}

/// Right after a notification was shown a cooldown of any length holds.
pub proof fn law_shown_now_is_held(last: Stamp, cooldown: nat)
    requires
        last.wf(),
        cooldown > 0,
        stamp_plus(last, cooldown) is Some,
    ensures
        !not_before(last, stamp_plus(last, cooldown)->0),
{
}

// ---------------------------------------------------------------------------
// What holds of the statements and of the cooldown
// ---------------------------------------------------------------------------

/// The statement names a placeholder for every path that stays, counted on from the one
/// of the repo. Without any it takes all worktrees of the repo.
pub proof fn law_every_path_has_a_placeholder(n: nat, i: int)
    ensures
        placeholders(n).len() == n,
        0 <= i < n ==> placeholders(n)[i] == "?"@ + decimal((i + 2) as nat),
        stale_statement(0) == "DELETE FROM worktrees WHERE repo_id = ?1"@,
        n > 0 ==> stale_statement(n)
            == "DELETE FROM worktrees WHERE repo_id = ?1 AND path NOT IN ("@ + join(
            placeholders(n),
            ", "@,
        ) + ")"@,
{
}

/// A message is shown again once the cooldown has passed since it was shown last, to the
/// nanosecond. (Leap seconds are left out.)
pub proof fn law_cooldown_is_waited_for(last: Stamp, cooldown: nat, now: Stamp)
    requires
        last.nanos < 1_000_000_000,
        now.nanos < 1_000_000_000,
        stamp_plus(last, cooldown) is Some,
    ensures
        not_before(now, stamp_plus(last, cooldown)->0) <==> now.secs * 1_000_000_000 + now.nanos
            >= last.secs * 1_000_000_000 + last.nanos + cooldown,
{
    crate::timestamp::law_times_are_put_off_exactly(last, cooldown);
    crate::timestamp::law_times_are_ordered(now, stamp_plus(last, cooldown)->0);
}

/// A message that was never shown may be. One that was shown may be again once its
/// cooldown has passed. Where the time of that cannot be told it is an error. (Leap
/// seconds are left out.)
pub proof fn law_message_waits_for_its_cooldown(
    r: Result<bool, CooldownError>,
    last_shown: Option<&str>,
    cooldown: nat,
    now: Stamp,
    secs: i64,
    nanos: u32,
)
    requires
        is_notice(r, last_shown, cooldown, now),
        now.nanos < 1_000_000_000,
        nanos < 1_000_000_000,
    ensures
        last_shown is None ==> r == Ok::<bool, CooldownError>(true),
        last_shown matches Some(s) ==> {
            &&& stamp_of(s@) is None ==> r == Err::<bool, CooldownError>(CooldownError::Unreadable)
            &&& stamp_of(s@) == Some((secs, nanos)) ==> (r matches Ok(shown) ==> (shown
                <==> now.secs * 1_000_000_000 + now.nanos >= secs * 1_000_000_000 + nanos
                + cooldown))
            &&& stamp_of(s@) == Some((secs, nanos)) ==> (r is Err <==> secs * 1_000_000_000 + nanos
                + cooldown >= (8_210_266_876_799 + 1) * 1_000_000_000)
        },
{
    let last = Stamp { secs, nanos };
    crate::timestamp::law_times_are_put_off_exactly(last, cooldown);
    if stamp_plus(last, cooldown) is Some {
        law_cooldown_is_waited_for(last, cooldown, now);
    }
}

} // verus!
