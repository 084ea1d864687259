//! Configuration.
//!
//! Configuration is split across three files in the config directory:
//! - `config.toml`: global settings
//! - `repos.toml`: per-repo registration and overrides
//! - `trusted_hosts`: one host per line
//!
//! Plus an optional in-repo config, `.gitsitter.toml` in a repo's root.

use vstd::prelude::*;

use crate::clock::{Duration, NANOS_PER_MILLI, NANOS_PER_SEC};
use crate::hosts::{
    clean, format_hosts, hosts_in, is_host_file, law_read_hosts_are_clean,
    law_written_hosts_are_read_back, parse_hosts, HostSet,
};
use crate::table::Table;
use crate::text::{
    before, behind, chars_of, clone_list, decimal, ends_with, find_char, first_index, format_u128,
    format_u64, has_prefix, has_suffix, is_blank, is_digit, is_space, law_first_character_parts,
    law_numbers_are_read, law_trim_takes_the_white_space, lemma_decimal, lemma_first_index,
    lemma_first_index_unique, lemma_number_of_decimal, lemma_push_contains, lemma_without,
    list_contains, number, parse_u64, starts_with, string_of, strip_prefix, text_eq, trim, trimmed, view_opt, views, without,
};

verus! {

// ---------------------------------------------------------------------------
// Disabled repos and remotes
// ---------------------------------------------------------------------------

/// A repo can be fully disabled (`All(true)`), fully enabled (`All(false)`), or
/// have specific remotes disabled.
#[derive(Debug, Clone, PartialEq)]
pub enum Disabled {
    All(bool),
    Remotes(Vec<String>),
}

/// What a `Disabled` says.
pub enum DisabledView {
    All(bool),
    Remotes(Seq<Seq<char>>),
}

impl DisabledView {
    /// Whether the whole repo is disabled.
    pub open spec fn repo(self) -> bool {
        self == DisabledView::All(true)
    }

    /// Whether `remote` is disabled.
    pub open spec fn remote(self, remote: Seq<char>) -> bool {
        match self {
            DisabledView::All(all) => all,
            DisabledView::Remotes(list) => list.contains(remote),
        }
    }

    /// The remotes that are disabled one by one.
    pub open spec fn listed(self) -> Seq<Seq<char>> {
        match self {
            DisabledView::All(_) => Seq::empty(),
            DisabledView::Remotes(list) => list,
        }
    }
}

impl View for Disabled {
    type V = DisabledView;

    open spec fn view(&self) -> DisabledView {
        match *self {
            Disabled::All(all) => DisabledView::All(all),
            Disabled::Remotes(list) => DisabledView::Remotes(views(list@)),
        }
    }
}

/// In a disabled repo every remote is disabled.
pub proof fn law_disabled_repo_disables_remotes(disabled: DisabledView, remote: Seq<char>)
    requires
        disabled.repo(),
    ensures
        disabled.remote(remote),
{
}

impl Disabled {
    /// Is the entire repo disabled?
    pub fn is_repo_disabled(&self) -> (r: bool)
        ensures
            r == self@.repo(),
    {
        match self {
            Disabled::All(all) => *all,
            Disabled::Remotes(_) => false,
        }
    }

    /// Is a specific remote disabled?
    pub fn is_remote_disabled(&self, remote: &str) -> (r: bool)
        ensures
            r == self@.remote(remote@),
    {
        match self {
            Disabled::All(all) => *all,
            Disabled::Remotes(list) => list_contains(list, remote),
        }
    }

    /// The explicitly disabled remote names (empty if whole-repo disabled or enabled).
    pub fn disabled_remotes(&self) -> (r: &[String])
        ensures
            views(r@) == self@.listed(),
    {
        match self {
            Disabled::Remotes(list) => list.as_slice(),
            Disabled::All(_) => {
                let none: &[String] = &[];
                assert(views(none@) =~= Seq::<Seq<char>>::empty());
                none
            },
        }
    }

    /// The same value again.
    pub fn duplicate(&self) -> (r: Disabled)
        ensures
            r@ == self@,
    {
        match self {
            Disabled::All(all) => Disabled::All(*all),
            Disabled::Remotes(list) => Disabled::Remotes(clone_list(list)),
        }
    }
}

// ---------------------------------------------------------------------------
// Durations as text
// ---------------------------------------------------------------------------

/// Why a text is no duration.
#[derive(Debug, Clone, PartialEq)]
pub enum DurationError {
    /// There is nothing but white space.
    Empty,
    /// What stands before the unit is no number.
    InvalidNumber,
    /// The unit is none of `ms`, `s`, `m` and `h`.
    UnknownUnit(String),
}

impl DurationError {
    /// The message for people.
    pub fn message(&self) -> (r: String)
        ensures
            r@ == (match *self {
                DurationError::Empty => "empty duration string"@,
                DurationError::InvalidNumber => "invalid duration number"@,
                DurationError::UnknownUnit(unit) => "unknown duration unit: "@ + unit@,
            }),
    {
        match self {
            DurationError::Empty => String::from_str("empty duration string"),
            DurationError::InvalidNumber => String::from_str("invalid duration number"),
            DurationError::UnknownUnit(unit) => {
                let mut out = String::from_str("unknown duration unit: ");
                out.append(unit.as_str());
                out
            },
        }
    }
}

/// The part of a trimmed duration text that writes the number.
pub open spec fn duration_number(t: Seq<char>) -> Seq<char> {
    if has_suffix(t, "ms"@) {
        t.take(t.len() - 2)
    } else {
        t.drop_last()
    }
}

/// The part of a trimmed duration text that names the unit.
pub open spec fn duration_unit(t: Seq<char>) -> Seq<char> {
    if has_suffix(t, "ms"@) {
        "ms"@
    } else {
        seq![t.last()]
    }
}

/// The length of the unit in nanoseconds.
pub open spec fn unit_nanos(unit: Seq<char>) -> Option<nat> {
    if unit == "ms"@ {
        Some(NANOS_PER_MILLI as nat)
    } else if unit == seq!['s'] {
        Some(NANOS_PER_SEC as nat)
    } else if unit == seq!['m'] {
        Some(60 * NANOS_PER_SEC as nat)
    } else if unit == seq!['h'] {
        Some(3600 * NANOS_PER_SEC as nat)
    } else {
        None
    }
}

/// The text is in range: the number of seconds fits in 64 bits.
pub open spec fn duration_in_range(s: Seq<char>) -> bool {
    let t = trimmed(s);
    t.len() > 0 ==> {
        number(duration_number(t)) matches Some(n) ==> {
            &&& duration_unit(t) == seq!['m'] ==> n * 60 <= u64::MAX
            &&& duration_unit(t) == seq!['h'] ==> n * 3600 <= u64::MAX
        }
    }
}

/// The length in nanoseconds that a text gives, if it is a duration.
pub open spec fn duration_nanos(s: Seq<char>) -> Option<nat> {
    let t = trimmed(s);
    if t.len() == 0 {
        None
    } else {
        match (number(duration_number(t)), unit_nanos(duration_unit(t))) {
            (Some(n), Some(u)) => Some(n as nat * u),
            _ => None,
        }
    }
}

/// The result of reading `s` as a duration.
pub open spec fn is_duration_result(s: Seq<char>, r: Result<Duration, DurationError>) -> bool {
    let t = trimmed(s);
    if t.len() == 0 {
        r == Err::<Duration, DurationError>(DurationError::Empty)
    } else if number(duration_number(t)) is None {
        r == Err::<Duration, DurationError>(DurationError::InvalidNumber)
    } else if unit_nanos(duration_unit(t)) is None {
        r matches Err(DurationError::UnknownUnit(u)) && u@ == duration_unit(t)
    } else {
        r matches Ok(d) && Some(d@) == duration_nanos(s)
    }
}

proof fn lemma_units()
    ensures
        "ms"@ == seq!['m', 's'],
        "s"@ == seq!['s'],
        "m"@ == seq!['m'],
        "h"@ == seq!['h'],
{
    reveal_strlit("ms");
    reveal_strlit("s");
    reveal_strlit("m");
    reveal_strlit("h");
    assert("ms"@ =~= seq!['m', 's']);
    assert("s"@ =~= seq!['s']);
    assert("m"@ =~= seq!['m']);
    assert("h"@ =~= seq!['h']);
}

/// Whether `s` is in range for `parse_duration`.
pub fn is_duration_in_range(s: &str) -> (r: bool)
    ensures
        r == duration_in_range(s@),
{
    proof {
        lemma_units();
        assert(seq!['m'] != seq!['h']) by {
            assert(seq!['m'][0] != seq!['h'][0]);
        }
    }
    let t = trim(s);
    let cs = chars_of(t.as_str());
    if cs.len() == 0 || ends_with(t.as_str(), "ms") {
        proof {
            assert("ms"@.len() == 2);
            assert("ms"@ != seq!['m'] && "ms"@ != seq!['h']);
        }
        return true;
    }
    let last = cs[cs.len() - 1];
    let num = string_of(&cs, 0, cs.len() - 1);
    assert(num@ =~= t@.drop_last());
    proof {
        if last != 'm' {
            assert(seq![last][0] != seq!['m'][0]);
        }
        if last != 'h' {
            assert(seq![last][0] != seq!['h'][0]);
        }
    }
    match parse_u64(num.as_str()) {
        Some(n) => {
            if last == 'm' {
                n <= u64::MAX / 60
            } else if last == 'h' {
                n <= u64::MAX / 3600
            } else {
                true
            }
        },
        None => true,
    }
}

/// Reads a duration: a number and one of the units `ms`, `s`, `m` and `h`.
pub fn parse_duration(s: &str) -> (r: Result<Duration, DurationError>)
    requires
        duration_in_range(s@),
    ensures
        is_duration_result(s@, r),
{
    let t = trim(s);
    let cs = chars_of(t.as_str());
    if cs.len() == 0 {
        return Err(DurationError::Empty);
    }
    proof {
        lemma_units();
    }
    let millis = ends_with(t.as_str(), "ms");
    let cut: usize = if millis {
        cs.len() - 2
    } else {
        cs.len() - 1
    };
    let num = string_of(&cs, 0, cut);
    let last = cs[cs.len() - 1];
    assert(num@ =~= duration_number(t@));
    let n: u64 = match parse_u64(num.as_str()) {
        Some(n) => n,
        None => {
            return Err(DurationError::InvalidNumber);
        },
    };
    if millis {
        let d = Duration::from_millis(n);
        assert(Some(d@) == duration_nanos(s@));
        return Ok(d);
    }
    let ghost unit = duration_unit(t@);
    proof {
        assert(unit.len() == 1 && unit[0] == last);
        assert("ms"@.len() == 2);
        if last != 's' {
            assert(unit[0] != seq!['s'][0]);
        }
        if last != 'm' {
            assert(unit[0] != seq!['m'][0]);
        }
        if last != 'h' {
            assert(unit[0] != seq!['h'][0]);
        }
    }
    if last == 's' {
        assert(unit =~= seq!['s']);
        let d = Duration::from_secs(n);
        assert(unit_nanos(unit) == Some(NANOS_PER_SEC as nat));
        Ok(d)
    } else if last == 'm' {
        assert(unit =~= seq!['m']);
        let d = Duration::from_secs(n * 60);
        assert(unit_nanos(unit) == Some(60 * NANOS_PER_SEC as nat));
        assert(d@ == n * (60 * NANOS_PER_SEC)) by (nonlinear_arith)
            requires
                d@ == (n * 60) * NANOS_PER_SEC,
        ;
        Ok(d)
    } else if last == 'h' {
        assert(unit =~= seq!['h']);
        let d = Duration::from_secs(n * 3600);
        assert(unit_nanos(unit) == Some(3600 * NANOS_PER_SEC as nat));
        assert(d@ == n * (3600 * NANOS_PER_SEC)) by (nonlinear_arith)
            requires
                d@ == (n * 3600) * NANOS_PER_SEC,
        ;
        Ok(d)
    } else {
        let mut name = String::new();
        name.push(last);
        assert(name@ =~= unit);
        Err(DurationError::UnknownUnit(name))
    }
}

/// The text of a duration: in milliseconds below a second, and else in the
/// largest unit that divides its whole seconds.
pub open spec fn duration_text(nanos: nat) -> Seq<char> {
    let secs = Duration::secs_of(nanos);
    if secs == 0 {
        decimal(Duration::millis_of(nanos)) + "ms"@
    } else if secs % 3600 == 0 {
        decimal(secs / 3600) + "h"@
    } else if secs % 60 == 0 {
        decimal(secs / 60) + "m"@
    } else {
        decimal(secs) + "s"@
    }
}

/// Writes a duration.
pub fn format_duration(d: &Duration) -> (r: String)
    ensures
        r@ == duration_text(d@),
{
    let secs: u64 = d.as_secs();
    if secs == 0 {
        let mut out = format_u128(d.as_millis());
        out.append("ms");
        out
    } else if secs % 3600 == 0 {
        let mut out = format_u64(secs / 3600);
        out.append("h");
        out
    } else if secs % 60 == 0 {
        let mut out = format_u64(secs / 60);
        out.append("m");
        out
    } else {
        let mut out = format_u64(secs);
        out.append("s");
        out
    }
}

/// What a duration text that is digits and a unit reads as.
proof fn lemma_digits_and_unit(n: u64, unit: Seq<char>)
    requires
        unit == "ms"@ || unit == "s"@ || unit == "m"@ || unit == "h"@,
    ensures
        duration_nanos(decimal(n as nat) + unit) == Some(n as nat * unit_nanos(unit)->0),
        unit_nanos(unit) is Some,
        trimmed(decimal(n as nat) + unit) == decimal(n as nat) + unit,
        duration_number(decimal(n as nat) + unit) == decimal(n as nat),
        duration_unit(decimal(n as nat) + unit) == unit,
{
    lemma_units();
    lemma_decimal(n as nat);
    lemma_number_of_decimal(n);
    let d = decimal(n as nat);
    let t = d + unit;
    assert(is_digit(d[0]));
    assert(t[0] == d[0]);
    assert(t.last() == unit.last());
    assert(!is_space(t[0]));
    assert(!is_space(t.last()));
    assert(trimmed(t) == t);
    if unit == "ms"@ {
        assert(t.subrange(t.len() - 2, t.len() as int) =~= "ms"@);
        assert(has_suffix(t, "ms"@));
        assert(t.take(t.len() - 2) =~= d);
    } else {
        if has_suffix(t, "ms"@) {
            let tail = t.subrange(t.len() - 2, t.len() as int);
            assert(tail == seq!['m', 's']);
            assert(tail[0] == 'm');
            assert(t[t.len() - 2] == d.last());
            assert(is_digit(d[d.len() - 1]));
        }
        assert(t.drop_last() =~= d);
        assert(seq![t.last()] =~= unit);
    }
}

/// A duration is read back from its text, if it is made of whole milliseconds
/// below a second and of whole seconds above.
pub proof fn law_duration_round_trip(nanos: nat)
    requires
        Duration::secs_of(nanos) <= u64::MAX,
        if Duration::secs_of(nanos) == 0 {
            nanos % (NANOS_PER_MILLI as nat) == 0
        } else {
            nanos % (NANOS_PER_SEC as nat) == 0
        },
    ensures
        duration_in_range(duration_text(nanos)),
        duration_nanos(duration_text(nanos)) == Some(nanos),
{
    lemma_units();
    assert(seq!['m'][0] != seq!['h'][0]);
    assert(seq!['s'][0] != seq!['h'][0]);
    assert(seq!['m'][0] != seq!['s'][0]);
    let secs = Duration::secs_of(nanos);
    if secs == 0 {
        let ms = Duration::millis_of(nanos) as u64;
        lemma_digits_and_unit(ms, "ms"@);
        lemma_number_of_decimal(ms);
        assert(unit_nanos("ms"@) == Some(1000000nat));
        assert(ms * 1000000 == nanos);
    } else if secs % 3600 == 0 {
        lemma_digits_and_unit((secs / 3600) as u64, "h"@);
        lemma_number_of_decimal((secs / 3600) as u64);
        assert(unit_nanos("h"@) == Some(3600000000000nat));
        assert((secs / 3600) * 3600000000000 == nanos);
    } else if secs % 60 == 0 {
        lemma_digits_and_unit((secs / 60) as u64, "m"@);
        lemma_number_of_decimal((secs / 60) as u64);
        assert(unit_nanos("m"@) == Some(60000000000nat));
        assert((secs / 60) * 60000000000 == nanos);
    } else {
        lemma_digits_and_unit(secs as u64, "s"@);
        lemma_number_of_decimal(secs as u64);
        assert(unit_nanos("s"@) == Some(1000000000nat));
        assert(secs * 1000000000 == nanos);
    }
}

/// Reads an optional duration.
pub fn parse_opt_duration(s: Option<&str>) -> (r: Result<Option<Duration>, DurationError>)
    requires
        s matches Some(s) ==> duration_in_range(s@),
    ensures
        match s {
            None => r == Ok::<Option<Duration>, DurationError>(None),
            Some(s) => match r {
                Ok(d) => d is Some && is_duration_result(s@, Ok(d->0)),
                Err(e) => is_duration_result(s@, Err(e)),
            },
        },
{
    match s {
        None => Ok(None),
        Some(s) => match parse_duration(s) {
            Ok(d) => Ok(Some(d)),
            Err(e) => Err(e),
        },
    }
}

// ---------------------------------------------------------------------------
// Conflict policy
// ---------------------------------------------------------------------------

/// What to do when a rebase hits conflicts.
#[derive(Debug, Clone, Copy, PartialEq, Eq, Structural)]
pub enum OnConflict {
    /// Try the resolve agent if configured, otherwise leave conflicts. Default.
    Auto,
    /// Abort the rebase, restore a clean state.
    Revert,
    /// Leave the repo in conflict state for the user to handle.
    Leave,
    /// Spawn the resolve agent (falls back to leave if not configured).
    ResolveAgent,
}

/// The resolved action after considering agent availability.
#[derive(Debug, Clone, Copy, PartialEq, Eq, Structural)]
pub enum EffectiveConflictAction {
    Revert,
    Leave,
    ResolveAgent,
}

/// The policy that a configured name stands for. No name and an unknown name
/// stand for the default.
pub open spec fn policy_named(name: Option<Seq<char>>) -> OnConflict {
    if name == Some("revert"@) {
        OnConflict::Revert
    } else if name == Some("leave"@) {
        OnConflict::Leave
    } else if name == Some("resolve-agent"@) {
        OnConflict::ResolveAgent
    } else {
        OnConflict::Auto
    }
}

impl OnConflict {
    /// The configured name of the policy.
    pub open spec fn name(self) -> Seq<char> {
        match self {
            OnConflict::Auto => "auto"@,
            OnConflict::Revert => "revert"@,
            OnConflict::Leave => "leave"@,
            OnConflict::ResolveAgent => "resolve-agent"@,
        }
    }

    /// The policy that a configured name stands for.
    pub fn from_str_opt(s: Option<&str>) -> (r: OnConflict)
        ensures
            r == policy_named(match s {
                Some(s) => Some(s@),
                None => None,
            }),
    {
        match s {
            Some(s) => {
                if text_eq(s, "revert") {
                    OnConflict::Revert
                } else if text_eq(s, "leave") {
                    OnConflict::Leave
                } else if text_eq(s, "resolve-agent") {
                    OnConflict::ResolveAgent
                } else {
                    OnConflict::Auto
                }
            },
            None => OnConflict::Auto,
        }
    }

    /// The configured name of the policy.
    pub fn to_str(&self) -> (r: &'static str)
        ensures
            r@ == self.name(),
    {
        match self {
            OnConflict::Auto => "auto",
            OnConflict::Revert => "revert",
            OnConflict::Leave => "leave",
            OnConflict::ResolveAgent => "resolve-agent",
        }
    }

    /// What a conflict comes to, given whether there is an agent.
    pub open spec fn outcome(self, has_agent: bool) -> EffectiveConflictAction {
        match self {
            OnConflict::Revert => EffectiveConflictAction::Revert,
            OnConflict::Leave => EffectiveConflictAction::Leave,
            OnConflict::ResolveAgent | OnConflict::Auto => if has_agent {
                EffectiveConflictAction::ResolveAgent
            } else {
                EffectiveConflictAction::Leave
            },
        }
    }

    /// Resolve the effective policy given whether an agent is configured.
    pub fn effective(&self, has_agent: bool) -> (r: EffectiveConflictAction)
        ensures
            r == self.outcome(has_agent),
            r == (match *self {
                OnConflict::Revert => EffectiveConflictAction::Revert,
                OnConflict::Leave => EffectiveConflictAction::Leave,
                OnConflict::ResolveAgent | OnConflict::Auto => if has_agent {
                    EffectiveConflictAction::ResolveAgent
                } else {
                    EffectiveConflictAction::Leave
                },
            }),
    {
        match self {
            OnConflict::Revert => EffectiveConflictAction::Revert,
            OnConflict::Leave => EffectiveConflictAction::Leave,
            OnConflict::ResolveAgent | OnConflict::Auto => {
                if has_agent {
                    EffectiveConflictAction::ResolveAgent
                } else {
                    EffectiveConflictAction::Leave
                }
            },
        }
    }
}

/// The name of a policy stands for that policy.
pub proof fn law_policy_round_trip(policy: OnConflict)
    ensures
        policy_named(Some(policy.name())) == policy,
{
    reveal_strlit("auto");
    reveal_strlit("revert");
    reveal_strlit("leave");
    reveal_strlit("resolve-agent");
    assert("auto"@.len() == 4);
    assert("revert"@.len() == 6);
    assert("leave"@.len() == 5);
    assert("resolve-agent"@.len() == 13);
}

// ---------------------------------------------------------------------------
// Settings
// ---------------------------------------------------------------------------

/// What `config.toml` holds: flat top-level keys, each of which may be missing.
#[derive(Debug)]
pub struct RawConfigToml {
    pub refresh_interval: Option<Duration>,
    pub colors: Option<bool>,
    pub emoji: Option<bool>,
    pub notification_cooldown: Option<Duration>,
    pub git_path: Option<String>,
    pub watcher_debounce: Option<Duration>,
    pub on_conflict: Option<String>,
    pub resolve_agent: Option<String>,
    pub resolve_agent_path: Option<String>,
}

#[derive(Debug)]
pub struct GlobalSettings {
    pub refresh_interval: Duration,
    pub colors: bool,
    pub emoji: bool,
    pub notification_cooldown: Duration,
    pub git_path: Option<String>,
    pub watcher_debounce: Option<Duration>,
    pub on_conflict: OnConflict,
    pub resolve_agent: Option<String>,
    pub resolve_agent_path: Option<String>,
}

/// The length in nanoseconds of an optional duration, or of `default` seconds.
pub open spec fn nanos_or(d: Option<Duration>, default: nat) -> nat {
    match d {
        Some(d) => d@,
        None => default * (NANOS_PER_SEC as nat),
    }
}

impl GlobalSettings {
    /// The settings are those of `raw`, with the defaults for what is missing.
    pub open spec fn settings_of(self, raw: RawConfigToml) -> bool {
        &&& self.refresh_interval@ == nanos_or(raw.refresh_interval, 60)
        &&& self.colors == (raw.colors != Some(false))
        &&& self.emoji == (raw.emoji != Some(false))
        &&& self.notification_cooldown@ == nanos_or(raw.notification_cooldown, 300)
        &&& self.git_path == raw.git_path
        &&& self.watcher_debounce == raw.watcher_debounce
        &&& self.on_conflict == policy_named(view_opt(raw.on_conflict))
        &&& self.resolve_agent == raw.resolve_agent
        &&& self.resolve_agent_path == raw.resolve_agent_path
    }

    /// The settings are the compiled-in defaults.
    pub open spec fn is_default(self) -> bool {
        &&& self.refresh_interval@ == 60 * NANOS_PER_SEC
        &&& self.colors
        &&& self.emoji
        &&& self.notification_cooldown@ == 300 * NANOS_PER_SEC
        &&& self.git_path is None
        &&& self.watcher_debounce is None
        &&& self.on_conflict == OnConflict::Auto
        &&& self.resolve_agent is None
        &&& self.resolve_agent_path is None
    }

    /// The settings that `raw` gives.
    pub fn from_raw(raw: RawConfigToml) -> (r: GlobalSettings)
        ensures
            r.settings_of(raw),
    {
        let on_conflict = match &raw.on_conflict {
            Some(s) => OnConflict::from_str_opt(Some(s.as_str())),
            None => OnConflict::from_str_opt(None),
        };
        GlobalSettings {
            refresh_interval: raw.refresh_interval.unwrap_or(Duration::from_secs(60)),
            colors: raw.colors.unwrap_or(true),
            emoji: raw.emoji.unwrap_or(true),
            notification_cooldown: raw.notification_cooldown.unwrap_or(Duration::from_secs(300)),
            git_path: raw.git_path,
            watcher_debounce: raw.watcher_debounce,
            on_conflict,
            resolve_agent: raw.resolve_agent,
            resolve_agent_path: raw.resolve_agent_path,
        }
    }
}

impl Default for GlobalSettings {
    fn default() -> (r: GlobalSettings)
        ensures
            r.is_default(),
    {
        GlobalSettings {
            refresh_interval: Duration::from_secs(60),
            colors: true,
            emoji: true,
            notification_cooldown: Duration::from_secs(300),
            git_path: None,
            watcher_debounce: None,
            on_conflict: OnConflict::Auto,
            resolve_agent: None,
            resolve_agent_path: None,
        }
    }
}

/// A `config.toml` with nothing in it gives the defaults.
pub proof fn law_empty_config_is_default(settings: GlobalSettings, raw: RawConfigToml)
    requires
        settings.settings_of(raw),
        raw.refresh_interval is None,
        raw.colors is None,
        raw.emoji is None,
        raw.notification_cooldown is None,
        raw.git_path is None,
        raw.watcher_debounce is None,
        raw.on_conflict is None,
        raw.resolve_agent is None,
        raw.resolve_agent_path is None,
    ensures
        settings.is_default(),
{
}

// ---------------------------------------------------------------------------
// Repos
// ---------------------------------------------------------------------------

/// What `repos.toml` says of a repo.
#[derive(Debug, Clone)]
pub struct RepoConfig {
    pub refresh_interval: Option<Duration>,
    pub disabled: Option<Disabled>,
}

/// What a `RepoConfig` says.
pub struct RepoConfigView {
    pub refresh_interval: Option<Duration>,
    pub disabled: Option<DisabledView>,
}

impl RepoConfigView {
    /// Whether the repo is disabled.
    pub open spec fn repo_disabled(self) -> bool {
        self.disabled matches Some(d) && d.repo()
    }

    /// Whether `remote` is disabled.
    pub open spec fn remote_disabled(self, remote: Seq<char>) -> bool {
        self.disabled matches Some(d) && d.remote(remote)
    }
}

impl View for RepoConfig {
    type V = RepoConfigView;

    open spec fn view(&self) -> RepoConfigView {
        RepoConfigView {
            refresh_interval: self.refresh_interval,
            disabled: match self.disabled {
                Some(d) => Some(d@),
                None => None,
            },
        }
    }
}

/// The entry of a repo that nothing has been said of.
pub open spec fn blank_entry() -> RepoConfigView {
    RepoConfigView { refresh_interval: None, disabled: None }
}

impl Default for RepoConfig {
    fn default() -> (r: RepoConfig)
        ensures
            r@ == blank_entry(),
    {
        RepoConfig { refresh_interval: None, disabled: None }
    }
}

/// What `enable_remote` makes of an entry.
pub open spec fn with_remote_enabled(entry: RepoConfigView, name: Seq<char>) -> RepoConfigView {
    match entry.disabled {
        Some(DisabledView::Remotes(list)) => RepoConfigView {
            disabled: Some(
                if without(list, name).len() == 0 {
                    DisabledView::All(false)
                } else {
                    DisabledView::Remotes(without(list, name))
                },
            ),
            ..entry
        },
        _ => entry,
    }
}

/// What `disable_remote` makes of an entry.
pub open spec fn with_remote_disabled(entry: RepoConfigView, name: Seq<char>) -> RepoConfigView {
    RepoConfigView {
        disabled: Some(
            match entry.disabled {
                Some(DisabledView::Remotes(list)) => if list.contains(name) {
                    DisabledView::Remotes(list)
                } else {
                    DisabledView::Remotes(list.push(name))
                },
                _ => DisabledView::Remotes(seq![name]),
            },
        ),
        ..entry
    }
}

/// The remotes of `list` other than `name`.
fn drop_remote(list: &Vec<String>, name: &str) -> (r: Vec<String>)
    ensures
        views(r@) == without(views(list@), name@),
{
    let mut out: Vec<String> = Vec::new();
    let mut i: usize = 0;
    let ghost all = views(list@);
    assert(without(all.take(0), name@) =~= views(out@));
    while i < list.len()
        invariant
            i <= list@.len(),
            all == views(list@),
            views(out@) == without(all.take(i as int), name@),
        decreases list.len() - i,
    {
        let ghost t = all.take(i + 1);
        assert(t.drop_last() =~= all.take(i as int));
        assert(t.last() == list@[i as int]@);
        let ghost was = out@;
        if !text_eq(list[i].as_str(), name) {
            out.push(String::from_str(list[i].as_str()));
            assert(views(out@) =~= views(was).push(t.last()));
        }
        i = i + 1;
    }
    assert(all.take(i as int) =~= all);
    out
}

impl RepoConfig {
    /// The same entry again.
    pub fn duplicate(&self) -> (r: RepoConfig)
        ensures
            r@ == self@,
    {
        RepoConfig {
            refresh_interval: self.refresh_interval,
            disabled: match &self.disabled {
                Some(d) => Some(d.duplicate()),
                None => None,
            },
        }
    }

    /// Takes `name` out of the disabled remotes. With the last one gone the
    /// repo is enabled.
    pub fn enable_remote(&mut self, name: &str)
        ensures
            final(self)@ == with_remote_enabled(old(self)@, name@),
    {
        let next = match &self.disabled {
            Some(Disabled::Remotes(list)) => {
                let kept = drop_remote(list, name);
                if kept.len() == 0 {
                    Some(Disabled::All(false))
                } else {
                    Some(Disabled::Remotes(kept))
                }
            },
            _ => {
                return ;
            },
        };
        self.disabled = next;
    }

    /// Puts `name` among the disabled remotes.
    pub fn disable_remote(&mut self, name: &str)
        ensures
            final(self)@ == with_remote_disabled(old(self)@, name@),
    {
        let next = match &self.disabled {
            Some(Disabled::Remotes(list)) => {
                if list_contains(list, name) {
                    return ;
                }
                let mut longer = clone_list(list);
                let ghost was = longer@;
                longer.push(String::from_str(name));
                assert(views(longer@) =~= views(was).push(name@));
                longer
            },
            _ => {
                let mut only: Vec<String> = Vec::new();
                only.push(String::from_str(name));
                assert(views(only@) =~= seq![name@]);
                only
            },
        };
        self.disabled = Some(Disabled::Remotes(next));
    }

    /// Enables or disables the whole repo.
    pub fn set_disabled(&mut self, disabled: bool)
        ensures
            final(self)@ == (RepoConfigView {
                disabled: Some(DisabledView::All(disabled)),
                ..old(self)@
            }),
    {
        self.disabled = Some(Disabled::All(disabled));
    }
}

/// Enabling a remote enables that remote and no other, unless the whole repo
/// is disabled.
pub proof fn law_enable_remote(entry: RepoConfigView, name: Seq<char>, remote: Seq<char>)
    requires
        !entry.repo_disabled(),
    ensures
        with_remote_enabled(entry, name).remote_disabled(remote) <==> entry.remote_disabled(remote)
            && remote != name,
        !with_remote_enabled(entry, name).repo_disabled(),
{
    if let Some(DisabledView::Remotes(list)) = entry.disabled {
        lemma_without(list, name, remote);
        let left = without(list, name);
        if left.len() == 0 {
            assert(!left.contains(remote));
        }
    }
}

/// Disabling a remote disables that remote and no other, unless the whole repo
/// is disabled.
pub proof fn law_disable_remote(entry: RepoConfigView, name: Seq<char>, remote: Seq<char>)
    requires
        !entry.repo_disabled(),
    ensures
        with_remote_disabled(entry, name).remote_disabled(remote) <==> entry.remote_disabled(remote)
            || remote == name,
        !with_remote_disabled(entry, name).repo_disabled(),
{
    match entry.disabled {
        Some(DisabledView::Remotes(list)) => {
            lemma_push_contains(list, name, remote);
        },
        _ => {
            assert(seq![name][0] == name);
            if seq![name].contains(remote) {
                let i = choose|i: int| 0 <= i < seq![name].len() && seq![name][i] == remote;
                assert(seq![name][i] == name);
            }
        },
    }
}

/// What the in-repo config says.
#[derive(Debug, Clone)]
pub struct InRepoConfig {
    pub refresh_interval: Option<Duration>,
}

// ---------------------------------------------------------------------------
// The merged configuration
// ---------------------------------------------------------------------------

#[derive(Debug)]
pub struct UserConfig {
    pub global: GlobalSettings,
    pub trusted_hosts: HostSet,
    pub repos: Table<RepoConfig>,
}

impl Default for UserConfig {
    fn default() -> (r: UserConfig)
        ensures
            r.global.is_default(),
            r.trusted_hosts@ == Set::<Seq<char>>::empty(),
            r.repos@ == Map::<Seq<char>, RepoConfig>::empty(),
    {
        UserConfig {
            global: GlobalSettings::default(),
            trusted_hosts: HostSet::new(),
            repos: Table::new(),
        }
    }
}

/// The hosts that a `trusted_hosts` file names. A missing file names none.
pub open spec fn hosts_of_file(text: Option<&str>) -> Set<Seq<char>> {
    match text {
        Some(text) => hosts_in(text@).to_set(),
        None => Set::empty(),
    }
}

/// What `repos.toml` says of a repo, or a blank entry.
pub open spec fn entry_of(repos: Map<Seq<char>, RepoConfig>, repo_id: Seq<char>) -> RepoConfigView {
    if repos.contains_key(repo_id) {
        repos[repo_id]@
    } else {
        blank_entry()
    }
}

impl UserConfig {
    /// Whether the repo at `path` is disabled.
    pub open spec fn repo_disabled(self, path: Seq<char>) -> bool {
        self.repos@.contains_key(path) && self.repos@[path]@.repo_disabled()
    }

    /// Whether the remote `name` of the repo at `path` is disabled.
    pub open spec fn remote_disabled(self, path: Seq<char>, name: Seq<char>) -> bool {
        self.repos@.contains_key(path) && self.repos@[path]@.remote_disabled(name)
    }

    /// Whether the URL of a remote is trusted.
    pub open spec fn remote_trusted(self, url: Seq<char>) -> bool {
        ||| url.len() == 0
        ||| has_prefix(url, "file://"@)
        ||| (url_host(url) matches Some(host) && self.trusted_hosts@.contains(host))
    }

    /// The refresh interval of a repo: the one that the user set for it, else
    /// the one that the repo asks for, else the global one.
    pub open spec fn refresh_interval_of(
        self,
        path: Seq<char>,
        in_repo: Option<Duration>,
    ) -> Duration {
        if self.repos@.contains_key(path) && self.repos@[path].refresh_interval is Some {
            self.repos@[path].refresh_interval->0
        } else if in_repo is Some {
            in_repo->0
        } else {
            self.global.refresh_interval
        }
    }

    /// Merges what the three files hold. What is missing has its defaults.
    pub fn load(
        config: Option<RawConfigToml>,
        trusted_hosts: Option<&str>,
        repos: Option<Table<RepoConfig>>,
    ) -> (r: UserConfig)
        ensures
            match config {
                Some(raw) => r.global.settings_of(raw),
                None => r.global.is_default(),
            },
            r.trusted_hosts@ == hosts_of_file(trusted_hosts),
            match repos {
                Some(table) => r.repos == table,
                None => r.repos@ == Map::<Seq<char>, RepoConfig>::empty(),
            },
    {
        let global = match config {
            Some(raw) => GlobalSettings::from_raw(raw),
            None => GlobalSettings::default(),
        };
        let hosts = match trusted_hosts {
            Some(text) => parse_hosts(text),
            None => HostSet::new(),
        };
        let table = match repos {
            Some(table) => table,
            None => Table::new(),
        };
        UserConfig { global, trusted_hosts: hosts, repos: table }
    }

    /// The `trusted_hosts` file with `host` added, given the file as it is.
    pub fn trust(file: Option<&str>, host: &str) -> (r: String)
        ensures
            is_host_file(r@, hosts_of_file(file).insert(host@)),
    {
        let mut hosts = match file {
            Some(text) => parse_hosts(text),
            None => HostSet::new(),
        };
        let _new = hosts.insert(String::from_str(host));
        format_hosts(&hosts)
    }

    /// The `trusted_hosts` file with `host` removed, given the file as it is.
    pub fn untrust(file: Option<&str>, host: &str) -> (r: String)
        ensures
            is_host_file(r@, hosts_of_file(file).remove(host@)),
    {
        let mut hosts = match file {
            Some(text) => parse_hosts(text),
            None => HostSet::new(),
        };
        let _there = hosts.remove(host);
        format_hosts(&hosts)
    }

    /// The entry of a repo as it stands, or a blank one.
    pub fn repo_entry(repos: &Table<RepoConfig>, repo_id: &str) -> (r: RepoConfig)
        ensures
            r@ == entry_of(repos@, repo_id@),
    {
        match repos.get(repo_id) {
            Some(entry) => entry.duplicate(),
            None => RepoConfig::default(),
        }
    }

    /// Puts an edited entry back into `repos.toml`.
    pub fn update_repo(repos: &mut Table<RepoConfig>, repo_id: &str, entry: RepoConfig)
        ensures
            final(repos)@ == old(repos)@.insert(repo_id@, entry),
            final(repos).keys() == (if old(repos)@.contains_key(repo_id@) {
                old(repos).keys()
            } else {
                old(repos).keys().push(repo_id@)
            }),
    {
        repos.insert(String::from_str(repo_id), entry);
    }

    /// Removes a repo entry from `repos.toml`.
    pub fn remove_repo(repos: &mut Table<RepoConfig>, repo_id: &str)
        ensures
            final(repos)@ == old(repos)@.remove(repo_id@),
            final(repos).keys() == without(old(repos).keys(), repo_id@),
    {
        let _gone = repos.remove(repo_id);
    }

    /// Check whether a host is trusted.
    pub fn is_host_trusted(&self, host: &str) -> (r: bool)
        ensures
            r == self.trusted_hosts@.contains(host@),
    {
        self.trusted_hosts.contains(host)
    }

    /// Check whether a remote URL is trusted.
    ///
    /// Local `file://` URLs are always trusted. Empty URLs (no remote) are trusted.
    /// For everything else, the host must appear in `trusted_hosts`.
    pub fn is_remote_trusted(&self, remote_url: &str) -> (r: bool)
        ensures
            r == self.remote_trusted(remote_url@),
    {
        if remote_url.is_empty() || starts_with(remote_url, "file://") {
            return true;
        }
        match extract_host(remote_url) {
            Some(host) => self.is_host_trusted(host.as_str()),
            None => false,
        }
    }

    /// Check whether a specific remote is disabled in per-repo config.
    pub fn is_remote_disabled(&self, repo_path: &str, remote_name: &str) -> (r: bool)
        ensures
            r == self.remote_disabled(repo_path@, remote_name@),
    {
        match self.repos.get(repo_path) {
            Some(entry) => match &entry.disabled {
                Some(d) => d.is_remote_disabled(remote_name),
                None => false,
            },
            None => false,
        }
    }

    /// Check if a repo is explicitly disabled in user config.
    pub fn is_repo_disabled(&self, repo_path: &str) -> (r: bool)
        ensures
            r == self.repo_disabled(repo_path@),
    {
        match self.repos.get(repo_path) {
            Some(entry) => match &entry.disabled {
                Some(d) => d.is_repo_disabled(),
                None => false,
            },
            None => false,
        }
    }

    /// Get the effective refresh interval for a repo.
    /// User per-repo > in-repo > global.
    pub fn effective_refresh_interval(
        &self,
        repo_path: &str,
        in_repo_config: Option<&InRepoConfig>,
    ) -> (r: Duration)
        ensures
            r == self.refresh_interval_of(
                repo_path@,
                match in_repo_config {
                    Some(c) => c.refresh_interval,
                    None => None,
                },
            ),
    {
        if let Some(entry) = self.repos.get(repo_path) {
            if let Some(d) = entry.refresh_interval {
                return d;
            }
        }
        if let Some(in_repo) = in_repo_config {
            if let Some(d) = in_repo.refresh_interval {
                return d;
            }
        }
        self.global.refresh_interval
    }
}

/// A host that was trusted is trusted when the file is read again, and so is
/// every host that was trusted before, and no other.
pub proof fn law_trust_is_read_back(file: Option<&str>, host: Seq<char>, written: Seq<char>)
    requires
        clean(host),
        is_host_file(written, hosts_of_file(file).insert(host)),
    ensures
        hosts_in(written).to_set() == hosts_of_file(file).insert(host),
{
    if let Some(text) = file {
        law_read_hosts_are_clean(text@);
    }
    law_written_hosts_are_read_back(written, hosts_of_file(file).insert(host));
}

/// A host that was untrusted is not trusted when the file is read again, and
/// every other host is trusted as before.
pub proof fn law_untrust_is_read_back(file: Option<&str>, host: Seq<char>, written: Seq<char>)
    requires
        is_host_file(written, hosts_of_file(file).remove(host)),
    ensures
        hosts_in(written).to_set() == hosts_of_file(file).remove(host),
{
    if let Some(text) = file {
        law_read_hosts_are_clean(text@);
    }
    law_written_hosts_are_read_back(written, hosts_of_file(file).remove(host));
}

// ---------------------------------------------------------------------------
// Files managed by nix
// ---------------------------------------------------------------------------

/// The refusal to edit a file that is a symlink into the nix store. `target` is
/// where the file links to, if it is a symlink that can be read.
pub fn check_nix_managed(path: &str, target: Option<&str>) -> (r: Result<(), String>)
    ensures
        match r {
            Ok(()) => target matches Some(t) ==> !has_prefix(t@, "/nix/store/"@),
            Err(m) => target matches Some(t) && has_prefix(t@, "/nix/store/"@) && m@ == path@
                + " is managed by nix (symlink to "@ + t@
                + "). Edit your nix configuration instead."@,
        },
{
    if let Some(t) = target {
        if starts_with(t, "/nix/store/") {
            let mut m = String::from_str(path);
            m.append(" is managed by nix (symlink to ");
            m.append(t);
            m.append("). Edit your nix configuration instead.");
            return Err(m);
        }
    }
    Ok(())
}

// ---------------------------------------------------------------------------
// URL helpers
// ---------------------------------------------------------------------------

/// What stands behind the scheme of a URL, if it has one of the known schemes.
pub open spec fn after_scheme(url: Seq<char>) -> Option<Seq<char>> {
    if has_prefix(url, "https://"@) {
        Some(url.skip("https://"@.len() as int))
    } else if has_prefix(url, "http://"@) {
        Some(url.skip("http://"@.len() as int))
    } else if has_prefix(url, "ssh://"@) {
        Some(url.skip("ssh://"@.len() as int))
    } else if has_prefix(url, "git://"@) {
        Some(url.skip("git://"@.len() as int))
    } else {
        None
    }
}

/// What is left without a `user@` in front of the host.
pub open spec fn after_user(rest: Seq<char>) -> Seq<char> {
    if first_index(rest, '@') < first_index(rest, '/') {
        behind(rest, '@')
    } else {
        rest
    }
}

/// The host of a URL: behind a scheme and an optional user, up to the path and
/// without a port; or, without a scheme, what stands between the first `@` and
/// the next `:` and holds no `/`.
pub open spec fn url_host(url: Seq<char>) -> Option<Seq<char>> {
    match after_scheme(url) {
        Some(rest) => {
            let host = before(before(after_user(rest), '/'), ':');
            if host.len() == 0 {
                None
            } else {
                Some(host)
            }
        },
        None => {
            let rest = behind(url, '@');
            let host = before(rest, ':');
            if url.contains('@') && rest.contains(':') && host.len() > 0 && !host.contains('/') {
                Some(host)
            } else {
                None
            }
        },
    }
}

/// What `before` cuts off holds no cutting character and only what was there.
proof fn lemma_before(s: Seq<char>, c: char)
    ensures
        !before(s, c).contains(c),
        forall|d: char| before(s, c).contains(d) ==> s.contains(d),
{
    lemma_first_index(s, c);
    let b = before(s, c);
    if b.contains(c) {
        let i = choose|i: int| 0 <= i < b.len() && b[i] == c;
        assert(s[i] == c);
    }
    assert forall|d: char| b.contains(d) implies s.contains(d) by {
        let i = choose|i: int| 0 <= i < b.len() && b[i] == d;
        assert(s[i] == d);
    }
}

/// A host is never empty, and holds neither a path nor a port.
pub proof fn law_host_is_bare(url: Seq<char>)
    ensures
        url_host(url) matches Some(host) ==> host.len() > 0 && !host.contains('/')
            && !host.contains(':'),
{
    match after_scheme(url) {
        Some(rest) => {
            lemma_before(after_user(rest), '/');
            lemma_before(before(after_user(rest), '/'), ':');
        },
        None => {
            lemma_before(behind(url, '@'), ':');
        },
    }
}

/// The host of a URL that stands behind its scheme.
fn scheme_host(rest: &str) -> (r: Option<String>)
    ensures
        view_opt(r) == ({
            let host = before(before(after_user(rest@), '/'), ':');
            if host.len() == 0 {
                None
            } else {
                Some(host)
            }
        }),
{
    let cs = chars_of(rest);
    let at = find_char(&cs, 0, '@');
    let slash = find_char(&cs, 0, '/');
    assert(cs@.skip(0) =~= cs@);
    let start: usize = if at < slash {
        at + 1
    } else {
        0
    };
    let ghost tail = after_user(rest@);
    assert(tail =~= cs@.skip(start as int));
    let path = find_char(&cs, start, '/');
    let host_port = string_of(&cs, start, path);
    assert(host_port@ =~= before(tail, '/'));
    let hs = chars_of(host_port.as_str());
    let colon = find_char(&hs, 0, ':');
    assert(hs@.skip(0) =~= hs@);
    let host = string_of(&hs, 0, colon);
    assert(host@ =~= before(before(tail, '/'), ':'));
    if colon == 0 {
        None
    } else {
        Some(host)
    }
}

/// The host of a URL without a scheme.
fn scp_host(url: &str) -> (r: Option<String>)
    ensures
        view_opt(r) == ({
            let rest = behind(url@, '@');
            let host = before(rest, ':');
            if url@.contains('@') && rest.contains(':') && host.len() > 0 && !host.contains('/') {
                Some(host)
            } else {
                None
            }
        }),
{
    let cs = chars_of(url);
    assert(cs@.skip(0) =~= cs@);
    let at = find_char(&cs, 0, '@');
    proof {
        lemma_first_index(url@, '@');
        lemma_first_index(behind(url@, '@'), ':');
        lemma_first_index(before(behind(url@, '@'), ':'), '/');
    }
    if at == cs.len() {
        return None;
    }
    let ghost rest = behind(url@, '@');
    assert(rest =~= cs@.skip(at + 1));
    let colon = find_char(&cs, at + 1, ':');
    if colon == cs.len() {
        return None;
    }
    let host = string_of(&cs, at + 1, colon);
    assert(host@ =~= before(rest, ':'));
    let hs = chars_of(host.as_str());
    assert(hs@.skip(0) =~= hs@);
    let slash = find_char(&hs, 0, '/');
    if hs.len() > 0 && slash == hs.len() {
        Some(host)
    } else {
        None
    }
}

/// Extract the hostname from a git remote URL.
///
/// Handles:
///  - `git@github.com:user/repo.git` (SSH)
///  - `ssh://git@github.com/user/repo.git`
///  - `https://github.com/user/repo.git`
///  - `http://github.com/user/repo.git`
///  - `git://github.com/user/repo.git`
pub fn extract_host(remote_url: &str) -> (r: Option<String>)
    ensures
        view_opt(r) == url_host(remote_url@),
{
    if let Some(rest) = strip_prefix(remote_url, "https://") {
        return scheme_host(rest.as_str());
    }
    if let Some(rest) = strip_prefix(remote_url, "http://") {
        return scheme_host(rest.as_str());
    }
    if let Some(rest) = strip_prefix(remote_url, "ssh://") {
        return scheme_host(rest.as_str());
    }
    if let Some(rest) = strip_prefix(remote_url, "git://") {
        return scheme_host(rest.as_str());
    }
    scp_host(remote_url)
}

// ---------------------------------------------------------------------------
// What the configuration says
// ---------------------------------------------------------------------------

/// A repo is disabled exactly by its own flag. A remote is disabled with its repo, or
/// by its name in the list of the repo, and not by what is said of another repo.
pub proof fn law_what_is_disabled(config: UserConfig, path: Seq<char>, name: Seq<char>)
    ensures
        !config.repos@.contains_key(path) ==> !config.repo_disabled(path)
            && !config.remote_disabled(path, name),
        config.repos@.contains_key(path) ==> match config.repos@[path].disabled {
            None => !config.repo_disabled(path) && !config.remote_disabled(path, name),
            Some(Disabled::All(all)) => config.repo_disabled(path) == all
                && config.remote_disabled(path, name) == all,
            Some(Disabled::Remotes(list)) => !config.repo_disabled(path)
                && config.remote_disabled(path, name) == exists|i: int|
                0 <= i < list@.len() && (#[trigger] list@[i])@ == name,
        },
{
    if config.repos@.contains_key(path) {
        if let Some(Disabled::Remotes(list)) = config.repos@[path].disabled {
            let names = views(list@);
            assert(names.len() == list@.len());
            assert(forall|i: int| 0 <= i < list@.len() ==> names[i] == (#[trigger] list@[i])@);
            if names.contains(name) {
                let i = choose|i: int| 0 <= i < names.len() && names[i] == name;
                assert(list@[i]@ == name);
            }
            if exists|i: int| 0 <= i < list@.len() && (#[trigger] list@[i])@ == name {
                let i = choose|i: int| 0 <= i < list@.len() && (#[trigger] list@[i])@ == name;
                assert(names[i] == name);
            }
        }
    }
}

/// Enabling and disabling a remote leaves the interval of the repo alone. The names
/// that stay in the list stay in their order, a new one comes last, and a list that
/// would be empty becomes the flag that nothing is disabled.
pub proof fn law_other_settings_stay(entry: RepoConfigView, list: Seq<Seq<char>>, name: Seq<char>)
    ensures
        with_remote_enabled(entry, name).refresh_interval == entry.refresh_interval,
        with_remote_disabled(entry, name).refresh_interval == entry.refresh_interval,
        !(entry.disabled matches Some(d) && d is Remotes) ==> with_remote_enabled(entry, name)
            == entry,
        entry.disabled == Some(DisabledView::Remotes(list)) ==> {
            &&& list.contains(name) ==> with_remote_disabled(entry, name) == entry
            &&& !list.contains(name) ==> with_remote_disabled(entry, name).disabled == Some(
                DisabledView::Remotes(list + seq![name]),
            )
            &&& without(list, name).len() > 0 ==> with_remote_enabled(entry, name).disabled
                == Some(DisabledView::Remotes(without(list, name)))
            &&& without(list, name).len() == 0 ==> with_remote_enabled(entry, name).disabled
                == Some(DisabledView::All(false))
        },
        !(entry.disabled matches Some(d) && d is Remotes) ==> with_remote_disabled(
            entry,
            name,
        ).disabled == Some(DisabledView::Remotes(seq![name])),
{
    assert(list.push(name) =~= list + seq![name]);
}

/// The interval of a repo is the user's own for that repo, else the one that the repo
/// asks for, else the user's for all.
pub proof fn law_interval_is_the_most_specific(
    config: UserConfig,
    path: Seq<char>,
    in_repo: Option<Duration>,
    d: Duration,
)
    ensures
        config.repos@.contains_key(path) && config.repos@[path].refresh_interval == Some(d)
            ==> config.refresh_interval_of(path, in_repo) == d,
        !config.repos@.contains_key(path) || config.repos@[path].refresh_interval is None ==> {
            &&& in_repo == Some(d) ==> config.refresh_interval_of(path, in_repo) == d
            &&& in_repo is None ==> config.refresh_interval_of(path, in_repo)
                == config.global.refresh_interval
        },
{
}

/// What a file sets is taken over, and what it leaves out has its default: a sync each
/// minute, a notification each five minutes, colors, emoji, and the automatic policy.
pub proof fn law_settings_are_taken_over(settings: GlobalSettings, raw: RawConfigToml)
    requires
        settings.settings_of(raw),
    ensures
        raw.refresh_interval matches Some(d) ==> settings.refresh_interval@ == d@,
        raw.refresh_interval is None ==> settings.refresh_interval@ == 60_000_000_000,
        raw.colors matches Some(b) ==> settings.colors == b,
        raw.colors is None ==> settings.colors,
        raw.emoji matches Some(b) ==> settings.emoji == b,
        raw.emoji is None ==> settings.emoji,
        raw.notification_cooldown matches Some(d) ==> settings.notification_cooldown@ == d@,
        raw.notification_cooldown is None ==> settings.notification_cooldown@ == 300_000_000_000,
        settings.git_path == raw.git_path,
        settings.watcher_debounce == raw.watcher_debounce,
        settings.resolve_agent == raw.resolve_agent,
        settings.resolve_agent_path == raw.resolve_agent_path,
        raw.on_conflict is None ==> settings.on_conflict is Auto,
        raw.on_conflict matches Some(p) ==> {
            &&& p@ == "revert"@ <==> settings.on_conflict is Revert
            &&& p@ == "leave"@ <==> settings.on_conflict is Leave
            &&& p@ == "resolve-agent"@ <==> settings.on_conflict is ResolveAgent
        },
{
    reveal_strlit("revert");
    reveal_strlit("leave");
    reveal_strlit("resolve-agent");
    assert("revert"@.len() == 6);
    assert("leave"@.len() == 5);
    assert("resolve-agent"@.len() == 13);
}

/// The entry of a repo is the one that is kept, or a blank one.
pub proof fn law_unknown_repo_has_a_blank_entry(
    repos: Map<Seq<char>, RepoConfig>,
    repo_id: Seq<char>,
)
    ensures
        repos.contains_key(repo_id) ==> entry_of(repos, repo_id).refresh_interval
            == repos[repo_id].refresh_interval && (entry_of(repos, repo_id).disabled is None
            <==> repos[repo_id].disabled is None),
        !repos.contains_key(repo_id) ==> entry_of(repos, repo_id).refresh_interval is None
            && entry_of(repos, repo_id).disabled is None,
{
}

// ---------------------------------------------------------------------------
// What durations say
// ---------------------------------------------------------------------------

/// A number with a unit is that many milliseconds, seconds, minutes or hours, with or
/// without white space around it.
pub proof fn law_durations_are_read(
    n: u64,
    unit: Seq<char>,
    front: Seq<char>,
    back: Seq<char>,
    r: Result<Duration, DurationError>,
)
    requires
        unit == "ms"@ || unit == "s"@ || unit == "m"@ || unit == "h"@,
        is_blank(front),
        is_blank(back),
        is_duration_result(front + (decimal(n as nat) + unit) + back, r),
    ensures
        r matches Ok(d) && {
            &&& unit == "ms"@ ==> d@ == n * 1_000_000
            &&& unit == "s"@ ==> d@ == n * 1_000_000_000
            &&& unit == "m"@ ==> d@ == n * 60_000_000_000
            &&& unit == "h"@ ==> d@ == n * 3_600_000_000_000
        },
{
    lemma_digits_and_unit(n, unit);
    lemma_number_of_decimal(n);
    lemma_units();
    lemma_decimal(n as nat);
    let t = decimal(n as nat) + unit;
    assert(is_digit(decimal(n as nat)[0]));
    assert(t[0] == decimal(n as nat)[0]);
    assert(t.last() == unit.last());
    law_trim_takes_the_white_space(front, t, back);
    assert(seq!['m'][0] == 'm' && seq!['h'][0] == 'h' && seq!['s'][0] == 's');
    assert("ms"@.len() == 2);
    assert(unit_nanos("ms"@) == Some(1_000_000nat));
    assert(unit_nanos("s"@) == Some(1_000_000_000nat));
    assert(unit_nanos("m"@) == Some(60_000_000_000nat));
    assert(unit_nanos("h"@) == Some(3_600_000_000_000nat));
}

/// What is no duration is told apart: nothing at all, something else than a number, or
/// a number with another unit.
pub proof fn law_other_durations_are_refused(
    n: u64,
    text: Seq<char>,
    unit: char,
    i: int,
    r: Result<Duration, DurationError>,
)
    ensures
        is_blank(text) && is_duration_result(text, r) ==> r == Err::<Duration, DurationError>(
            DurationError::Empty,
        ),
        text == decimal(n as nat) + seq![unit] && !is_space(unit) && unit != 's' && unit != 'm'
            && unit != 'h' && is_duration_result(text, r) ==> (r matches Err(
            DurationError::UnknownUnit(u),
        ) && u@ == seq![unit]),
        text.len() > 1 && !is_space(text[0]) && !is_space(text.last()) && 0 <= i < text.len() - 2
            && !is_digit(text[i]) && text[i] != '+' && is_duration_result(text, r) ==> r == Err::<
            Duration,
            DurationError,
        >(DurationError::InvalidNumber),
{
    lemma_units();
    let none = Seq::<char>::empty();
    if is_blank(text) {
        law_trim_takes_the_white_space(text, none, none);
        assert(text + none + none =~= text);
    }
    if text == decimal(n as nat) + seq![unit] && !is_space(unit) && unit != 's' && unit != 'm'
        && unit != 'h' {
        let d = decimal(n as nat);
        lemma_decimal(n as nat);
        lemma_number_of_decimal(n);
        assert(is_digit(d[0]));
        assert(text[0] == d[0]);
        assert(text.last() == unit);
        assert(trimmed(text) == text);
        if has_suffix(text, "ms"@) {
            assert(text.subrange(text.len() - 2, text.len() as int)[1] == 's');
        }
        assert(text.drop_last() =~= d);
        assert(seq![unit][0] == unit);
        assert(seq!['m'][0] == 'm' && seq!['h'][0] == 'h' && seq!['s'][0] == 's');
        assert("ms"@.len() == 2);
    }
    if text.len() > 1 && !is_space(text[0]) && !is_space(text.last()) && 0 <= i < text.len() - 2
        && !is_digit(text[i]) && text[i] != '+' {
        assert(trimmed(text) == text);
        let num = duration_number(text);
        assert(num[i] == text[i]);
        law_numbers_are_read(0, num, i);
    }
}

/// A duration is written in the largest unit that it is made of: whole hours, else
/// whole minutes, else seconds; and in milliseconds below a second.
pub proof fn law_durations_are_written_in_the_largest_unit(nanos: nat, n: nat)
    ensures
        nanos / 1_000_000_000 == 3600 * n && n > 0 ==> duration_text(nanos) == decimal(n) + "h"@,
        nanos / 1_000_000_000 == 60 * n && n % 60 != 0 ==> duration_text(nanos) == decimal(n)
            + "m"@,
        nanos / 1_000_000_000 == n && n % 60 != 0 ==> duration_text(nanos) == decimal(n) + "s"@,
        nanos < 1_000_000_000 && nanos / 1_000_000 == n ==> duration_text(nanos) == decimal(n)
            + "ms"@,
{
    let secs = nanos / 1_000_000_000;
    if secs == 3600 * n {
        assert((3600 * n) % 3600 == 0 && (3600 * n) / 3600 == n);
    }
    if secs == 60 * n && n % 60 != 0 {
        assert((60 * n) % 60 == 0 && (60 * n) / 60 == n);
        assert((60 * n) % 3600 != 0) by {
            if (60 * n) % 3600 == 0 {
                let k = (60 * n) / 3600;
                assert(60 * n == 3600 * k);
                assert(n == 60 * k);
            }
        }
    }
    if secs == n && n % 60 != 0 {
        assert(n % 3600 != 0) by {
            if n % 3600 == 0 {
                let k = n / 3600;
                assert(n == 3600 * k);
                assert(n == 60 * (60 * k));
                assert((60 * (60 * k)) % 60 == 0);
            }
        }
    }
}

// ---------------------------------------------------------------------------
// Which hosts are trusted
// ---------------------------------------------------------------------------

/// Whether `scheme` begins a URL with a host.
pub open spec fn is_scheme(scheme: Seq<char>) -> bool {
    ||| scheme == "https://"@
    ||| scheme == "http://"@
    ||| scheme == "ssh://"@
    ||| scheme == "git://"@
}

proof fn lemma_after_scheme(scheme: Seq<char>, rest: Seq<char>)
    requires
        is_scheme(scheme),
    ensures
        after_scheme(scheme + rest) == Some(rest),
        !has_prefix(scheme + rest, "file://"@),
        (scheme + rest).len() > 0,
{
    reveal_strlit("https://");
    reveal_strlit("http://");
    reveal_strlit("ssh://");
    reveal_strlit("git://");
    reveal_strlit("file://");
    let url = scheme + rest;
    assert(url.subrange(0, scheme.len() as int) =~= scheme);
    assert(url.skip(scheme.len() as int) =~= rest);
    assert(url[0] == scheme[0] && url[4] == scheme[4] && url[0] != 'f');
    if has_prefix(url, "file://"@) {
        assert(url.subrange(0, 7)[0] == 'f');
    }
    if has_prefix(url, "https://"@) && scheme != "https://"@ {
        assert(url.subrange(0, 8)[4] == 's');
        assert(url.subrange(0, 8)[0] == 'h');
    }
    if has_prefix(url, "http://"@) && scheme != "https://"@ && scheme != "http://"@ {
        assert(url.subrange(0, 7)[0] == 'h');
    }
    if has_prefix(url, "ssh://"@) && scheme == "git://"@ {
        assert(url.subrange(0, 6)[0] == 's');
    }
}

/// A remote by URL is trusted exactly if its host is: the user before the host, the
/// port behind it and the path do not matter.
pub proof fn law_url_is_trusted_by_its_host(
    config: UserConfig,
    scheme: Seq<char>,
    user: Option<Seq<char>>,
    host: Seq<char>,
    port: Option<Seq<char>>,
    path: Seq<char>,
)
    requires
        is_scheme(scheme),
        user matches Some(u) ==> !u.contains('@') && !u.contains('/'),
        host.len() > 0 && !host.contains('@') && !host.contains('/') && !host.contains(':'),
        port matches Some(p) ==> !p.contains('@') && !p.contains('/'),
        path.len() == 0 || path[0] == '/',
    ensures
        ({
            let url = scheme + ((match user {
                Some(u) => u + seq!['@'],
                None => Seq::empty(),
            }) + (host + (match port {
                Some(p) => seq![':'] + p,
                None => Seq::empty(),
            }) + path));
            &&& url_host(url) == Some(host)
            &&& config.remote_trusted(url) <==> config.trusted_hosts@.contains(host)
        }),
{
    let before_host = match user {
        Some(u) => u + seq!['@'],
        None => Seq::<char>::empty(),
    };
    let after_host = match port {
        Some(p) => seq![':'] + p,
        None => Seq::<char>::empty(),
    };
    let tail = host + after_host + path;
    let rest = before_host + tail;
    let url = scheme + rest;
    lemma_after_scheme(scheme, rest);
    let inner = host + after_host;
    assert(forall|i: int| 0 <= i < host.len() ==> host.contains(#[trigger] host[i]));
    if let Some(p) = port {
        assert(forall|i: int| 0 <= i < p.len() ==> p.contains(#[trigger] p[i]));
    }
    assert forall|i: int| 0 <= i < inner.len() implies inner[i] != '/' && inner[i] != '@' by {
        if i < host.len() {
            assert(inner[i] == host[i]);
        } else if let Some(p) = port {
            if i > host.len() {
                assert(inner[i] == p[i - host.len() - 1]);
            }
        }
    }
    // Nothing but the host is left of the part before the path.
    assert forall|i: int| 0 <= i < inner.len() implies tail[i] != '/' && tail[i] != '@' by {
        assert(tail[i] == inner[i]);
    }
    if path.len() > 0 {
        assert(tail[inner.len() as int] == path[0]);
    }
    lemma_first_index_unique(tail, '/', inner.len() as int);
    assert(before(tail, '/') =~= inner);
    assert forall|i: int| 0 <= i < host.len() implies inner[i] != ':' by {
        assert(inner[i] == host[i]);
    }
    lemma_first_index_unique(inner, ':', host.len() as int);
    assert(before(inner, ':') =~= host);
    // The user goes, if there is one.
    lemma_first_index(rest, '@');
    lemma_first_index(rest, '/');
    match user {
        Some(u) => {
            assert(forall|i: int| 0 <= i < u.len() ==> u.contains(#[trigger] u[i]));
            assert forall|i: int| 0 <= i < u.len() implies rest[i] != '@' && rest[i] != '/' by {
                assert(rest[i] == u[i]);
            }
            assert(rest[u.len() as int] == '@');
            lemma_first_index_unique(rest, '@', u.len() as int);
            if first_index(rest, '/') <= u.len() {
                assert(rest[first_index(rest, '/')] == '/');
            }
            assert(behind(rest, '@') =~= tail);
        },
        None => {
            assert(rest =~= tail);
            if first_index(rest, '@') < inner.len() {
                assert(tail[first_index(rest, '@')] == '@');
            }
            if first_index(rest, '@') == inner.len() && path.len() > 0 {
                assert(tail[inner.len() as int] == '@');
            }
        },
    }
    assert(after_user(rest) == tail);
}

/// A remote in the short form of SSH is trusted exactly if the host before the colon is.
pub proof fn law_short_form_is_trusted_by_its_host(
    config: UserConfig,
    user: Seq<char>,
    host: Seq<char>,
    path: Seq<char>,
)
    requires
        !user.contains('@') && !user.contains(':'),
        host.len() > 0 && !host.contains('/') && !host.contains(':'),
    ensures
        ({
            let url = user + seq!['@'] + (host + seq![':'] + path);
            &&& url_host(url) == Some(host)
            &&& config.remote_trusted(url) <==> config.trusted_hosts@.contains(host)
        }),
{
    let rest = host + seq![':'] + path;
    let url = user + seq!['@'] + rest;
    law_first_character_parts(user, '@', rest);
    law_first_character_parts(host, ':', path);
    assert(url[user.len() as int] == '@');
    assert(rest[host.len() as int] == ':');
    assert(url.contains('@'));
    assert(rest.contains(':'));
    reveal_strlit("https://");
    reveal_strlit("http://");
    reveal_strlit("ssh://");
    reveal_strlit("git://");
    reveal_strlit("file://");
    lemma_not_a_scheme(url, user, rest, "https://"@, 5);
    lemma_not_a_scheme(url, user, rest, "http://"@, 4);
    lemma_not_a_scheme(url, user, rest, "ssh://"@, 3);
    lemma_not_a_scheme(url, user, rest, "git://"@, 3);
    lemma_not_a_scheme(url, user, rest, "file://"@, 4);
}

proof fn lemma_not_a_scheme(
    url: Seq<char>,
    user: Seq<char>,
    rest: Seq<char>,
    head: Seq<char>,
    k: int,
)
    requires
        url == user + seq!['@'] + rest,
        !user.contains(':'),
        0 < k < head.len(),
        head[k] == ':',
        forall|i: int| 0 <= i < head.len() ==> #[trigger] head[i] != '@',
    ensures
        !has_prefix(url, head),
{
    if has_prefix(url, head) {
        assert(url.subrange(0, head.len() as int)[k] == url[k]);
        if user.len() < head.len() {
            assert(url.subrange(0, head.len() as int)[user.len() as int] == url[user.len() as int]);
            assert(head[user.len() as int] == '@');
        } else {
            assert(url[k] == user[k]);
            assert(user.contains(user[k]));
        }
    }
}

/// A local remote is always trusted, and one without a host that can be told never.
pub proof fn law_local_remote_is_trusted(config: UserConfig, path: Seq<char>)
    ensures
        config.remote_trusted(Seq::empty()),
        config.remote_trusted("file://"@ + path),
        path.len() > 0 && !path.contains(':') ==> !config.remote_trusted(path),
{
    assert(("file://"@ + path).subrange(0, "file://"@.len() as int) =~= "file://"@);
    if path.len() > 0 && !path.contains(':') {
        reveal_strlit("https://");
        reveal_strlit("http://");
        reveal_strlit("ssh://");
        reveal_strlit("git://");
        reveal_strlit("file://");
        lemma_needs_colon(path, "https://"@, 5);
        lemma_needs_colon(path, "http://"@, 4);
        lemma_needs_colon(path, "ssh://"@, 3);
        lemma_needs_colon(path, "git://"@, 3);
        lemma_needs_colon(path, "file://"@, 4);
        let rest = behind(path, '@');
        if rest.contains(':') {
            lemma_first_index(path, '@');
            let i = choose|i: int| 0 <= i < rest.len() && rest[i] == ':';
            assert(path[first_index(path, '@') + 1 + i] == ':');
        }
    }
}

proof fn lemma_needs_colon(path: Seq<char>, head: Seq<char>, k: int)
    requires
        !path.contains(':'),
        0 <= k < head.len(),
        head[k] == ':',
    ensures
        !has_prefix(path, head),
{
    if has_prefix(path, head) {
        assert(path.subrange(0, head.len() as int)[k] == path[k]);
        assert(path.contains(path[k]));
    }
}

/// What a conflict comes to: what was configured, where an agent is wanted only if there
/// is one. The names by which the policies are configured.
pub proof fn law_policies_come_to_an_action(policy: OnConflict, has_agent: bool)
    ensures
        policy.outcome(has_agent) is Revert <==> policy is Revert,
        policy.outcome(has_agent) is ResolveAgent <==> has_agent && (policy is Auto || policy
            is ResolveAgent),
        policy.outcome(has_agent) is Leave <==> policy is Leave || (!has_agent && (policy is Auto
            || policy is ResolveAgent)),
        policy is Auto ==> policy.name() == "auto"@,
        policy is Revert ==> policy.name() == "revert"@,
        policy is Leave ==> policy.name() == "leave"@,
        policy is ResolveAgent ==> policy.name() == "resolve-agent"@,
{
}

/// The remotes that are listed as disabled: none where the whole repo is or is not.
pub proof fn law_disabled_remotes_are_listed(all: bool, list: Seq<Seq<char>>)
    ensures
        DisabledView::All(all).listed().len() == 0,
        DisabledView::Remotes(list).listed() == list,
{
}

} // verus!
