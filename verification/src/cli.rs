//! CLI command handlers.
//!
//! Each function corresponds to a CLI subcommand, or to a part of one. It is
//! given what was read from the terminal, from the config and from the daemon,
//! and says what changes and what is printed.

use vstd::prelude::*;

use crate::cli_ui::DisplayOpts;
use crate::config::{
    entry_of, with_remote_disabled, with_remote_enabled, DisabledView, RepoConfig, RepoConfigView,
    UserConfig,
};
use crate::hosts::{ascending, text_less, HostSet};
use crate::table::Table;
use crate::text::{
    cat, cat3, cat5, chars_of, has_prefix, join, join_from, lines, list_contains, split_lines,
    starts_with, string_of, text_eq, trim, trim_end_chars, trimmed, view_opt, views, without,
    without_end,
};

verus! {

// ---------------------------------------------------------------------------
// Helpers
// ---------------------------------------------------------------------------

/// The display options that the config asks for. Without a config that can be
/// read everything is shown.
pub fn load_display_opts(config: Option<&UserConfig>) -> (r: DisplayOpts)
    ensures
        r.emoji == (config matches Some(c) ==> c.global.emoji),
        r.colors == (config matches Some(c) ==> c.global.colors),
{
    match config {
        Some(c) => DisplayOpts { emoji: c.global.emoji, colors: c.global.colors },
        None => DisplayOpts { emoji: true, colors: true },
    }
}

/// A path with the home directory in front of it written as `~`.
pub open spec fn path_at_home(p: Seq<char>, home: Option<&str>) -> Seq<char> {
    match home {
        Some(h) => if has_prefix(p, h@) {
            "~"@ + p.skip(h@.len() as int)
        } else {
            p
        },
        None => p,
    }
}

/// Replace the user's home directory prefix with `~` for display.
pub fn display_path(p: &str, home: Option<&str>) -> (r: String)
    ensures
        r@ == path_at_home(p@, home),
{
    if let Some(h) = home {
        if starts_with(p, h) {
            let cs = chars_of(p);
            let hs = chars_of(h);
            let rest = string_of(&cs, hs.len(), cs.len());
            assert(rest@ =~= p@.skip(h@.len() as int));
            return cat("~", rest.as_str());
        }
    }
    String::from_str(p)
}

/// The hint that there is a newer release.
pub open spec fn hint_of(latest: Option<&str>, disabled: bool) -> Option<Seq<char>> {
    match latest {
        Some(v) if !disabled => Some(
            "\ngitsitter "@ + v@ + " available (current: v"@ + "0.1.0"@
                + "), run `gitsitter self-update`"@,
        ),
        _ => None,
    }
}

/// The one-liner about a newer version, from the version that was found last.
/// `disabled` is whether the user wants no checks.
pub fn update_hint(latest: Option<&str>, disabled: bool) -> (r: Option<String>)
    ensures
        view_opt(r) == hint_of(latest, disabled),
        match latest {
            Some(v) if !disabled => r matches Some(line) && line@ == "\ngitsitter "@ + v@
                + " available (current: v"@ + "0.1.0"@ + "), run `gitsitter self-update`"@,
            _ => r is None,
        },
{
    if disabled {
        return None;
    }
    match latest {
        Some(v) => Some(
            cat5(
                "\ngitsitter ",
                v,
                " available (current: v",
                crate::self_update::current_version(),
                "), run `gitsitter self-update`",
            ),
        ),
        None => None,
    }
}

/// Adds a line.
pub fn say(lines: &mut Vec<String>, line: String)
    ensures
        views(final(lines)@) == views(old(lines)@).push(line@),
{
    let ghost was = lines@;
    lines.push(line);
    assert(views(lines@) =~= views(was).push(line@));
}

// ---------------------------------------------------------------------------
// Enabling and disabling
// ---------------------------------------------------------------------------

/// What enable and disable are about: one remote, the whole repo, or nothing
/// that can be told.
pub enum Target {
    Remote(Seq<char>),
    Repo,
    Unclear(Seq<char>),
}

/// The target of `verb`.
pub open spec fn target_of(
    remote: Option<Seq<char>>,
    all: bool,
    remotes: Seq<Seq<char>>,
    verb: Seq<char>,
) -> Target {
    if all {
        Target::Repo
    } else {
        match remote {
            Some(name) => if remotes.contains(name) {
                Target::Remote(name)
            } else {
                Target::Unclear("remote '"@ + name + "' not found in this repo"@)
            },
            None => if remotes.len() == 1 {
                Target::Remote(remotes[0])
            } else {
                Target::Unclear(
                    "multiple remotes found: "@ + join(remotes, ", "@)
                        + ". Specify a remote name or use --all:\n  gitsitter "@ + verb
                        + " <remote>\n  gitsitter "@ + verb + " --all"@,
                )
            },
        }
    }
}

/// The view of an optional string slice.
pub open spec fn opt_text(s: Option<&str>) -> Option<Seq<char>> {
    match s {
        Some(s) => Some(s@),
        None => None,
    }
}

/// The names of the remotes.
pub fn remote_names(remote_urls: &Table<String>) -> (r: Vec<String>)
    ensures
        views(r@) == remote_urls.keys(),
{
    let n = remote_urls.len();
    let mut names: Vec<String> = Vec::new();
    let mut i: usize = 0;
    assert(views(names@) =~= remote_urls.keys().take(0));
    while i < n
        invariant
            n == remote_urls.keys().len(),
            i <= n,
            views(names@) == remote_urls.keys().take(i as int),
        decreases n - i,
    {
        let name = remote_urls.key_at(i);
        assert(remote_urls.keys().take(i + 1) =~= remote_urls.keys().take(i as int).push(name@));
        say(&mut names, String::from_str(name));
        i = i + 1;
    }
    assert(remote_urls.keys().take(i as int) =~= remote_urls.keys());
    names
}

/// Resolve the remote target for enable/disable commands.
///
/// Returns `Some(name)` for a specific remote, `None` for whole-repo.
/// With no arguments and exactly one remote, targets that remote.
/// With no arguments and multiple remotes, errors with a hint to use --all or name a remote.
pub fn resolve_remote_target(
    remote: Option<&str>,
    all: bool,
    remote_urls: &Table<String>,
    verb: &str,
) -> (r: Result<Option<String>, String>)
    ensures
        match target_of(opt_text(remote), all, remote_urls.keys(), verb@) {
            Target::Remote(name) => r matches Ok(Some(n)) && n@ == name,
            Target::Repo => r matches Ok(None),
            Target::Unclear(message) => r matches Err(e) && e@ == message,
        },
{
    let n = remote_urls.len();
    if all {
        return Ok(None);
    }
    if let Some(name) = remote {
        if !remote_urls.contains_key(name) {
            return Err(cat3("remote '", name, "' not found in this repo"));
        }
        return Ok(Some(String::from_str(name)));
    }
    if n == 1 {
        return Ok(Some(String::from_str(remote_urls.key_at(0))));
    }
    let names = remote_names(remote_urls);
    let list = join_from(&names, 0, ", ");
    assert(views(names@).skip(0) =~= views(names@));
    let mut message = cat5(
        "multiple remotes found: ",
        list.as_str(),
        ". Specify a remote name or use --all:\n  gitsitter ",
        verb,
        " <remote>\n  gitsitter ",
    );
    message.append(verb);
    message.append(" --all");
    Err(message)
}

/// Whether `new` is `was` with the entry of `repo_id` edited.
pub open spec fn is_edited(
    new: Table<RepoConfig>,
    was: Table<RepoConfig>,
    repo_id: Seq<char>,
    entry: RepoConfigView,
) -> bool {
    &&& new@.contains_key(repo_id)
    &&& new@[repo_id]@ == entry
    &&& new@ == was@.insert(repo_id, new@[repo_id])
    &&& new.keys() == (if was@.contains_key(repo_id) {
        was.keys()
    } else {
        was.keys().push(repo_id)
    })
}

/// Whether a repo, or one of its remotes, was enabled as it was asked for.
pub open spec fn is_enabling(
    r: Result<Option<String>, String>,
    new: UserConfig,
    was: UserConfig,
    repo_id: Seq<char>,
    remote: Option<Seq<char>>,
    all: bool,
    remotes: Seq<Seq<char>>,
) -> bool {
    &&& new.global == was.global
    &&& new.trusted_hosts == was.trusted_hosts
    &&& match target_of(
        remote,
        all || (remote is None && remotes.len() == 1 && was.repo_disabled(repo_id)),
        remotes,
        "enable"@,
    ) {
        Target::Unclear(message) => {
            &&& r matches Err(e) && e@ == message
            &&& new.repos == was.repos
        },
        Target::Remote(name) => if was.repo_disabled(repo_id) {
            &&& r matches Err(e) && e@
                == "repo is fully disabled — run `gitsitter enable --all` first"@
            &&& new.repos == was.repos
        } else {
            &&& r matches Ok(Some(n)) && n@ == name
            &&& is_edited(
                new.repos,
                was.repos,
                repo_id,
                with_remote_enabled(entry_of(was.repos@, repo_id), name),
            )
        },
        Target::Repo => {
            &&& r matches Ok(None)
            &&& is_edited(
                new.repos,
                was.repos,
                repo_id,
                (RepoConfigView {
                    disabled: Some(DisabledView::All(false)),
                    ..entry_of(was.repos@, repo_id)
                }),
            )
        },
    }
}

/// Enables what is asked for. What was enabled comes back: a remote, or the
/// whole repo. A repo that is fully disabled is enabled as a whole where its only
/// remote is not named.
pub fn handle_enable(
    config: &mut UserConfig,
    repo_id: &str,
    remote: Option<&str>,
    all: bool,
    remote_urls: &Table<String>,
) -> (r: Result<Option<String>, String>)
    ensures
        is_enabling(
            r,
            *final(config),
            *old(config),
            repo_id@,
            opt_text(remote),
            all,
            remote_urls.keys(),
        ),
        final(config).global == old(config).global,
        final(config).trusted_hosts == old(config).trusted_hosts,
        match target_of(
            opt_text(remote),
            all || (remote is None && remote_urls.keys().len() == 1 && old(config).repo_disabled(
                repo_id@,
            )),
            remote_urls.keys(),
            "enable"@,
        ) {
            Target::Unclear(message) => {
                &&& r matches Err(e) && e@ == message
                &&& final(config).repos == old(config).repos
            },
            Target::Remote(name) => if old(config).repo_disabled(repo_id@) {
                &&& r matches Err(e) && e@
                    == "repo is fully disabled — run `gitsitter enable --all` first"@
                &&& final(config).repos == old(config).repos
            } else {
                &&& r matches Ok(Some(n)) && n@ == name
                &&& is_edited(
                    final(config).repos,
                    old(config).repos,
                    repo_id@,
                    with_remote_enabled(entry_of(old(config).repos@, repo_id@), name),
                )
            },
            Target::Repo => {
                &&& r matches Ok(None)
                &&& is_edited(
                    final(config).repos,
                    old(config).repos,
                    repo_id@,
                    (RepoConfigView {
                        disabled: Some(DisabledView::All(false)),
                        ..entry_of(old(config).repos@, repo_id@)
                    }),
                )
            },
        },
{
    let whole = all || (remote.is_none() && remote_urls.len() == 1 && config.is_repo_disabled(
        repo_id,
    ));
    match resolve_remote_target(remote, whole, remote_urls, "enable") {
        Err(e) => Err(e),
        Ok(Some(name)) => {
            if config.is_repo_disabled(repo_id) {
                return Err(
                    String::from_str("repo is fully disabled — run `gitsitter enable --all` first"),
                );
            }
            let mut entry = UserConfig::repo_entry(&config.repos, repo_id);
            entry.enable_remote(name.as_str());
            UserConfig::update_repo(&mut config.repos, repo_id, entry);
            Ok(Some(name))
        },
        Ok(None) => {
            let mut entry = UserConfig::repo_entry(&config.repos, repo_id);
            entry.set_disabled(false);
            UserConfig::update_repo(&mut config.repos, repo_id, entry);
            Ok(None)
        },
    }
}

/// Whether a repo, or one of its remotes, was disabled as it was asked for.
pub open spec fn is_disabling(
    r: Result<Option<String>, String>,
    new: UserConfig,
    was: UserConfig,
    repo_id: Seq<char>,
    remote: Option<Seq<char>>,
    all: bool,
    purge: bool,
    remotes: Seq<Seq<char>>,
) -> bool {
    &&& new.global == was.global
    &&& new.trusted_hosts == was.trusted_hosts
    &&& match target_of(
        remote,
        all || (remote is None && remotes.len() == 1 && (purge || was.repo_disabled(repo_id))),
        remotes,
        "disable"@,
    ) {
        Target::Unclear(message) => {
            &&& r matches Err(e) && e@ == message
            &&& new.repos == was.repos
        },
        Target::Remote(name) => if was.repo_disabled(repo_id) {
            &&& r matches Err(e) && e@ == "repo is already fully disabled"@
            &&& new.repos == was.repos
        } else {
            &&& r matches Ok(Some(n)) && n@ == name
            &&& is_edited(
                new.repos,
                was.repos,
                repo_id,
                with_remote_disabled(entry_of(was.repos@, repo_id), name),
            )
        },
        Target::Repo => {
            &&& r matches Ok(None)
            &&& if purge {
                &&& new.repos@ == was.repos@.remove(repo_id)
                &&& new.repos.keys() == without(was.repos.keys(), repo_id)
            } else {
                is_edited(
                    new.repos,
                    was.repos,
                    repo_id,
                    (RepoConfigView {
                        disabled: Some(DisabledView::All(true)),
                        ..entry_of(was.repos@, repo_id)
                    }),
                )
            }
        },
    }
}

/// Disables what is asked for. What was disabled comes back: a remote, or the
/// whole repo. With `purge` the entry of the whole repo goes. Where the only remote
/// is not named that needs no `all`, and a repo that is fully disabled stays so.
pub fn handle_disable(
    config: &mut UserConfig,
    repo_id: &str,
    remote: Option<&str>,
    all: bool,
    purge: bool,
    remote_urls: &Table<String>,
) -> (r: Result<Option<String>, String>)
    ensures
        is_disabling(
            r,
            *final(config),
            *old(config),
            repo_id@,
            opt_text(remote),
            all,
            purge,
            remote_urls.keys(),
        ),
        final(config).global == old(config).global,
        final(config).trusted_hosts == old(config).trusted_hosts,
        match target_of(
            opt_text(remote),
            all || (remote is None && remote_urls.keys().len() == 1 && (purge || old(
                config,
            ).repo_disabled(repo_id@))),
            remote_urls.keys(),
            "disable"@,
        ) {
            Target::Unclear(message) => {
                &&& r matches Err(e) && e@ == message
                &&& final(config).repos == old(config).repos
            },
            Target::Remote(name) => if old(config).repo_disabled(repo_id@) {
                &&& r matches Err(e) && e@ == "repo is already fully disabled"@
                &&& final(config).repos == old(config).repos
            } else {
                &&& r matches Ok(Some(n)) && n@ == name
                &&& is_edited(
                    final(config).repos,
                    old(config).repos,
                    repo_id@,
                    with_remote_disabled(entry_of(old(config).repos@, repo_id@), name),
                )
            },
            Target::Repo => {
                &&& r matches Ok(None)
                &&& if purge {
                    &&& final(config).repos@ == old(config).repos@.remove(repo_id@)
                    &&& final(config).repos.keys() == without(old(config).repos.keys(), repo_id@)
                } else {
                    is_edited(
                        final(config).repos,
                        old(config).repos,
                        repo_id@,
                        (RepoConfigView {
                            disabled: Some(DisabledView::All(true)),
                            ..entry_of(old(config).repos@, repo_id@)
                        }),
                    )
                }
            },
        },
{
    let whole = all || (remote.is_none() && remote_urls.len() == 1 && (purge
        || config.is_repo_disabled(repo_id)));
    match resolve_remote_target(remote, whole, remote_urls, "disable") {
        Err(e) => Err(e),
        Ok(Some(name)) => {
            if config.is_repo_disabled(repo_id) {
                return Err(String::from_str("repo is already fully disabled"));
            }
            let mut entry = UserConfig::repo_entry(&config.repos, repo_id);
            entry.disable_remote(name.as_str());
            UserConfig::update_repo(&mut config.repos, repo_id, entry);
            Ok(Some(name))
        },
        Ok(None) => {
            if purge {
                UserConfig::remove_repo(&mut config.repos, repo_id);
            } else {
                let mut entry = UserConfig::repo_entry(&config.repos, repo_id);
                entry.set_disabled(true);
                UserConfig::update_repo(&mut config.repos, repo_id, entry);
            }
            Ok(None)
        },
    }
}

/// Registers a repo. What is said of it already stays.
pub fn handle_register(config: &mut UserConfig, repo_id: &str)
    ensures
        final(config).global == old(config).global,
        final(config).trusted_hosts == old(config).trusted_hosts,
        is_edited(
            final(config).repos,
            old(config).repos,
            repo_id@,
            entry_of(old(config).repos@, repo_id@),
        ),
{
    let entry = UserConfig::repo_entry(&config.repos, repo_id);
    UserConfig::update_repo(&mut config.repos, repo_id, entry);
}

/// What was done to a remote.
pub fn remote_line(icon: &str, verb: &str, name: &str) -> (r: String)
    ensures
        r@ == icon@ + " "@ + verb@ + " remote '"@ + name@ + "'"@,
{
    let mut line = cat5(icon, " ", verb, " remote '", name);
    line.append("'");
    line
}

/// What was done to a repo, with its header as it is shown.
pub fn repo_line(icon: &str, verb: &str, header: &str) -> (r: String)
    ensures
        r@ == icon@ + " "@ + verb@ + " "@ + header@,
{
    cat5(icon, " ", verb, " ", header)
}

/// What was done to a host.
pub fn host_line(icon: &str, verb: &str, host: &str) -> (r: String)
    ensures
        r@ == icon@ + " "@ + verb@ + " host '"@ + host@ + "'"@,
{
    let mut line = cat5(icon, " ", verb, " host '", host);
    line.append("'");
    line
}

/// After a remote is enabled it is not disabled, whether it was or not.
pub proof fn law_enabled_remote_syncs(
    new: UserConfig,
    was: UserConfig,
    repo_id: Seq<char>,
    name: Seq<char>,
)
    requires
        !was.repo_disabled(repo_id),
        is_edited(
            new.repos,
            was.repos,
            repo_id,
            with_remote_enabled(entry_of(was.repos@, repo_id), name),
        ),
    ensures
        !new.remote_disabled(repo_id, name),
        !new.repo_disabled(repo_id),
{
    crate::config::law_enable_remote(entry_of(was.repos@, repo_id), name, name);
}

/// After a remote is disabled it is, and the repo is not.
pub proof fn law_disabled_remote_rests(
    new: UserConfig,
    was: UserConfig,
    repo_id: Seq<char>,
    name: Seq<char>,
)
    requires
        !was.repo_disabled(repo_id),
        is_edited(
            new.repos,
            was.repos,
            repo_id,
            with_remote_disabled(entry_of(was.repos@, repo_id), name),
        ),
    ensures
        new.remote_disabled(repo_id, name),
        !new.repo_disabled(repo_id),
{
    crate::config::law_disable_remote(entry_of(was.repos@, repo_id), name, name);
}

/// Enabling or disabling in one repo leaves every other repo as it was.
pub proof fn law_other_repos_are_untouched(
    new: UserConfig,
    was: UserConfig,
    repo_id: Seq<char>,
    entry: RepoConfigView,
    other: Seq<char>,
    name: Seq<char>,
)
    requires
        is_edited(new.repos, was.repos, repo_id, entry),
        other != repo_id,
    ensures
        new.repo_disabled(other) == was.repo_disabled(other),
        new.remote_disabled(other, name) == was.remote_disabled(other, name),
{
}

// ---------------------------------------------------------------------------
// Resolving by an agent
// ---------------------------------------------------------------------------

/// What the auto-resolve command does.
#[derive(Debug)]
pub enum AutoResolve {
    /// There is nothing to resolve.
    Nothing { line: &'static str },
    /// Run the agent.
    Run { agent: String },
    /// There is no agent to run.
    Refuse { message: &'static str },
}

/// Whether the agent that resolves conflicts is run, and which.
pub open spec fn is_auto_resolve(
    r: AutoResolve,
    in_progress: bool,
    configured: Option<&str>,
    agent_override: Option<&str>,
) -> bool {
    if !in_progress {
        r matches AutoResolve::Nothing { line } && line@ == "No rebase conflicts in progress."@
    } else {
        match (agent_override, configured) {
            (Some(agent), _) => r matches AutoResolve::Run { agent: a } && a@ == agent@,
            (None, Some(agent)) => r matches AutoResolve::Run { agent: a } && a@ == agent@,
            (None, None) => r matches AutoResolve::Refuse { message } && message@
                == "no resolve agent configured. Set resolve_agent in config or pass --agent"@,
        }
    }
}

/// Decides what the auto-resolve command does. The agent that was asked for
/// goes before the configured one.
pub fn handle_auto_resolve(
    in_progress: bool,
    configured: Option<&str>,
    agent_override: Option<&str>,
) -> (r: AutoResolve)
    ensures
        is_auto_resolve(r, in_progress, configured, agent_override),
        if !in_progress {
            r matches AutoResolve::Nothing { line } && line@ == "No rebase conflicts in progress."@
        } else {
            match (agent_override, configured) {
                (Some(agent), _) => r matches AutoResolve::Run { agent: a } && a@ == agent@,
                (None, Some(agent)) => r matches AutoResolve::Run { agent: a } && a@ == agent@,
                (None, None) => r matches AutoResolve::Refuse { message } && message@
                    == "no resolve agent configured. Set resolve_agent in config or pass --agent"@,
            }
        },
{
    if !in_progress {
        return AutoResolve::Nothing { line: "No rebase conflicts in progress." };
    }
    match agent_override {
        Some(agent) => AutoResolve::Run { agent: String::from_str(agent) },
        None => match configured {
            Some(agent) => AutoResolve::Run { agent: String::from_str(agent) },
            None => AutoResolve::Refuse {
                message: "no resolve agent configured. Set resolve_agent in config or pass --agent",
            },
        },
    }
}

// ---------------------------------------------------------------------------
// The log
// ---------------------------------------------------------------------------

/// Which of the names in the log directory are logs.
pub open spec fn log_names(names: Seq<Seq<char>>) -> Set<Seq<char>> {
    names.filter(|n: Seq<char>| has_prefix(n, "daemon.log"@)).to_set()
}

/// What the log command shows.
#[derive(Debug)]
pub enum LogPlan {
    /// There are no logs.
    Missing,
    /// Follow the latest log, as far as it is about a repo.
    Follow { file: String, filter: Option<String> },
    /// Page through the logs, as far as they are about a repo.
    Page { files: Vec<String>, filter: Option<String> },
}

proof fn lemma_log_names(names: Seq<Seq<char>>, i: int)
    requires
        0 <= i < names.len(),
    ensures
        log_names(names.take(i + 1)) == (if has_prefix(names[i], "daemon.log"@) {
            log_names(names.take(i)).insert(names[i])
        } else {
            log_names(names.take(i))
        }),
{
    let p = |n: Seq<char>| has_prefix(n, "daemon.log"@);
    let t = names.take(i + 1);
    reveal(Seq::filter);
    assert(t.drop_last() =~= names.take(i));
    assert(t.last() == names[i]);
    if p(names[i]) {
        let f = names.take(i).filter(p);
        assert(t.filter(p) == f.push(names[i]));
        assert forall|x: Seq<char>| #[trigger]
            f.push(names[i]).to_set().contains(x) <==> f.to_set().insert(names[i]).contains(x) by {
            crate::text::lemma_push_contains(f, names[i], x);
        }
        assert(f.push(names[i]).to_set() =~= f.to_set().insert(names[i]));
    }
}

/// The logs among the names in the log directory, in order: the current one and
/// those that were rotated away.
pub fn log_files(names: &Vec<String>) -> (r: Vec<String>)
    ensures
        ascending(views(r@)),
        views(r@).to_set() == log_names(views(names@)),
{
    let mut set = HostSet::new();
    let ghost all = views(names@);
    let mut i: usize = 0;
    proof {
        reveal(Seq::filter);
        assert(log_names(all.take(0)) =~= Set::<Seq<char>>::empty());
    }
    while i < names.len()
        invariant
            i <= names@.len(),
            all == views(names@),
            set@ == log_names(all.take(i as int)),
        decreases names.len() - i,
    {
        proof {
            lemma_log_names(all, i as int);
        }
        if starts_with(names[i].as_str(), "daemon.log") {
            let _new = set.insert(String::from_str(names[i].as_str()));
        }
        i = i + 1;
    }
    assert(all.take(i as int) =~= all);
    let n = set.len();
    let mut files: Vec<String> = Vec::new();
    let mut k: usize = 0;
    assert(views(files@) =~= set.order().take(0));
    while k < n
        invariant
            n == set.order().len(),
            k <= n,
            views(files@) == set.order().take(k as int),
        decreases n - k,
    {
        let name = set.at(k);
        assert(set.order().take(k + 1) =~= set.order().take(k as int).push(name@));
        say(&mut files, String::from_str(name));
        k = k + 1;
    }
    assert(set.order().take(k as int) =~= set.order());
    files
}

/// Whether the log files that are there are shown as it was asked for.
pub open spec fn is_log_plan(
    r: LogPlan,
    names: Seq<Seq<char>>,
    global: bool,
    follow: bool,
    repo_id: Option<&str>,
) -> bool {
    if log_names(names).len() == 0 {
        r is Missing
    } else {
        let filter = match repo_id {
            Some(id) if !global => Some(without_end(id@, '/', '\\')),
            _ => None,
        };
        if follow {
            r matches LogPlan::Follow { file, filter: f } && log_names(names).contains(file@) && (
            forall|other: Seq<char>| #[trigger]
                log_names(names).contains(other) && other != file@ ==> text_less(other, file@))
                && view_opt(f) == filter
        } else {
            r matches LogPlan::Page { files, filter: f } && ascending(views(files@)) && views(
                files@,
            ).to_set() == log_names(names) && view_opt(f) == filter
        }
    }
}

/// Decides what the log command shows. `repo_id` is the repo that the log is
/// asked for, if it is one.
pub fn handle_log(names: &Vec<String>, global: bool, follow: bool, repo_id: Option<&str>) -> (r:
    LogPlan)
    ensures
        is_log_plan(r, views(names@), global, follow, repo_id),
        if log_names(views(names@)).len() == 0 {
            r is Missing
        } else {
            let filter = match repo_id {
                Some(id) if !global => Some(without_end(id@, '/', '\\')),
                _ => None,
            };
            if follow {
                r matches LogPlan::Follow { file, filter: f } && log_names(views(names@)).contains(
                    file@,
                ) && (forall|other: Seq<char>|
                    #[trigger] log_names(views(names@)).contains(other) && other != file@
                        ==> text_less(other, file@)) && view_opt(f) == filter
            } else {
                r matches LogPlan::Page { files, filter: f } && ascending(views(files@)) && views(
                    files@,
                ).to_set() == log_names(views(names@)) && view_opt(f) == filter
            }
        },
{
    let files = log_files(names);
    let ghost set = log_names(views(names@));
    if files.len() == 0 {
        proof {
            assert(views(files@).to_set() =~= Set::<Seq<char>>::empty());
        }
        return LogPlan::Missing;
    }
    let filter = match repo_id {
        Some(id) if !global => Some(trim_end_chars(id, '/', '\\')),
        _ => None,
    };
    let last: usize = files.len() - 1;
    proof {
        let v = views(files@);
        assert(v[last as int] == files@[last as int]@);
        assert(v.to_set().contains(v[last as int]));
        vstd::set_lib::lemma_set_empty_equivalency_len(set);
        v.lemma_cardinality_of_set();
        assert forall|other: Seq<char>| #[trigger]
            set.contains(other) && other != v[last as int] implies text_less(
            other,
            v[last as int],
        ) by {
            let j = choose|j: int| 0 <= j < v.len() && v[j] == other;
            assert(text_less(v[j], v[last as int]));
        }
    }
    if follow {
        LogPlan::Follow { file: String::from_str(files[last].as_str()), filter }
    } else {
        LogPlan::Page { files, filter }
    }
}

// ---------------------------------------------------------------------------
// Installing
// ---------------------------------------------------------------------------

/// What is installed or removed: the hook of a shell, the daemon, or both.
#[derive(Debug)]
pub enum Setup {
    Shell { shell: String },
    Daemon,
    Both { shell: String },
}

/// The complaint about a component that does not exist.
pub open spec fn unknown_component(name: Seq<char>) -> Seq<char> {
    "unknown component: "@ + name + ". Use 'shell', 'daemon', or 'all'"@
}

/// What is set up: `component` is what was asked for, and `shell` the shell it
/// is for, if one is known.
pub open spec fn is_setup(
    r: Result<Setup, String>,
    component: Seq<char>,
    shell: Option<Seq<char>>,
) -> bool {
    let no_shell = "could not detect shell, specify with: gitsitter install shell <name>"@;
    if component == "shell"@ || component == "hooks"@ {
        match shell {
            Some(sh) => r matches Ok(Setup::Shell { shell: s }) && s@ == sh,
            None => r matches Err(e) && e@ == no_shell,
        }
    } else if component == "daemon"@ {
        r matches Ok(Setup::Daemon)
    } else if component == "all"@ {
        match shell {
            Some(sh) => r matches Ok(Setup::Both { shell: s }) && s@ == sh,
            None => r matches Err(e) && e@ == no_shell,
        }
    } else {
        r matches Err(e) && e@ == unknown_component(component)
    }
}

fn setup(component: &str, shell: Option<&str>) -> (r: Result<Setup, String>)
    ensures
        is_setup(r, component@, opt_text(shell)),
{
    proof {
        reveal_strlit("shell");
        reveal_strlit("hooks");
        reveal_strlit("daemon");
        reveal_strlit("all");
        assert("shell"@.len() == 5);
        assert("hooks"@.len() == 5);
        assert("daemon"@.len() == 6);
        assert("all"@.len() == 3);
    }
    let hook = text_eq(component, "shell") || text_eq(component, "hooks");
    let all = text_eq(component, "all");
    if text_eq(component, "daemon") {
        return Ok(Setup::Daemon);
    }
    if !hook && !all {
        return Err(
            cat3("unknown component: ", component, ". Use 'shell', 'daemon', or 'all'"),
        );
    }
    match shell {
        Some(sh) => if hook {
            Ok(Setup::Shell { shell: String::from_str(sh) })
        } else {
            Ok(Setup::Both { shell: String::from_str(sh) })
        },
        None => Err(
            String::from_str("could not detect shell, specify with: gitsitter install shell <name>"),
        ),
    }
}

/// Decides what the install command sets up: everything, unless a component is
/// asked for. The shell that was named goes before the one that was detected.
pub fn handle_install(
    component: Option<&str>,
    shell_name: Option<&str>,
    detected: Option<&str>,
) -> (r: Result<Setup, String>)
    ensures
        is_setup(
            r,
            (match component {
                Some(c) => c@,
                None => "all"@,
            }),
            (match shell_name {
                Some(s) => Some(s@),
                None => opt_text(detected),
            }),
        ),
{
    let component = match component {
        Some(c) => c,
        None => "all",
    };
    let shell = match shell_name {
        Some(s) => Some(s),
        None => detected,
    };
    setup(component, shell)
}

/// Decides what the uninstall command removes. Where no shell was detected it
/// is bash.
pub fn handle_uninstall(component: Option<&str>, detected: Option<&str>) -> (r: Result<
    Setup,
    String,
>)
    ensures
        is_setup(
            r,
            (match component {
                Some(c) => c@,
                None => "all"@,
            }),
            Some(
                match detected {
                    Some(s) => s@,
                    None => "bash"@,
                },
            ),
        ),
{
    let component = match component {
        Some(c) => c,
        None => "all",
    };
    let shell = match detected {
        Some(s) => s,
        None => "bash",
    };
    setup(component, Some(shell))
}

/// What is installed is what is removed again, in the same shell.
pub proof fn law_uninstall_matches_install(
    installed: Result<Setup, String>,
    removed: Result<Setup, String>,
    component: Seq<char>,
    shell: Seq<char>,
)
    requires
        is_setup(installed, component, Some(shell)),
        is_setup(removed, component, Some(shell)),
    ensures
        match (installed, removed) {
            (Ok(Setup::Shell { shell: a }), Ok(Setup::Shell { shell: b })) => a@ == b@,
            (Ok(Setup::Daemon), Ok(Setup::Daemon)) => true,
            (Ok(Setup::Both { shell: a }), Ok(Setup::Both { shell: b })) => a@ == b@,
            (Err(a), Err(b)) => a@ == b@,
            _ => false,
        },
{
}

/// The path that a lookup of a tool printed: its first line, without the space
/// around it.
pub fn tool_path(stdout: &str) -> (r: String)
    ensures
        r@ == trimmed(
            if lines(stdout@).len() == 0 {
                Seq::empty()
            } else {
                lines(stdout@)[0]
            },
        ),
{
    let all = split_lines(stdout);
    assert(views(all@).len() == all@.len());
    if all.len() == 0 {
        let empty = String::new();
        assert(empty@ =~= Seq::<char>::empty());
        return trim(empty.as_str());
    }
    assert(views(all@)[0] == all@[0]@);
    trim(all[0].as_str())
}

/// The strings of `list`, each where it stands first.
pub open spec fn firsts(list: Seq<Seq<char>>) -> Seq<Seq<char>>
    decreases list.len(),
{
    if list.len() == 0 {
        Seq::empty()
    } else {
        let front = firsts(list.drop_last());
        if front.contains(list.last()) {
            front
        } else {
            front.push(list.last())
        }
    }
}

/// The search path of the daemon.
pub open spec fn daemon_path(dirs: Seq<Seq<char>>) -> Seq<char> {
    if dirs.len() == 0 {
        "/usr/bin:/usr/local/bin"@
    } else {
        join(firsts(dirs), ":"@)
    }
}

/// The search path of the daemon: the directories of the tools it needs, each
/// once, or the usual ones where none was found.
pub fn build_daemon_path(dirs: &Vec<String>) -> (r: String)
    ensures
        r@ == daemon_path(views(dirs@)),
        r@ == (if dirs@.len() == 0 {
            "/usr/bin:/usr/local/bin"@
        } else {
            join(firsts(views(dirs@)), ":"@)
        }),
{
    if dirs.len() == 0 {
        return String::from_str("/usr/bin:/usr/local/bin");
    }
    let mut kept: Vec<String> = Vec::new();
    let ghost all = views(dirs@);
    let mut i: usize = 0;
    assert(views(kept@) =~= firsts(all.take(0)));
    while i < dirs.len()
        invariant
            i <= dirs@.len(),
            all == views(dirs@),
            views(kept@) == firsts(all.take(i as int)),
        decreases dirs.len() - i,
    {
        assert(all.take(i + 1).drop_last() =~= all.take(i as int));
        assert(all.take(i + 1).last() == dirs@[i as int]@);
        if !list_contains(&kept, dirs[i].as_str()) {
            say(&mut kept, String::from_str(dirs[i].as_str()));
        }
        i = i + 1;
    }
    assert(all.take(i as int) =~= all);
    assert(views(kept@).skip(0) =~= views(kept@));
    join_from(&kept, 0, ":")
}

/// Every directory is on the search path, and none twice.
pub proof fn law_daemon_path_is_complete(dirs: Seq<Seq<char>>, d: Seq<char>)
    ensures
        firsts(dirs).no_duplicates(),
        firsts(dirs).contains(d) <==> dirs.contains(d),
    decreases dirs.len(),
{
    if dirs.len() > 0 {
        let front = dirs.drop_last();
        law_daemon_path_is_complete(front, d);
        law_daemon_path_is_complete(front, dirs.last());
        assert(dirs =~= front.push(dirs.last()));
        crate::text::lemma_push_contains(front, dirs.last(), d);
        if !firsts(front).contains(dirs.last()) {
            crate::text::lemma_push_contains(firsts(front), dirs.last(), d);
        }
    }
}

// ---------------------------------------------------------------------------
// What the commands do
// ---------------------------------------------------------------------------

/// What a command is about: the whole repo if that was asked for, else the remote that
/// was named, if the repo has it, else the only remote of the repo. It is unclear where
/// no remote was named and there is not just one.
pub proof fn law_target_is_what_was_named(
    remote: Option<Seq<char>>,
    all: bool,
    remotes: Seq<Seq<char>>,
    verb: Seq<char>,
    name: Seq<char>,
)
    ensures
        target_of(remote, all, remotes, verb) is Repo <==> all,
        target_of(remote, all, remotes, verb) == Target::Remote(name) <==> {
            &&& !all
            &&& remote matches Some(n) ==> n == name && remotes.contains(name)
            &&& remote is None ==> remotes == seq![name]
        },
        !all && remote == Some(name) && !remotes.contains(name) ==> target_of(
            remote,
            all,
            remotes,
            verb,
        ) == Target::Unclear("remote '"@ + name + "' not found in this repo"@),
        !all && remote is None && remotes.len() != 1 ==> (target_of(
            remote,
            all,
            remotes,
            verb,
        ) matches Target::Unclear(m) && m == "multiple remotes found: "@ + join(remotes, ", "@) + (
        ". Specify a remote name or use --all:\n  gitsitter "@ + verb
            + " <remote>\n  gitsitter "@ + verb + " --all"@)),
{
    if remotes.len() == 1 && remotes[0] == name {
        assert(remotes =~= seq![name]);
    }
    if remotes == seq![name] {
        assert(remotes.len() == 1 && remotes[0] == name);
    }
    if !all && remote is None && remotes.len() != 1 {
        if let Target::Unclear(m) = target_of(remote, all, remotes, verb) {
            assert(m =~= "multiple remotes found: "@ + join(remotes, ", "@) + (
            ". Specify a remote name or use --all:\n  gitsitter "@ + verb
                + " <remote>\n  gitsitter "@ + verb + " --all"@));
        }
    }
}

/// After an entry of the config was changed, nothing is different elsewhere, and every
/// repo stands where it stood. A new one comes last.
pub proof fn law_edit_changes_one_entry(
    new: Table<RepoConfig>,
    was: Table<RepoConfig>,
    repo_id: Seq<char>,
    entry: RepoConfigView,
    other: Seq<char>,
)
    requires
        is_edited(new, was, repo_id, entry),
    ensures
        new@.contains_key(repo_id),
        new@[repo_id]@ == entry,
        other != repo_id ==> new@.contains_key(other) == was@.contains_key(other),
        other != repo_id && was@.contains_key(other) ==> new@[other] == was@[other],
        was@.contains_key(repo_id) ==> new.keys() == was.keys(),
        !was@.contains_key(repo_id) ==> new.keys() == was.keys() + seq![repo_id],
{
    assert(was.keys().push(repo_id) =~= was.keys() + seq![repo_id]);
}

/// Enabling. A remote that was named is enabled if the repo has it and is not disabled
/// as a whole; then no other remote changes. Enabling the repo enables all of it. On an
/// error nothing changes, and never does anything change in another repo.
pub proof fn law_enabling_enables(
    r: Result<Option<String>, String>,
    new: UserConfig,
    was: UserConfig,
    repo_id: Seq<char>,
    remote: Option<Seq<char>>,
    all: bool,
    remotes: Seq<Seq<char>>,
    other: Seq<char>,
    name: Seq<char>,
)
    requires
        is_enabling(r, new, was, repo_id, remote, all, remotes),
    ensures
        new.global == was.global,
        new.trusted_hosts == was.trusted_hosts,
        all ==> r matches Ok(None),
        remote matches Some(n) ==> (r is Ok <==> all || (remotes.contains(n) && !was.repo_disabled(
            repo_id,
        ))),
        remote is None ==> (r is Ok <==> all || remotes.len() == 1),
        r matches Ok(Some(n)) ==> {
            &&& !all
            &&& remotes.contains(n@)
            &&& remote is None || remote == Some(n@)
            &&& !new.repo_disabled(repo_id)
            &&& new.remote_disabled(repo_id, name) <==> was.remote_disabled(repo_id, name) && name
                != n@
        },
        r matches Ok(None) ==> {
            &&& !new.repo_disabled(repo_id)
            &&& !new.remote_disabled(repo_id, name)
        },
        r matches Err(e) ==> {
            &&& remote matches Some(n) ==> {
                &&& !remotes.contains(n) ==> e@ == "remote '"@ + n + "' not found in this repo"@
                &&& remotes.contains(n) ==> e@
                    == "repo is fully disabled — run `gitsitter enable --all` first"@
            }
            &&& remote is None ==> e@ == "multiple remotes found: "@ + join(remotes, ", "@) + (
            ". Specify a remote name or use --all:\n  gitsitter "@ + "enable"@
                + " <remote>\n  gitsitter "@ + "enable"@ + " --all"@)
        },
        r is Err ==> new.repos == was.repos,
        r is Ok ==> new.repos@.contains_key(repo_id),
        r is Ok && was.repos@.contains_key(repo_id) ==> new.repos@[repo_id].refresh_interval
            == was.repos@[repo_id].refresh_interval,
        other != repo_id ==> {
            &&& new.repo_disabled(other) == was.repo_disabled(other)
            &&& new.remote_disabled(other, name) == was.remote_disabled(other, name)
        },
{
    law_target_is_what_was_named(remote, false, remotes, "enable"@, name);
    if let Some(n) = remote {
        law_target_is_what_was_named(remote, false, remotes, "enable"@, n);
    }
    let entry = entry_of(was.repos@, repo_id);
    if !was.repo_disabled(repo_id) {
        if let Ok(Some(n)) = r {
            crate::config::law_enable_remote(entry, n@, name);
            crate::config::law_other_settings_stay(entry, Seq::empty(), n@);
        }
    }
    if remotes.len() == 1 {
        assert(remotes.contains(remotes[0]));
    }
    if r is Ok && was.repos@.contains_key(repo_id) {
        assert(new.repos@[repo_id]@.refresh_interval == was.repos@[repo_id]@.refresh_interval);
    }
}

/// Disabling. A remote that was named is disabled if the repo has it and is not disabled
/// as a whole; then no other remote changes. Disabling the repo disables all of it, or
/// takes it out of the config where that was asked for. On an error nothing changes, and
/// never does anything change in another repo.
pub proof fn law_disabling_disables(
    r: Result<Option<String>, String>,
    new: UserConfig,
    was: UserConfig,
    repo_id: Seq<char>,
    remote: Option<Seq<char>>,
    all: bool,
    purge: bool,
    remotes: Seq<Seq<char>>,
    other: Seq<char>,
    name: Seq<char>,
)
    requires
        is_disabling(r, new, was, repo_id, remote, all, purge, remotes),
    ensures
        new.global == was.global,
        new.trusted_hosts == was.trusted_hosts,
        all ==> r matches Ok(None),
        remote is None && remotes.len() == 1 && purge ==> r matches Ok(None),
        remote matches Some(n) ==> (r is Ok <==> all || (remotes.contains(n) && !was.repo_disabled(
            repo_id,
        ))),
        remote is None ==> (r is Ok <==> all || remotes.len() == 1),
        r matches Ok(Some(n)) ==> {
            &&& !all
            &&& remotes.contains(n@)
            &&& remote is None || remote == Some(n@)
            &&& !new.repo_disabled(repo_id)
            &&& new.remote_disabled(repo_id, name) <==> was.remote_disabled(repo_id, name) || name
                == n@
        },
        r matches Ok(None) ==> {
            &&& purge ==> !new.repos@.contains_key(repo_id)
            &&& purge ==> new.repos.keys() == without(was.repos.keys(), repo_id)
            &&& !purge ==> new.repo_disabled(repo_id) && new.remote_disabled(repo_id, name)
        },
        r matches Err(e) ==> {
            &&& remote matches Some(n) ==> {
                &&& !remotes.contains(n) ==> e@ == "remote '"@ + n + "' not found in this repo"@
                &&& remotes.contains(n) ==> e@
                    == "repo is already fully disabled"@
            }
            &&& remote is None ==> e@ == "multiple remotes found: "@ + join(remotes, ", "@) + (
            ". Specify a remote name or use --all:\n  gitsitter "@ + "disable"@
                + " <remote>\n  gitsitter "@ + "disable"@ + " --all"@)
        },
        r is Err ==> new.repos == was.repos,
        r is Ok && was.repos@.contains_key(repo_id) && new.repos@.contains_key(repo_id)
            ==> new.repos@[repo_id].refresh_interval == was.repos@[repo_id].refresh_interval,
        other != repo_id ==> {
            &&& new.repos@.contains_key(other) == was.repos@.contains_key(other)
            &&& new.repo_disabled(other) == was.repo_disabled(other)
            &&& new.remote_disabled(other, name) == was.remote_disabled(other, name)
        },
{
    law_target_is_what_was_named(remote, false, remotes, "disable"@, name);
    if let Some(n) = remote {
        law_target_is_what_was_named(remote, false, remotes, "disable"@, n);
    }
    let entry = entry_of(was.repos@, repo_id);
    if !was.repo_disabled(repo_id) {
        if let Ok(Some(n)) = r {
            crate::config::law_disable_remote(entry, n@, name);
            crate::config::law_other_settings_stay(entry, Seq::empty(), n@);
        }
    }
    if remotes.len() == 1 {
        assert(remotes.contains(remotes[0]));
    }
    if r is Ok && was.repos@.contains_key(repo_id) && new.repos@.contains_key(repo_id) {
        assert(new.repos@[repo_id]@.refresh_interval == was.repos@[repo_id]@.refresh_interval);
    }
}

/// The agent is run only while a rebase is stopped, and the one that was named on the
/// command line goes before the one of the config.
pub proof fn law_named_agent_goes_first(
    r: AutoResolve,
    in_progress: bool,
    configured: Option<&str>,
    agent_override: Option<&str>,
)
    requires
        is_auto_resolve(r, in_progress, configured, agent_override),
    ensures
        r is Nothing <==> !in_progress,
        r is Run <==> in_progress && (agent_override is Some || configured is Some),
        r matches AutoResolve::Run { agent } ==> {
            &&& agent_override matches Some(a) ==> agent@ == a@
            &&& agent_override is None ==> (configured matches Some(a) && agent@ == a@)
        },
        r matches AutoResolve::Nothing { line } ==> line@ == "No rebase conflicts in progress."@,
        r matches AutoResolve::Refuse { message } ==> message@
            == "no resolve agent configured. Set resolve_agent in config or pass --agent"@,
{
}

/// Only files of the daemon's log are shown: all of them, the oldest first, or the
/// latest alone where the log is followed. It is filtered by the repo unless all was
/// asked for.
pub proof fn law_log_is_that_of_the_daemon(
    r: LogPlan,
    names: Seq<Seq<char>>,
    global: bool,
    follow: bool,
    repo_id: Option<&str>,
    i: int,
    j: int,
    k: int,
)
    requires
        is_log_plan(r, names, global, follow, repo_id),
    ensures
        r is Missing <==> (forall|n: int|
            0 <= n < names.len() ==> !has_prefix(#[trigger] names[n], "daemon.log"@)),
        !(r is Missing) ==> (r is Follow <==> follow),
        r matches LogPlan::Follow { file, filter } ==> {
            &&& names.contains(file@)
            &&& has_prefix(file@, "daemon.log"@)
            &&& 0 <= i < names.len() && has_prefix(names[i], "daemon.log"@) ==> names[i] == file@
                || text_less(names[i], file@)
            &&& global || repo_id is None ==> filter is None
            &&& !global ==> (repo_id matches Some(id) ==> (filter matches Some(f) && f@
                == without_end(id@, '/', '\\')))
        },
        r matches LogPlan::Page { files, filter } ==> {
            &&& 0 <= i < names.len() && has_prefix(names[i], "daemon.log"@) ==> views(
                files@,
            ).contains(names[i])
            &&& 0 <= j < files@.len() ==> names.contains(files@[j]@) && has_prefix(
                files@[j]@,
                "daemon.log"@,
            )
            &&& 0 <= j < k < files@.len() ==> text_less(files@[j]@, files@[k]@)
            &&& global || repo_id is None ==> filter is None
            &&& !global ==> (repo_id matches Some(id) ==> (filter matches Some(f) && f@
                == without_end(id@, '/', '\\')))
        },
{
    let p = |n: Seq<char>| has_prefix(n, "daemon.log"@);
    let kept = names.filter(p);
    assert(forall|n: int| 0 <= n < names.len() ==> p(names[n]) == has_prefix(
        #[trigger] names[n],
        "daemon.log"@,
    ));
    assert forall|x: Seq<char>| #[trigger] log_names(names).contains(x) <==> names.contains(x)
        && has_prefix(x, "daemon.log"@) by {
        if kept.contains(x) {
            let n = choose|n: int| 0 <= n < kept.len() && kept[n] == x;
            names.lemma_filter_pred(p, n);
            names.lemma_filter_contains_rev(p, x);
        }
        if names.contains(x) && has_prefix(x, "daemon.log"@) {
            let n = choose|n: int| 0 <= n < names.len() && names[n] == x;
            names.lemma_filter_contains(p, n);
        }
    }
    if log_names(names).len() == 0 {
        vstd::set_lib::lemma_set_empty_equivalency_len(log_names(names));
        assert forall|n: int| 0 <= n < names.len() implies !has_prefix(
            #[trigger] names[n],
            "daemon.log"@,
        ) by {
            if has_prefix(names[n], "daemon.log"@) {
                assert(log_names(names).contains(names[n]));
            }
        }
    } else {
        vstd::set_lib::lemma_set_empty_equivalency_len(log_names(names));
        let x = choose|x: Seq<char>| log_names(names).contains(x);
        assert(log_names(names).contains(x));
        let n = choose|n: int| 0 <= n < names.len() && names[n] == x;
        assert(has_prefix(names[n], "daemon.log"@));
    }
    if 0 <= i < names.len() && has_prefix(names[i], "daemon.log"@) {
        assert(log_names(names).contains(names[i]));
    }
    if let LogPlan::Page { files, filter } = r {
        let v = views(files@);
        assert(v.len() == files@.len());
        if 0 <= i < names.len() && has_prefix(names[i], "daemon.log"@) {
            assert(v.to_set().contains(names[i]));
        }
        if 0 <= j < files@.len() {
            assert(v[j] == files@[j]@);
            assert(v.to_set().contains(v[j]));
        }
        if 0 <= j < k < files@.len() {
            assert(v[j] == files@[j]@ && v[k] == files@[k]@);
        }
    }
}

/// What is set up: the shell hook, the daemon or both, as the component is called; any
/// other name is refused. A shell hook needs a shell.
pub proof fn law_components_are_set_up(
    r: Result<Setup, String>,
    component: Seq<char>,
    shell: Option<Seq<char>>,
)
    requires
        is_setup(r, component, shell),
    ensures
        component == "daemon"@ ==> r matches Ok(Setup::Daemon),
        component == "shell"@ || component == "hooks"@ || component == "all"@ ==> (r is Ok
            <==> shell is Some),
        component != "shell"@ && component != "hooks"@ && component != "all"@ && component
            != "daemon"@ ==> (r matches Err(e) && e@ == "unknown component: "@ + component
            + ". Use 'shell', 'daemon', or 'all'"@),
        r matches Ok(Setup::Daemon) ==> component == "daemon"@,
        r matches Ok(Setup::Shell { shell: s }) ==> shell == Some(s@) && (component == "shell"@
            || component == "hooks"@),
        r matches Ok(Setup::Both { shell: s }) ==> shell == Some(s@) && component == "all"@,
        shell is None && (component == "shell"@ || component == "hooks"@ || component == "all"@)
            ==> (r matches Err(e) && e@
            == "could not detect shell, specify with: gitsitter install shell <name>"@),
{
    reveal_strlit("shell");
    reveal_strlit("hooks");
    reveal_strlit("all");
    reveal_strlit("daemon");
    assert("shell"@.len() == 5 && "hooks"@.len() == 5 && "all"@.len() == 3 && "daemon"@.len()
        == 6);
}

/// A path below the home of the user begins with a tilde; any other is shown whole.
pub proof fn law_home_is_shown_as_a_tilde(home: &str, rest: Seq<char>, p: Seq<char>)
    ensures
        path_at_home(home@ + rest, Some(home)) == "~"@ + rest,
        !has_prefix(p, home@) ==> path_at_home(p, Some(home)) == p,
        path_at_home(p, None) == p,
{
    assert((home@ + rest).take(home@.len() as int) =~= home@);
    assert((home@ + rest).skip(home@.len() as int) =~= rest);
}

/// The search path of the daemon names each directory once, where it came first.
pub proof fn law_directories_keep_their_order(dirs: Seq<Seq<char>>, d: Seq<char>)
    ensures
        dirs.len() == 0 ==> daemon_path(dirs) == "/usr/bin:/usr/local/bin"@,
        dirs.len() > 0 ==> daemon_path(dirs) == join(firsts(dirs), ":"@),
        firsts(Seq::empty()).len() == 0,
        dirs.contains(d) ==> firsts(dirs.push(d)) == firsts(dirs),
        !dirs.contains(d) ==> firsts(dirs.push(d)) == firsts(dirs) + seq![d],
{
    law_daemon_path_is_complete(dirs, d);
    assert(dirs.push(d).drop_last() =~= dirs);
    assert(firsts(dirs).push(d) =~= firsts(dirs) + seq![d]);
}

/// A newer release is hinted at unless the user does not want that.
pub proof fn law_hint_can_be_turned_off(latest: Option<&str>)
    ensures
        hint_of(latest, true) is None,
        hint_of(None, false) is None,
        latest matches Some(v) ==> hint_of(latest, false) == Some(
            "\ngitsitter "@ + v@ + " available (current: v"@ + "0.1.0"@
                + "), run `gitsitter self-update`"@,
        ),
{
}

} // verus!
