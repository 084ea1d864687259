//! What the config command prints.

use vstd::prelude::*;

use crate::cli::{display_path, path_at_home, say};
use crate::clock::Duration;
use crate::config::{Disabled, GlobalSettings, RepoConfig, UserConfig};
use crate::hosts::HostSet;
use crate::text::{cat, cat4, text_eq, views};

verus! {

/// How the `Debug` of `std::time::Duration` writes whole seconds and
/// nanoseconds.
pub uninterp spec fn duration_text(secs: u64, nanos: u32) -> Seq<char>;

/// How the `Debug` of a list of strings writes them.
pub uninterp spec fn list_text(list: Seq<Seq<char>>) -> Seq<char>;

/// The `Debug` of `std::time::Duration`, such as `60s`: it depends on the
/// duration alone.
#[verifier::external_body]
fn debug_duration(secs: u64, nanos: u32) -> (r: String)
    requires
        nanos < 1_000_000_000,
    ensures
        r@ == duration_text(secs, nanos),
{
    format!("{:?}", std::time::Duration::new(secs, nanos))
}

/// The `Debug` of a `Vec<String>`, such as `["origin", "fork"]`: it depends on
/// the strings alone.
#[verifier::external_body]
fn debug_list(list: &Vec<String>) -> (r: String)
    ensures
        r@ == list_text(views(list@)),
{
    format!("{:?}", list)
}

/// How a duration is shown.
pub open spec fn shown_duration(d: Duration) -> Seq<char> {
    duration_text(
        (d@ / 1_000_000_000) as u64,
        (d@ % 1_000_000_000) as u32,
    )
}

fn show_duration(d: Duration) -> (r: String)
    ensures
        r@ == shown_duration(d),
{
    debug_duration(d.as_secs(), d.subsec_nanos())
}

/// How a Boolean is shown.
pub open spec fn shown_flag(b: bool) -> Seq<char> {
    if b {
        "true"@
    } else {
        "false"@
    }
}

fn show_flag(b: bool) -> (r: &'static str)
    ensures
        r@ == shown_flag(b),
{
    if b {
        "true"
    } else {
        "false"
    }
}

/// The lines of the global settings.
pub open spec fn global_lines(g: GlobalSettings) -> Seq<Seq<char>> {
    seq![
        "Global settings:"@,
        "  refresh_interval: "@ + shown_duration(g.refresh_interval),
        "  colors: "@ + shown_flag(g.colors),
        "  emoji: "@ + shown_flag(g.emoji),
        "  notification_cooldown: "@ + shown_duration(g.notification_cooldown),
    ] + (match g.git_path {
        Some(p) => seq!["  git_path: "@ + p@],
        None => Seq::empty(),
    }) + seq![Seq::<char>::empty()]
}

/// The lines of the trusted hosts, in ascending order.
pub open spec fn host_lines(hosts: Seq<Seq<char>>) -> Seq<Seq<char>> {
    if hosts.len() == 0 {
        Seq::empty()
    } else {
        seq!["Trusted hosts:"@] + hosts.map_values(|h: Seq<char>| "  "@ + h) + seq![
            Seq::<char>::empty(),
        ]
    }
}

/// The lines of a repo. The current repo is marked.
pub open spec fn repo_lines(
    path: Seq<char>,
    entry: RepoConfig,
    home: Option<&str>,
    current: Option<Seq<char>>,
) -> Seq<Seq<char>> {
    let marker = if current == Some(path) {
        " ←"@
    } else {
        Seq::empty()
    };
    let disabled = match entry.disabled {
        Some(Disabled::All(true)) => seq!["    disabled: true"@],
        Some(Disabled::Remotes(list)) => seq!["    disabled remotes: "@ + list_text(views(list@))],
        _ => Seq::empty(),
    };
    let interval = match entry.refresh_interval {
        Some(d) => seq!["    refresh_interval: "@ + shown_duration(d)],
        None => Seq::empty(),
    };
    seq!["  "@ + path_at_home(path, home) + ":"@ + marker] + disabled + interval
}

/// The lines of the repos among `paths`.
pub open spec fn all_repo_lines(
    paths: Seq<Seq<char>>,
    repos: Map<Seq<char>, RepoConfig>,
    home: Option<&str>,
    current: Option<Seq<char>>,
) -> Seq<Seq<char>>
    decreases paths.len(),
{
    if paths.len() == 0 {
        Seq::empty()
    } else {
        all_repo_lines(paths.drop_last(), repos, home, current) + repo_lines(
            paths.last(),
            repos[paths.last()],
            home,
            current,
        )
    }
}

/// All lines of the config.
pub open spec fn config_lines(
    config: UserConfig,
    home: Option<&str>,
    current: Option<Seq<char>>,
    config_file: Seq<char>,
) -> Seq<Seq<char>> {
    global_lines(config.global) + host_lines(config.trusted_hosts.order()) + (if config.repos.keys().len()
        == 0 {
        Seq::empty()
    } else {
        seq!["Per-repo overrides:"@] + all_repo_lines(
            config.repos.keys(),
            config.repos@,
            home,
            current,
        )
    }) + seq![Seq::<char>::empty(), "Config file: "@ + config_file]
}

fn say_global(out: &mut Vec<String>, g: &GlobalSettings)
    ensures
        views(final(out)@) == views(old(out)@) + global_lines(*g),
{
    let ghost was = views(out@);
    say(out, String::from_str("Global settings:"));
    say(out, cat("  refresh_interval: ", show_duration(g.refresh_interval).as_str()));
    say(out, cat("  colors: ", show_flag(g.colors)));
    say(out, cat("  emoji: ", show_flag(g.emoji)));
    say(out, cat("  notification_cooldown: ", show_duration(g.notification_cooldown).as_str()));
    if let Some(p) = &g.git_path {
        say(out, cat("  git_path: ", p.as_str()));
    }
    say(out, String::new());
    assert(views(out@) =~= was + global_lines(*g));
}

fn say_hosts(out: &mut Vec<String>, hosts: &HostSet)
    ensures
        views(final(out)@) == views(old(out)@) + host_lines(hosts.order()),
{
    let ghost was = views(out@);
    let n = hosts.len();
    if n == 0 {
        assert(was + host_lines(hosts.order()) =~= was);
        return ;
    }
    say(out, String::from_str("Trusted hosts:"));
    let ghost head = was.push("Trusted hosts:"@);
    let ghost all = hosts.order().map_values(|h: Seq<char>| "  "@ + h);
    let mut i: usize = 0;
    assert(views(out@) =~= head + all.take(0));
    while i < n
        invariant
            n == hosts.order().len(),
            i <= n,
            all == hosts.order().map_values(|h: Seq<char>| "  "@ + h),
            views(out@) == head + all.take(i as int),
        decreases n - i,
    {
        say(out, cat("  ", hosts.at(i)));
        assert(all.take(i + 1) =~= all.take(i as int).push(all[i as int]));
        assert(head + all.take(i + 1) =~= (head + all.take(i as int)).push(all[i as int]));
        i = i + 1;
    }
    assert(all.take(i as int) =~= all);
    say(out, String::new());
    assert(views(out@) =~= was + host_lines(hosts.order()));
}

fn say_repo(
    out: &mut Vec<String>,
    path: &str,
    entry: &RepoConfig,
    home: Option<&str>,
    current: Option<&str>,
)
    ensures
        views(final(out)@) == views(old(out)@) + repo_lines(
            path@,
            *entry,
            home,
            crate::cli::opt_text(current),
        ),
{
    let ghost was = views(out@);
    let here = match current {
        Some(c) => text_eq(c, path),
        None => false,
    };
    let marker = if here {
        String::from_str(" ←")
    } else {
        String::new()
    };
    proof {
        if !here {
            assert(marker@ =~= Seq::<char>::empty());
        }
    }
    say(out, cat4("  ", display_path(path, home).as_str(), ":", marker.as_str()));
    match &entry.disabled {
        Some(Disabled::All(true)) => {
            say(out, String::from_str("    disabled: true"));
        },
        Some(Disabled::Remotes(list)) => {
            say(out, cat("    disabled remotes: ", debug_list(list).as_str()));
        },
        _ => {},
    }
    if let Some(d) = entry.refresh_interval {
        say(out, cat("    refresh_interval: ", show_duration(d).as_str()));
    }
    assert(views(out@) =~= was + repo_lines(
        path@,
        *entry,
        home,
        crate::cli::opt_text(current),
    ));
}

/// What the config command prints. `current` is the repo that the command was
/// run in, if it was in one.
pub fn handle_config(
    config: &UserConfig,
    home: Option<&str>,
    current: Option<&str>,
    config_file: &str,
) -> (r: Vec<String>)
    ensures
        views(r@) == config_lines(*config, home, crate::cli::opt_text(current), config_file@),
{
    let mut out: Vec<String> = Vec::new();
    assert(views(out@) =~= Seq::<Seq<char>>::empty());
    say_global(&mut out, &config.global);
    assert(views(out@) =~= global_lines(config.global));
    say_hosts(&mut out, &config.trusted_hosts);
    let ghost head = views(out@);
    let n = config.repos.len();
    let ghost paths = config.repos.keys();
    let ghost cur = crate::cli::opt_text(current);
    let mut i: usize = 0;
    if n > 0 {
        say(&mut out, String::from_str("Per-repo overrides:"));
    }
    let ghost start = views(out@);
    assert(start + all_repo_lines(paths.take(0), config.repos@, home, cur) =~= start);
    while i < n
        invariant
            n == config.repos.keys().len(),
            paths == config.repos.keys(),
            cur == crate::cli::opt_text(current),
            i <= n,
            views(out@) == start + all_repo_lines(paths.take(i as int), config.repos@, home, cur),
        decreases n - i,
    {
        let path = config.repos.key_at(i);
        let entry = config.repos.value_at(i);
        let ghost was = views(out@);
        say_repo(&mut out, path, entry, home, current);
        assert(paths.take(i + 1).drop_last() =~= paths.take(i as int));
        assert(paths.take(i + 1).last() == path@);
        assert(views(out@) =~= start + all_repo_lines(paths.take(i + 1), config.repos@, home, cur));
        i = i + 1;
    }
    assert(paths.take(i as int) =~= paths);
    say(&mut out, String::new());
    say(&mut out, cat("Config file: ", config_file));
    proof {
        let body = if paths.len() == 0 {
            Seq::<Seq<char>>::empty()
        } else {
            seq!["Per-repo overrides:"@] + all_repo_lines(paths, config.repos@, home, cur)
        };
        assert(views(out@) =~= head + body + seq![Seq::<char>::empty(), "Config file: "@ + config_file@]);
    }
    out
}

// ---------------------------------------------------------------------------
// What is printed
// ---------------------------------------------------------------------------

/// A span of time is shown by its seconds and by what is left of them.
pub proof fn law_spans_are_shown_by_their_seconds(d: Duration, secs: u64, nanos: u32)
    requires
        d@ == secs * 1_000_000_000 + nanos,
        nanos < 1_000_000_000,
    ensures
        shown_duration(d) == duration_text(secs, nanos),
{
    assert(d@ / 1_000_000_000 == secs) by (nonlinear_arith)
        requires
            d@ == secs * 1_000_000_000 + nanos,
            0 <= nanos < 1_000_000_000,
    ;
    assert(d@ % 1_000_000_000 == nanos) by (nonlinear_arith)
        requires
            d@ == secs * 1_000_000_000 + nanos,
            0 <= nanos < 1_000_000_000,
    ;
}

/// The global settings are printed each on a line, under their names. The path of git
/// comes last, where it is set.
pub proof fn law_global_settings_are_printed(g: GlobalSettings)
    ensures
        ({
            let lines = global_lines(g);
            &&& lines[0] == "Global settings:"@
            &&& lines[1] == "  refresh_interval: "@ + shown_duration(g.refresh_interval)
            &&& g.colors ==> lines[2] == "  colors: "@ + "true"@
            &&& !g.colors ==> lines[2] == "  colors: "@ + "false"@
            &&& g.emoji ==> lines[3] == "  emoji: "@ + "true"@
            &&& !g.emoji ==> lines[3] == "  emoji: "@ + "false"@
            &&& lines[4] == "  notification_cooldown: "@ + shown_duration(g.notification_cooldown)
            &&& g.git_path is None ==> lines.len() == 6
            &&& g.git_path matches Some(p) ==> lines.len() == 7 && lines[5] == "  git_path: "@ + p@
            &&& lines.last().len() == 0
        }),
{
}

/// The trusted hosts are printed each on a line, in their order. Without any nothing is
/// printed of them.
pub proof fn law_hosts_are_printed(hosts: Seq<Seq<char>>, i: int)
    ensures
        hosts.len() == 0 ==> host_lines(hosts).len() == 0,
        hosts.len() > 0 ==> {
            let lines = host_lines(hosts);
            &&& lines.len() == hosts.len() + 2
            &&& lines[0] == "Trusted hosts:"@
            &&& 0 <= i < hosts.len() ==> lines[1 + i] == "  "@ + hosts[i]
            &&& lines.last().len() == 0
        },
{
}

/// A repo is printed with its path, which is marked where the user stands in it, and
/// with what was set for it, and nothing else.
pub proof fn law_repo_is_printed_with_its_settings(
    path: Seq<char>,
    entry: RepoConfig,
    home: Option<&str>,
    current: Option<Seq<char>>,
)
    ensures
        ({
            let lines = repo_lines(path, entry, home, current);
            &&& current == Some(path) ==> lines[0] == "  "@ + path_at_home(path, home) + ":"@
                + " ←"@
            &&& current != Some(path) ==> lines[0] == "  "@ + path_at_home(path, home) + ":"@
            &&& entry.disabled == Some(Disabled::All(true)) ==> lines.len() >= 2 && lines[1]
                == "    disabled: true"@
            &&& entry.disabled matches Some(Disabled::Remotes(list)) ==> lines.len() >= 2
                && lines[1] == "    disabled remotes: "@ + list_text(views(list@))
            &&& entry.refresh_interval matches Some(d) ==> lines.len() >= 2 && lines.last()
                == "    refresh_interval: "@ + shown_duration(d)
            &&& lines.len() == 1 + (if entry.disabled is None || entry.disabled == Some(
                Disabled::All(false),
            ) {
                0int
            } else {
                1
            }) + (if entry.refresh_interval is None {
                0int
            } else {
                1
            })
        }),
{
    let lines = repo_lines(path, entry, home, current);
    if current != Some(path) {
        assert(lines[0] =~= "  "@ + path_at_home(path, home) + ":"@);
    }
}

/// The repos are printed one after the other, in their order.
pub proof fn law_repos_are_printed_in_order(
    paths: Seq<Seq<char>>,
    path: Seq<char>,
    repos: Map<Seq<char>, RepoConfig>,
    home: Option<&str>,
    current: Option<Seq<char>>,
)
    ensures
        all_repo_lines(Seq::empty(), repos, home, current).len() == 0,
        all_repo_lines(paths.push(path), repos, home, current) == all_repo_lines(
            paths,
            repos,
            home,
            current,
        ) + repo_lines(path, repos[path], home, current),
{
    assert(paths.push(path).drop_last() =~= paths);
}

/// The config is printed from the global settings to the file that it is in.
pub proof fn law_config_is_printed_whole(
    config: UserConfig,
    home: Option<&str>,
    current: Option<Seq<char>>,
    config_file: Seq<char>,
)
    ensures
        ({
            let lines = config_lines(config, home, current, config_file);
            let g = global_lines(config.global);
            let h = host_lines(config.trusted_hosts.order());
            let r = all_repo_lines(config.repos.keys(), config.repos@, home, current);
            let front = (g.len() + h.len()) as int;
            &&& lines.take(g.len() as int) == g
            &&& lines.subrange(g.len() as int, front) == h
            &&& lines.last() == "Config file: "@ + config_file
            &&& lines[lines.len() - 2].len() == 0
            &&& config.repos.keys().len() == 0 ==> lines.len() == front + 2
            &&& config.repos.keys().len() > 0 ==> {
                &&& lines.len() == front + r.len() + 3
                &&& lines[front] == "Per-repo overrides:"@
                &&& lines.subrange(front + 1, front + 1 + r.len()) == r
            }
        }),
{
    let lines = config_lines(config, home, current, config_file);
    let g = global_lines(config.global);
    let h = host_lines(config.trusted_hosts.order());
    let r = all_repo_lines(config.repos.keys(), config.repos@, home, current);
    let front = (g.len() + h.len()) as int;
    assert(lines.take(g.len() as int) =~= g);
    assert(lines.subrange(g.len() as int, front) =~= h);
    if config.repos.keys().len() > 0 {
        assert(lines.subrange(front + 1, front + 1 + r.len()) =~= r);
    }
}

} // verus!
