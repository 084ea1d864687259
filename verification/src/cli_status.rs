//! What the status commands print.

use vstd::prelude::*;

use crate::cli::{display_path, path_at_home, say};
use crate::cli_ui::{
    branch_status_icon, branch_status_styled, hue_of, icon_of, is_shown, label_of, pair_of,
    sync_pair, warning_icon, warning_of, DisplayOpts,
};
use crate::config::{extract_host, url_host, UserConfig};
use crate::git_ops::text_map;
use crate::sync::{ActionError, BranchState};
use crate::text::{cat, cat3, cat5, decimal, format_u64, list_contains, view_opt, views};
use crate::timestamp::{
    format_relative_time, format_uptime, relative_time, uptime_of, Stamp,
};
use crate::transport::{BranchStatusData, RepoStatusData, Response, StatusData, SyncEvent};

verus! {

// ---------------------------------------------------------------------------
// One repo
// ---------------------------------------------------------------------------

/// When a repo was synced last.
pub open spec fn sync_info_of(last_sync: Option<Seq<char>>, now: Stamp) -> Seq<char> {
    match last_sync {
        Some(ts) => "synced "@ + relative_time(ts, now),
        None => "never synced"@,
    }
}

/// When a repo was synced last.
pub fn sync_info(last_sync: &Option<String>, now: Stamp) -> (r: String)
    requires
        now.wf(),
    ensures
        r@ == sync_info_of(view_opt(*last_sync), now),
{
    match last_sync {
        Some(ts) => cat("synced ", format_relative_time(ts.as_str(), now).as_str()),
        None => String::from_str("never synced"),
    }
}

/// `s` with spaces behind it, `width` characters at least.
pub open spec fn padded(s: Seq<char>, width: nat) -> Seq<char> {
    if s.len() < width {
        s + Seq::new((width - s.len()) as nat, |i: int| ' ')
    } else {
        s
    }
}

/// `s` with spaces behind it, `width` characters at least.
fn pad(s: &str, width: usize) -> (r: String)
    ensures
        r@ == padded(s@, width as nat),
{
    let n = crate::text::chars_of(s).len();
    let mut out = String::from_str(s);
    let mut i: usize = n;
    assert(s@ + Seq::new(0, |j: int| ' ') =~= s@);
    while i < width
        invariant
            n == s@.len(),
            n <= i,
            i <= width || i == n,
            out@ == s@ + Seq::new((i - n) as nat, |j: int| ' '),
        decreases width - i,
    {
        out.push(' ');
        assert(out@ =~= s@ + Seq::new((i + 1 - n) as nat, |j: int| ' '));
        i = i + 1;
    }
    out
}

/// The state that a status string stands for. One that stands for none is shown
/// as an error.
pub open spec fn state_of(status: Seq<char>) -> BranchState {
    if exists|state: BranchState| #[trigger] state.status() == status {
        choose|state: BranchState| #[trigger] state.status() == status
    } else {
        BranchState::Failed(ActionError::Other)
    }
}

/// The state that a status string stands for.
pub fn read_state(status: &str) -> (r: BranchState)
    ensures
        r == state_of(status@),
{
    match BranchState::from_status(status) {
        Some(state) => {
            proof {
                crate::sync::law_status_strings_are_distinct(state, state_of(status@));
            }
            state
        },
        None => BranchState::Failed(ActionError::Other),
    }
}

/// Every state is read back from its status string.
pub proof fn law_state_is_read_back(state: BranchState)
    ensures
        state_of(state.status()) == state,
{
    crate::sync::law_status_strings_are_distinct(state, state_of(state.status()));
}

/// The upstream of a branch, or what is shown in its place.
pub open spec fn upstream_or(b: BranchStatusData, other: Seq<char>) -> Seq<char> {
    match b.upstream {
        Some(u) => u@,
        None => other,
    }
}

/// The line of a branch, with the label as it is shown.
pub open spec fn branch_line_of(b: BranchStatusData, label: Seq<char>, emoji: bool) -> Seq<char> {
    "  "@ + padded(pair_of(b.name@, upstream_or(b, "(no upstream)"@)), 32) + " "@ + icon_of(
        state_of(b.status@),
        emoji,
    ) + "  "@ + label + (match b.last_action {
        Some(a) => ", "@ + a@,
        None => Seq::empty(),
    })
}

/// The line of a branch, with the label as it is shown.
pub fn branch_line(b: &BranchStatusData, label: &str, opts: DisplayOpts) -> (r: String)
    ensures
        r@ == branch_line_of(*b, label@, opts.emoji),
{
    let upstream = match &b.upstream {
        Some(u) => u.as_str(),
        None => "(no upstream)",
    };
    let pair = sync_pair(b.name.as_str(), upstream);
    let state = read_state(b.status.as_str());
    let icon = branch_status_icon(&state, opts);
    let mut line = cat5("  ", pad(pair.as_str(), 32).as_str(), " ", icon, "  ");
    line.append(label);
    match &b.last_action {
        Some(a) => {
            let tail = cat(", ", a.as_str());
            line.append(tail.as_str());
        },
        None => {
            assert(line@ + Seq::<char>::empty() =~= line@);
        },
    }
    line
}

/// Whether `line` is the line of a branch.
pub open spec fn is_branch_line(line: Seq<char>, b: BranchStatusData, opts: DisplayOpts) -> bool {
    exists|label: Seq<char>| #[trigger]
        is_shown(label, label_of(state_of(b.status@)), hue_of(state_of(b.status@)), opts.colors)
            && line == branch_line_of(b, label, opts.emoji)
}

/// The host of a URL, or the URL where it has none.
pub open spec fn host_or_url(url: Seq<char>) -> Seq<char> {
    match url_host(url) {
        Some(host) => host,
        None => url,
    }
}

/// The host of a URL, or the URL where it has none.
pub fn host_or(url: &str) -> (r: String)
    ensures
        r@ == host_or_url(url@),
{
    match extract_host(url) {
        Some(host) => host,
        None => String::from_str(url),
    }
}

/// What is said of a remote behind its URL.
pub open spec fn remote_note(name: Seq<char>, data: StatusData, emoji: bool) -> Seq<char> {
    if views(data.untrusted_remotes@).contains(name) {
        "  "@ + warning_of(emoji) + " untrusted \u{2014} run 'gitsitter trust "@ + host_or_url(
            text_map(data.remote_urls@)[name],
        ) + "'"@
    } else if views(data.disabled_remotes@).contains(name) {
        "  "@ + warning_of(emoji) + " disabled"@
    } else {
        Seq::empty()
    }
}

/// The lines of the remotes.
pub open spec fn remote_lines_of(data: StatusData, emoji: bool) -> Seq<Seq<char>> {
    let names = data.remote_urls.keys();
    Seq::new(
        names.len(),
        |i: int|
            "    "@ + names[i] + "  "@ + text_map(data.remote_urls@)[names[i]] + remote_note(
                names[i],
                data,
                emoji,
            ),
    )
}

/// The section of the remotes, where there are any.
pub open spec fn remote_section(data: StatusData, emoji: bool) -> Seq<Seq<char>> {
    if data.remote_urls.keys().len() == 0 {
        Seq::empty()
    } else {
        seq![Seq::empty(), "  Remotes:"@] + remote_lines_of(data, emoji)
    }
}

fn remote_section_lines(data: &StatusData, opts: DisplayOpts) -> (r: Vec<String>)
    ensures
        views(r@) == remote_section(*data, opts.emoji),
{
    let n = data.remote_urls.len();
    let mut lines: Vec<String> = Vec::new();
    if n == 0 {
        assert(views(lines@) =~= remote_section(*data, opts.emoji));
        return lines;
    }
    say(&mut lines, String::new());
    say(&mut lines, String::from_str("  Remotes:"));
    let ghost head = seq![Seq::<char>::empty(), "  Remotes:"@];
    let ghost all = remote_lines_of(*data, opts.emoji);
    assert(views(lines@) =~= head + all.take(0));
    let mut i: usize = 0;
    while i < n
        invariant
            n == data.remote_urls.keys().len(),
            i <= n,
            all == remote_lines_of(*data, opts.emoji),
            views(lines@) == head + all.take(i as int),
        decreases n - i,
    {
        let name = data.remote_urls.key_at(i);
        let url = data.remote_urls.value_at(i).as_str();
        assert(text_map(data.remote_urls@)[name@] == url@);
        let note = if list_contains(&data.untrusted_remotes, name) {
            cat5(
                "  ",
                warning_icon(opts),
                " untrusted \u{2014} run 'gitsitter trust ",
                host_or(url).as_str(),
                "'",
            )
        } else if list_contains(&data.disabled_remotes, name) {
            cat3("  ", warning_icon(opts), " disabled")
        } else {
            String::new()
        };
        let line = cat5("    ", name, "  ", url, note.as_str());
        proof {
            assert(note@ =~= remote_note(name@, *data, opts.emoji));
            assert(line@ == all[i as int]);
            assert(all.take(i + 1) =~= all.take(i as int).push(all[i as int]));
            assert(head + all.take(i + 1) =~= (head + all.take(i as int)).push(all[i as int]));
        }
        say(&mut lines, line);
        i = i + 1;
    }
    assert(all.take(i as int) =~= all);
    lines
}

/// What `print_repo_status` prints of a repo, with its header as it is shown.
pub fn print_repo_status(data: &StatusData, header: &str, now: Stamp, opts: DisplayOpts) -> (r: Vec<
    String,
>)
    requires
        now.wf(),
    ensures
        r@.len() == 4 + data.branches@.len() + remote_section(*data, opts.emoji).len(),
        views(r@).take(3) == seq![
            Seq::empty(),
            header@ + "  "@ + sync_info_of(view_opt(data.last_sync), now),
            Seq::empty(),
        ],
        forall|i: int|
            0 <= i < data.branches@.len() ==> is_branch_line(
                #[trigger] views(r@)[3 + i],
                data.branches@[i],
                opts,
            ),
        views(r@).skip(3 + data.branches@.len() as int) == remote_section(*data, opts.emoji).push(
            Seq::empty(),
        ),
{
    let mut lines: Vec<String> = Vec::new();
    say(&mut lines, String::new());
    let info = sync_info(&data.last_sync, now);
    say(&mut lines, cat3(header, "  ", info.as_str()));
    say(&mut lines, String::new());
    let ghost head = seq![
        Seq::<char>::empty(),
        header@ + "  "@ + sync_info_of(view_opt(data.last_sync), now),
        Seq::<char>::empty(),
    ];
    assert(views(lines@) =~= head);
    assert(views(lines@).take(3) =~= head);
    let mut i: usize = 0;
    while i < data.branches.len()
        invariant
            i <= data.branches@.len(),
            views(lines@).len() == 3 + i,
            views(lines@).take(3) == head,
            forall|k: int|
                0 <= k < i ==> is_branch_line(
                    #[trigger] views(lines@)[3 + k],
                    data.branches@[k],
                    opts,
                ),
        decreases data.branches.len() - i,
    {
        let b = &data.branches[i];
        let state = read_state(b.status.as_str());
        let label = branch_status_styled(&state, opts);
        let line = branch_line(b, label.as_str(), opts);
        assert(is_branch_line(line@, *b, opts));
        let ghost was = views(lines@);
        say(&mut lines, line);
        assert(views(lines@).take(3) =~= was.take(3));
        assert forall|k: int| 0 <= k < i + 1 implies is_branch_line(
            #[trigger] views(lines@)[3 + k],
            data.branches@[k],
            opts,
        ) by {
            if k < i {
                assert(views(lines@)[3 + k] == was[3 + k]);
            }
        }
        i = i + 1;
    }
    let ghost front = views(lines@);
    let section = remote_section_lines(data, opts);
    let mut j: usize = 0;
    assert(front + views(section@).take(0) =~= front);
    while j < section.len()
        invariant
            j <= section@.len(),
            views(lines@) == front + views(section@).take(j as int),
        decreases section.len() - j,
    {
        assert(views(section@).take(j + 1) =~= views(section@).take(j as int).push(
            section@[j as int]@,
        ));
        assert(front + views(section@).take(j + 1) =~= (front + views(section@).take(j as int)).push(
            section@[j as int]@,
        ));
        say(&mut lines, String::from_str(section[j].as_str()));
        j = j + 1;
    }
    assert(views(section@).take(j as int) =~= views(section@));
    say(&mut lines, String::new());
    proof {
        let all = views(lines@);
        let tail = views(section@).push(Seq::<char>::empty());
        assert(all =~= front + tail);
        assert(all.take(3) =~= front.take(3));
        assert(all.skip(front.len() as int) =~= tail);
        assert forall|k: int| 0 <= k < data.branches@.len() implies is_branch_line(
            #[trigger] all[3 + k],
            data.branches@[k],
            opts,
        ) by {
            assert(all[3 + k] == front[3 + k]);
        }
    }
    lines
}

/// What is printed of a repo while the daemon is not running.
pub fn offline_status_lines(header: &str) -> (r: Vec<String>)
    ensures
        views(r@) == seq![
            Seq::empty(),
            header@,
            Seq::empty(),
            "   No sync data available, ensure the daemon is running"@,
            Seq::empty(),
        ],
{
    let mut lines: Vec<String> = Vec::new();
    say(&mut lines, String::new());
    say(&mut lines, String::from_str(header));
    say(&mut lines, String::new());
    say(&mut lines, String::from_str("   No sync data available, ensure the daemon is running"));
    say(&mut lines, String::new());
    assert(views(lines@) =~= seq![
        Seq::empty(),
        header@,
        Seq::empty(),
        "   No sync data available, ensure the daemon is running"@,
        Seq::empty(),
    ]);
    lines
}

/// What is said of an answer that was not expected.
pub open spec fn complaint_of(resp: Response) -> Seq<char> {
    match resp {
        Response::Error { message } => "error: "@ + message@,
        _ => "unexpected response from daemon"@,
    }
}

/// What is printed of a reply that is not the one asked for.
pub fn reply_complaint(resp: &Response) -> (r: String)
    ensures
        r@ == complaint_of(*resp),
        r@ == (match *resp {
            Response::Error { message } => "error: "@ + message@,
            _ => "unexpected response from daemon"@,
        }),
{
    match resp {
        Response::Error { message } => cat("error: ", message.as_str()),
        _ => String::from_str("unexpected response from daemon"),
    }
}

// ---------------------------------------------------------------------------
// All repos
// ---------------------------------------------------------------------------

/// A row of the table of all repos: the path, when it was synced last, and what
/// is said of it.
#[derive(Debug, Clone, PartialEq)]
pub struct StatusRow {
    pub path: String,
    pub sync: String,
    pub status: String,
}

/// The headings of the table.
pub fn global_status_table() -> (r: Vec<String>)
    ensures
        views(r@) == seq!["Repo"@, "Last Sync"@, "Status"@],
{
    let mut r: Vec<String> = Vec::new();
    say(&mut r, String::from_str("Repo"));
    say(&mut r, String::from_str("Last Sync"));
    say(&mut r, String::from_str("Status"));
    assert(views(r@) =~= seq!["Repo"@, "Last Sync"@, "Status"@]);
    r
}

/// The row of a repo while the daemon is not running.
pub open spec fn is_offline_row(
    row: StatusRow,
    config: UserConfig,
    path: Seq<char>,
    home: Option<&str>,
) -> bool {
    &&& row.path@ == path_at_home(path, home)
    &&& row.sync@ == (if config.repo_disabled(path) {
        "never synced, disabled"@
    } else {
        "never synced"@
    })
    &&& row.status@.len() == 0
}

/// The table while the daemon is not running: the repos of the config.
pub fn offline_rows(config: &UserConfig, home: Option<&str>) -> (r: Vec<StatusRow>)
    ensures
        r@.len() == config.repos.keys().len(),
        forall|i: int|
            0 <= i < r@.len() ==> is_offline_row(
                #[trigger] r@[i],
                *config,
                config.repos.keys()[i],
                home,
            ),
{
    let n = config.repos.len();
    let mut rows: Vec<StatusRow> = Vec::new();
    let mut i: usize = 0;
    while i < n
        invariant
            n == config.repos.keys().len(),
            i <= n,
            rows@.len() == i,
            forall|k: int|
                0 <= k < i ==> is_offline_row(
                    #[trigger] rows@[k],
                    *config,
                    config.repos.keys()[k],
                    home,
                ),
        decreases n - i,
    {
        let path = config.repos.key_at(i);
        let sync = if config.is_repo_disabled(path) {
            "never synced, disabled"
        } else {
            "never synced"
        };
        rows.push(
            StatusRow {
                path: display_path(path, home),
                sync: String::from_str(sync),
                status: String::new(),
            },
        );
        i = i + 1;
    }
    rows
}

/// The row of a repo.
pub open spec fn is_online_row(
    row: StatusRow,
    repo: RepoStatusData,
    home: Option<&str>,
    now: Stamp,
) -> bool {
    &&& row.path@ == path_at_home(repo.display_path@, home)
    &&& row.sync@ == sync_info_of(view_opt(repo.last_sync), now)
    &&& row.status@ == repo.status_summary@
}

/// The table: the repos that the daemon watches.
pub fn online_rows(repos: &Vec<RepoStatusData>, home: Option<&str>, now: Stamp) -> (r: Vec<StatusRow>)
    requires
        now.wf(),
    ensures
        r@.len() == repos@.len(),
        forall|i: int|
            0 <= i < r@.len() ==> is_online_row(#[trigger] r@[i], repos@[i], home, now),
{
    let mut rows: Vec<StatusRow> = Vec::new();
    let mut i: usize = 0;
    while i < repos.len()
        invariant
            now.wf(),
            i <= repos@.len(),
            rows@.len() == i,
            forall|k: int| 0 <= k < i ==> is_online_row(#[trigger] rows@[k], repos@[k], home, now),
        decreases repos.len() - i,
    {
        let repo = &repos[i];
        rows.push(
            StatusRow {
                path: display_path(repo.display_path.as_str(), home),
                sync: sync_info(&repo.last_sync, now),
                status: String::from_str(repo.status_summary.as_str()),
            },
        );
        i = i + 1;
    }
    rows
}

/// The title of the list of repos.
pub open spec fn title_of(n: nat, daemon_running: bool) -> Seq<char> {
    if n == 0 {
        if daemon_running {
            "No repos being watched."@
        } else {
            "No repos registered."@
        }
    } else if daemon_running {
        "Watched repositories ("@ + decimal(n) + " total)"@
    } else {
        "Watched repositories (daemon not running)"@
    }
}

/// What stands above the table of `n` repos, or in its place where there is
/// none.
pub fn global_title(n: usize, daemon_running: bool) -> (r: String)
    ensures
        r@ == title_of(n as nat, daemon_running),
        r@ == (if n == 0 {
            if daemon_running {
                "No repos being watched."@
            } else {
                "No repos registered."@
            }
        } else if daemon_running {
            "Watched repositories ("@ + decimal(n as nat) + " total)"@
        } else {
            "Watched repositories (daemon not running)"@
        }),
{
    if n == 0 {
        if daemon_running {
            String::from_str("No repos being watched.")
        } else {
            String::from_str("No repos registered.")
        }
    } else if daemon_running {
        cat3("Watched repositories (", format_u64(n as u64).as_str(), " total)")
    } else {
        String::from_str("Watched repositories (daemon not running)")
    }
}

// ---------------------------------------------------------------------------
// The daemon
// ---------------------------------------------------------------------------

/// What is said of a newer version.
pub open spec fn update_lines(latest: Option<Seq<char>>) -> Seq<Seq<char>> {
    match latest {
        Some(v) => seq![
            Seq::empty(),
            "  Update available: "@ + v + " (current: v"@ + "0.1.0"@ + ")"@,
            "  Run 'gitsitter self-update' to update."@,
        ],
        None => Seq::empty(),
    }
}

/// What is printed of a daemon that is running.
pub fn handle_daemon_status(
    pid: u32,
    uptime_secs: u64,
    repos_watched: usize,
    latest_version: Option<&str>,
) -> (r: Vec<String>)
    ensures
        views(r@) == seq![
            "\u{2713} Daemon is running"@,
            "  PID:           "@ + decimal(pid as nat),
            "  Uptime:        "@ + uptime_of(uptime_secs as nat),
            "  Repos watched: "@ + decimal(repos_watched as nat),
        ] + update_lines(crate::cli::opt_text(latest_version)),
{
    let mut lines: Vec<String> = Vec::new();
    say(&mut lines, String::from_str("\u{2713} Daemon is running"));
    say(&mut lines, cat("  PID:           ", format_u64(pid as u64).as_str()));
    say(&mut lines, cat("  Uptime:        ", format_uptime(uptime_secs).as_str()));
    say(&mut lines, cat("  Repos watched: ", format_u64(repos_watched as u64).as_str()));
    let ghost head = seq![
        "\u{2713} Daemon is running"@,
        "  PID:           "@ + decimal(pid as nat),
        "  Uptime:        "@ + uptime_of(uptime_secs as nat),
        "  Repos watched: "@ + decimal(repos_watched as nat),
    ];
    assert(views(lines@) =~= head);
    if let Some(v) = latest_version {
        say(&mut lines, String::new());
        say(
            &mut lines,
            cat5(
                "  Update available: ",
                v,
                " (current: v",
                crate::self_update::current_version(),
                ")",
            ),
        );
        say(&mut lines, String::from_str("  Run 'gitsitter self-update' to update."));
    }
    assert(views(lines@) =~= head + update_lines(crate::cli::opt_text(latest_version)));
    lines
}

// ---------------------------------------------------------------------------
// Syncing
// ---------------------------------------------------------------------------

/// The line of a sync event.
pub open spec fn event_line_of(event: SyncEvent) -> Seq<char> {
    match event {
        SyncEvent::Fetch { remotes } => "fetched "@ + crate::text::join(views(remotes@), ", "@),
        SyncEvent::Branch { branch, analysis, sync_action, rewrite, status, detail } => branch@
            + ": "@ + analysis@ + " \u{2192} "@ + sync_action@ + (match rewrite {
            Some(rw) => " (rewrite: "@ + rw@ + ")"@,
            None => Seq::empty(),
        }) + " \u{2192} "@ + detail@ + " ["@ + status@ + "]"@,
    }
}

/// The line of a sync event.
pub fn event_line(event: &SyncEvent) -> (r: String)
    ensures
        r@ == event_line_of(*event),
{
    match event {
        SyncEvent::Fetch { remotes } => {
            let list = crate::text::join_from(remotes, 0, ", ");
            assert(views(remotes@).skip(0) =~= views(remotes@));
            cat("fetched ", list.as_str())
        },
        SyncEvent::Branch { branch, analysis, sync_action, rewrite, status, detail } => {
            let mut line = cat5(
                branch.as_str(),
                ": ",
                analysis.as_str(),
                " \u{2192} ",
                sync_action.as_str(),
            );
            match rewrite {
                Some(rw) => {
                    let note = cat3(" (rewrite: ", rw.as_str(), ")");
                    line.append(note.as_str());
                },
                None => {
                    assert(line@ + Seq::<char>::empty() =~= line@);
                },
            }
            line.append(" \u{2192} ");
            line.append(detail.as_str());
            line.append(" [");
            line.append(status.as_str());
            line.append("]");
            line
        },
    }
}

/// What comes of a sync request: lines for the terminal, or a complaint.
pub open spec fn sync_output_of(resp: Response, header: Option<Seq<char>>) -> Result<
    Seq<Seq<char>>,
    Seq<char>,
> {
    match resp {
        Response::Done { .. } => Ok(
            seq![
                match header {
                    Some(h) => "\u{2713} Synced "@ + h,
                    None => "\u{2713} Synced all repos"@,
                },
            ],
        ),
        Response::SyncComplete { data, events } => Ok(
            Seq::new(events@.len(), |i: int| event_line_of(events@[i])),
        ),
        Response::Error { message } => Err("error: "@ + message@),
        _ => Err("unexpected response"@),
    }
}

/// What is printed of the reply to a sync request. `header` is that of the
/// repo, where one was asked for.
pub fn handle_sync(resp: &Response, header: Option<&str>) -> (r: Result<Vec<String>, String>)
    ensures
        match sync_output_of(*resp, crate::cli::opt_text(header)) {
            Ok(lines) => r matches Ok(l) && views(l@) == lines,
            Err(complaint) => r matches Err(e) && e@ == complaint,
        },
{
    let mut lines: Vec<String> = Vec::new();
    match resp {
        Response::Done { .. } => {
            let line = match header {
                Some(h) => cat("\u{2713} Synced ", h),
                None => String::from_str("\u{2713} Synced all repos"),
            };
            let ghost l = line@;
            say(&mut lines, line);
            assert(views(lines@) =~= seq![l]);
            Ok(lines)
        },
        Response::SyncComplete { data, events } => {
            let mut i: usize = 0;
            assert(views(lines@) =~= Seq::new(0, |k: int| event_line_of(events@[k])));
            while i < events.len()
                invariant
                    i <= events@.len(),
                    views(lines@) == Seq::new(i as nat, |k: int| event_line_of(events@[k])),
                decreases events.len() - i,
            {
                say(&mut lines, event_line(&events[i]));
                assert(views(lines@) =~= Seq::new(
                    (i + 1) as nat,
                    |k: int| event_line_of(events@[k]),
                ));
                i = i + 1;
            }
            Ok(lines)
        },
        Response::Error { message } => Err(cat("error: ", message.as_str())),
        _ => Err(String::from_str("unexpected response")),
    }
}

// ---------------------------------------------------------------------------
// Warnings about remotes
// ---------------------------------------------------------------------------

/// What is said of a remote that does not sync.
pub open spec fn remote_warnings_of(
    name: Seq<char>,
    url: Seq<char>,
    config: UserConfig,
    repo_id: Seq<char>,
    emoji: bool,
) -> Seq<Seq<char>> {
    let untrusted = match url_host(url) {
        Some(host) if !config.remote_trusted(url) => seq![
            "  "@ + warning_of(emoji) + " remote '"@ + name + "' ("@ + host
                + ") is not trusted — won't sync"@,
            "  Add with: gitsitter trust "@ + host,
        ],
        _ => Seq::empty(),
    };
    let disabled = if config.remote_disabled(repo_id, name) {
        seq!["  "@ + warning_of(emoji) + " remote '"@ + name + "' is disabled"@]
    } else {
        Seq::empty()
    };
    untrusted + disabled
}

/// What is said of the remotes among `names` that do not sync.
pub open spec fn all_remote_warnings(
    names: Seq<Seq<char>>,
    urls: Map<Seq<char>, Seq<char>>,
    config: UserConfig,
    repo_id: Seq<char>,
    emoji: bool,
) -> Seq<Seq<char>>
    decreases names.len(),
{
    if names.len() == 0 {
        Seq::empty()
    } else {
        all_remote_warnings(names.drop_last(), urls, config, repo_id, emoji) + remote_warnings_of(
            names.last(),
            urls[names.last()],
            config,
            repo_id,
            emoji,
        )
    }
}

/// Warnings about untrusted remotes for a repo (used by enable/register).
pub fn print_untrusted_remote_warnings(
    remote_urls: &crate::table::Table<String>,
    config: &UserConfig,
    repo_id: &str,
    opts: DisplayOpts,
) -> (r: Vec<String>)
    ensures
        views(r@) == all_remote_warnings(
            remote_urls.keys(),
            text_map(remote_urls@),
            *config,
            repo_id@,
            opts.emoji,
        ),
{
    let n = remote_urls.len();
    let ghost keys = remote_urls.keys();
    let ghost urls = text_map(remote_urls@);
    let mut lines: Vec<String> = Vec::new();
    let mut i: usize = 0;
    assert(views(lines@) =~= all_remote_warnings(
        keys.take(0),
        urls,
        *config,
        repo_id@,
        opts.emoji,
    ));
    while i < n
        invariant
            n == keys.len(),
            keys == remote_urls.keys(),
            urls == text_map(remote_urls@),
            i <= n,
            views(lines@) == all_remote_warnings(
                keys.take(i as int),
                urls,
                *config,
                repo_id@,
                opts.emoji,
            ),
        decreases n - i,
    {
        let name = remote_urls.key_at(i);
        let url = remote_urls.value_at(i).as_str();
        let ghost was = views(lines@);
        assert(urls[name@] == url@);
        assert(keys.take(i + 1).drop_last() =~= keys.take(i as int));
        assert(keys.take(i + 1).last() == name@);
        if !config.is_remote_trusted(url) {
            if let Some(host) = extract_host(url) {
                let mut line = cat5("  ", warning_icon(opts), " remote '", name, "' (");
                line.append(host.as_str());
                line.append(") is not trusted — won't sync");
                say(&mut lines, line);
                say(&mut lines, cat("  Add with: gitsitter trust ", host.as_str()));
            }
        }
        if config.is_remote_disabled(repo_id, name) {
            say(&mut lines, cat5("  ", warning_icon(opts), " remote '", name, "' is disabled"));
        }
        assert(views(lines@) =~= was + remote_warnings_of(
            name@,
            url@,
            *config,
            repo_id@,
            opts.emoji,
        ));
        i = i + 1;
    }
    assert(keys.take(i as int) =~= keys);
    lines
}

/// A repo whose remotes are all trusted and enabled is warned of nothing.
pub proof fn law_no_warning_without_cause(
    names: Seq<Seq<char>>,
    urls: Map<Seq<char>, Seq<char>>,
    config: UserConfig,
    repo_id: Seq<char>,
    emoji: bool,
)
    requires
        forall|i: int|
            0 <= i < names.len() ==> config.remote_trusted(urls[#[trigger] names[i]])
                && !config.remote_disabled(repo_id, names[i]),
    ensures
        all_remote_warnings(names, urls, config, repo_id, emoji).len() == 0,
    decreases names.len(),
{
    if names.len() > 0 {
        let t = names.drop_last();
        assert forall|i: int| 0 <= i < t.len() implies config.remote_trusted(urls[#[trigger] t[i]])
            && !config.remote_disabled(repo_id, t[i]) by {
            assert(t[i] == names[i]);
        }
        law_no_warning_without_cause(t, urls, config, repo_id, emoji);
        assert(names.last() == names[names.len() - 1]);
    }
}

// ---------------------------------------------------------------------------
// What the status shows
// ---------------------------------------------------------------------------

/// A repo shows how long ago it was synced, or that it never was.
pub proof fn law_last_sync_is_shown(ts: Seq<char>, now: Stamp)
    ensures
        sync_info_of(None, now) == "never synced"@,
        sync_info_of(Some(ts), now) == "synced "@ + relative_time(ts, now),
{
}

/// A text is filled up with blanks behind it to the width, and never cut.
pub proof fn law_padding_comes_behind(s: Seq<char>, width: nat, i: int)
    ensures
        padded(s, width).len() == (if s.len() < width {
            width
        } else {
            s.len()
        }),
        padded(s, width).take(s.len() as int) == s,
        s.len() <= i < padded(s, width).len() ==> padded(s, width)[i] == ' ',
{
    assert(padded(s, width).take(s.len() as int) =~= s);
}

/// A status that no state has is shown as an error.
pub proof fn law_unknown_status_is_an_error(status: Seq<char>)
    ensures
        (forall|state: BranchState| #[trigger] state.status() != status) ==> state_of(status)
            == BranchState::Failed(ActionError::Other),
{
}

/// The line of a branch shows the branch, its upstream, its state, its label, and when
/// something was last done to it.
pub proof fn law_branch_line_shows_the_branch(
    b: BranchStatusData,
    state: BranchState,
    label: Seq<char>,
    emoji: bool,
)
    requires
        b.status@ == state.status(),
    ensures
        ({
            let upstream = match b.upstream {
                Some(u) => u@,
                None => "(no upstream)"@,
            };
            let line = "  "@ + padded(b.name@ + " \u{2194} "@ + upstream, 32) + " "@ + icon_of(
                state,
                emoji,
            ) + "  "@ + label;
            &&& b.last_action matches Some(a) ==> branch_line_of(b, label, emoji) == line + (
            ", "@ + a@)
            &&& b.last_action is None ==> branch_line_of(b, label, emoji) == line
        }),
{
    law_state_is_read_back(state);
}

/// A remote that is not trusted is shown with the host that would have to be, one that
/// is disabled as such, and any other without a note.
pub proof fn law_remotes_are_noted(data: StatusData, name: Seq<char>, emoji: bool, i: int)
    ensures
        0 <= i < data.untrusted_remotes@.len() && data.untrusted_remotes@[i]@ == name
            && data.remote_urls@.contains_key(name) ==> remote_note(name, data, emoji) == "  "@
            + warning_of(emoji) + " untrusted \u{2014} run 'gitsitter trust "@ + (
        match url_host(data.remote_urls@[name]@) {
            Some(h) => h,
            None => data.remote_urls@[name]@,
        }) + "'"@,
        (forall|k: int|
            0 <= k < data.untrusted_remotes@.len() ==> (#[trigger] data.untrusted_remotes@[k])@
                != name) ==> {
            &&& 0 <= i < data.disabled_remotes@.len() && data.disabled_remotes@[i]@ == name
                ==> remote_note(name, data, emoji) == "  "@ + warning_of(emoji) + " disabled"@
            &&& (forall|k: int|
                0 <= k < data.disabled_remotes@.len() ==> (#[trigger] data.disabled_remotes@[k])@
                    != name) ==> remote_note(name, data, emoji).len() == 0
        },
{
    let u = views(data.untrusted_remotes@);
    let d = views(data.disabled_remotes@);
    assert(u.len() == data.untrusted_remotes@.len() && d.len() == data.disabled_remotes@.len());
    if 0 <= i < u.len() && data.untrusted_remotes@[i]@ == name {
        assert(u[i] == name);
    }
    if 0 <= i < d.len() && data.disabled_remotes@[i]@ == name {
        assert(d[i] == name);
    }
    if u.contains(name) {
        let k = choose|k: int| 0 <= k < u.len() && u[k] == name;
        assert(data.untrusted_remotes@[k]@ == name);
    }
    if d.contains(name) {
        let k = choose|k: int| 0 <= k < d.len() && d[k] == name;
        assert(data.disabled_remotes@[k]@ == name);
    }
}

/// Every remote is shown with its name, its URL and its note, in the order of the
/// remotes; without remotes there is no such part.
pub proof fn law_all_remotes_are_shown(data: StatusData, emoji: bool, i: int)
    ensures
        data.remote_urls.keys().len() == 0 ==> remote_section(data, emoji).len() == 0,
        data.remote_urls.keys().len() > 0 ==> {
            let lines = remote_section(data, emoji);
            let name = data.remote_urls.keys()[i];
            &&& lines.len() == 2 + data.remote_urls.keys().len()
            &&& lines[0].len() == 0
            &&& lines[1] == "  Remotes:"@
            &&& 0 <= i < data.remote_urls.keys().len() && data.remote_urls@.contains_key(name)
                ==> lines[2 + i] == "    "@ + name + "  "@ + data.remote_urls@[name]@ + remote_note(
                name,
                data,
                emoji,
            )
        },
{
}

/// A row of the table shows the repo, when it was synced, and how its branches are. While
/// the daemon is away nothing is known of the latter two but that a repo is disabled.
pub proof fn law_rows_show_their_repos(
    row: StatusRow,
    repo: RepoStatusData,
    config: UserConfig,
    path: Seq<char>,
    home: Option<&str>,
    now: Stamp,
)
    ensures
        is_online_row(row, repo, home, now) ==> {
            &&& row.path@ == path_at_home(repo.display_path@, home)
            &&& row.status@ == repo.status_summary@
            &&& repo.last_sync is None ==> row.sync@ == "never synced"@
            &&& repo.last_sync matches Some(t) ==> row.sync@ == "synced "@ + relative_time(t@, now)
        },
        is_offline_row(row, config, path, home) ==> {
            &&& row.path@ == path_at_home(path, home)
            &&& row.status@.len() == 0
            &&& config.repo_disabled(path) ==> row.sync@ == "never synced, disabled"@
            &&& !config.repo_disabled(path) ==> row.sync@ == "never synced"@
        },
{
}

/// A newer release is told with both versions and with what to do about it.
pub proof fn law_update_is_told(v: Seq<char>)
    ensures
        update_lines(None).len() == 0,
        update_lines(Some(v)).len() == 3,
        update_lines(Some(v))[1] == "  Update available: "@ + v + " (current: v0.1.0)"@,
        update_lines(Some(v))[2] == "  Run 'gitsitter self-update' to update."@,
{
    reveal_strlit(" (current: v");
    reveal_strlit("0.1.0");
    reveal_strlit(")");
    reveal_strlit(" (current: v0.1.0)");
    assert(update_lines(Some(v))[1] =~= "  Update available: "@ + v + " (current: v0.1.0)"@);
}

/// An event is shown with all that it tells, in the order in which it came about.
pub proof fn law_event_line_tells_all(event: SyncEvent)
    ensures
        match event {
            SyncEvent::Fetch { remotes } => event_line_of(event) == "fetched "@
                + crate::text::join(views(remotes@), ", "@),
            SyncEvent::Branch { branch, analysis, sync_action, rewrite, status, detail } => {
                let front = branch@ + ": "@ + analysis@ + " \u{2192} "@ + sync_action@;
                let back = " \u{2192} "@ + detail@ + " ["@ + status@ + "]"@;
                &&& rewrite is None ==> event_line_of(event) == front + back
                &&& rewrite matches Some(w) ==> event_line_of(event) == front + (" (rewrite: "@
                    + w@ + ")"@) + back
            },
        },
{
    if let SyncEvent::Branch { branch, analysis, sync_action, rewrite, status, detail } = event {
        let front = branch@ + ": "@ + analysis@ + " \u{2192} "@ + sync_action@;
        let back = " \u{2192} "@ + detail@ + " ["@ + status@ + "]"@;
        match rewrite {
            None => {
                assert(event_line_of(event) =~= front + back);
            },
            Some(w) => {
                assert(event_line_of(event) =~= front + (" (rewrite: "@ + w@ + ")"@) + back);
            },
        }
    }
}

/// After a sync of one repo each event is shown on a line; a sync of all is told as
/// done; and what the daemon complains of is passed on.
pub proof fn law_sync_output_shows_the_events(resp: Response, header: Option<Seq<char>>, i: int)
    ensures
        resp matches Response::SyncComplete { data, events } ==> (sync_output_of(resp, header)
            matches Ok(lines) && lines.len() == events@.len() && (0 <= i < lines.len()
            ==> lines[i] == event_line_of(events@[i]))),
        resp is Done ==> (sync_output_of(resp, header) matches Ok(lines) && lines.len() == 1 && (
        header matches Some(h) ==> lines[0] == "\u{2713} Synced "@ + h) && (header is None
            ==> lines[0] == "\u{2713} Synced all repos"@)),
        resp matches Response::Error { message } ==> (sync_output_of(resp, header) matches Err(e)
            && e == "error: "@ + message@),
        !(resp is SyncComplete || resp is Done || resp is Error) ==> (sync_output_of(resp, header)
            matches Err(e) && e == "unexpected response"@),
{
}

/// A remote is warned of if its host is not trusted, with how to trust it, and if it is
/// disabled; and not else.
pub proof fn law_remotes_are_warned_of(
    name: Seq<char>,
    url: Seq<char>,
    config: UserConfig,
    repo_id: Seq<char>,
    emoji: bool,
)
    ensures
        ({
            let lines = remote_warnings_of(name, url, config, repo_id, emoji);
            let off = "  "@ + warning_of(emoji) + " remote '"@ + name + "' is disabled"@;
            &&& config.remote_trusted(url) || url_host(url) is None ==> {
                &&& config.remote_disabled(repo_id, name) ==> lines == seq![off]
                &&& !config.remote_disabled(repo_id, name) ==> lines.len() == 0
            }
            &&& !config.remote_trusted(url) ==> (url_host(url) matches Some(host) ==> {
                &&& lines.len() >= 2
                &&& lines[0] == "  "@ + warning_of(emoji) + " remote '"@ + name + "' ("@ + host
                    + ") is not trusted — won't sync"@
                &&& lines[1] == "  Add with: gitsitter trust "@ + host
                &&& config.remote_disabled(repo_id, name) ==> lines.len() == 3 && lines[2] == off
                &&& !config.remote_disabled(repo_id, name) ==> lines.len() == 2
            })
        }),
{
    let lines = remote_warnings_of(name, url, config, repo_id, emoji);
    let off = "  "@ + warning_of(emoji) + " remote '"@ + name + "' is disabled"@;
    if config.remote_trusted(url) || url_host(url) is None {
        if config.remote_disabled(repo_id, name) {
            assert(lines =~= seq![off]);
        }
    }
}

/// The warnings of all remotes stand one after the other, in the order of the remotes.
pub proof fn law_warnings_stand_in_order(
    names: Seq<Seq<char>>,
    name: Seq<char>,
    urls: Map<Seq<char>, Seq<char>>,
    config: UserConfig,
    repo_id: Seq<char>,
    emoji: bool,
)
    ensures
        all_remote_warnings(Seq::empty(), urls, config, repo_id, emoji).len() == 0,
        all_remote_warnings(names.push(name), urls, config, repo_id, emoji) == all_remote_warnings(
            names,
            urls,
            config,
            repo_id,
            emoji,
        ) + remote_warnings_of(name, urls[name], config, repo_id, emoji),
{
    assert(names.push(name).drop_last() =~= names);
}

/// The title counts the repos while the daemon runs, and says so while it does not.
pub proof fn law_title_counts_the_repos(n: nat)
    ensures
        title_of(0, true) == "No repos being watched."@,
        title_of(0, false) == "No repos registered."@,
        n > 0 ==> title_of(n, true) == "Watched repositories ("@ + decimal(n) + " total)"@,
        n > 0 ==> title_of(n, false) == "Watched repositories (daemon not running)"@,
{
}

/// An error of the daemon is passed on; any other answer that does not fit is called
/// unexpected.
pub proof fn law_errors_are_passed_on(resp: Response)
    ensures
        resp matches Response::Error { message } ==> complaint_of(resp) == "error: "@ + message@,
        !(resp is Error) ==> complaint_of(resp) == "unexpected response from daemon"@,
{
}

/// Without colors the line of a branch is the plain one, with the label of its state.
pub proof fn law_plain_branch_line(
    line: Seq<char>,
    b: BranchStatusData,
    state: BranchState,
    opts: DisplayOpts,
)
    requires
        !opts.colors,
        b.status@ == state.status(),
    ensures
        is_branch_line(line, b, opts) <==> line == branch_line_of(
            b,
            label_of(state),
            opts.emoji,
        ),
{
    law_state_is_read_back(state);
    assert(is_shown(
        label_of(state_of(b.status@)),
        label_of(state_of(b.status@)),
        hue_of(state_of(b.status@)),
        opts.colors,
    ));
}

} // verus!
