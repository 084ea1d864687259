//! What the shell hook prints when a prompt is shown in a repo.

use vstd::prelude::*;

use crate::cli::{remote_names, say};
use crate::cli_status::{host_or, host_or_url, upstream_or};
use crate::cli_ui::{pair_of, sync_pair};
use crate::git_ops::text_map;
use crate::requests::counts_as_synced;
use crate::resolve::issue_in;
use crate::text::{cat, cat3, cat4, cat5, join, join_from, replace_char, replaced, text_eq, views};
use crate::transport::{BranchStatusData, StatusData};

verus! {

// ---------------------------------------------------------------------------
// A repo that was just registered
// ---------------------------------------------------------------------------

/// The line about the registration.
pub open spec fn registered_line(path: Seq<char>, remotes: Seq<Seq<char>>) -> Seq<char> {
    "gitsitter: Registered repo \u{1F4E6} "@ + path + (if remotes.len() == 0 {
        ", syncing tracking branches"@
    } else {
        ", syncing tracking branches on "@ + join(remotes, ", "@)
    })
}

/// The URL of a remote, or a question mark.
pub open spec fn url_or_mark(urls: Map<Seq<char>, Seq<char>>, name: Seq<char>) -> Seq<char> {
    if urls.contains_key(name) {
        urls[name]
    } else {
        "?"@
    }
}

/// The line about an untrusted remote.
pub open spec fn distrust_line(name: Seq<char>, url: Seq<char>) -> Seq<char> {
    "gitsitter: \u{26A0}\u{FE0F} remote '"@ + name + "' at "@ + url
        + " not trusted \u{2014} run 'gitsitter trust "@ + host_or_url(url)
        + "' to enable syncing"@
}

/// The lines about a repo that was just registered.
pub open spec fn registration_lines(data: StatusData, path: Seq<char>) -> Seq<Seq<char>> {
    if data.newly_registered {
        seq![registered_line(path, data.remote_urls.keys())] + Seq::new(
            data.untrusted_remotes@.len(),
            |i: int|
                distrust_line(
                    data.untrusted_remotes@[i]@,
                    url_or_mark(text_map(data.remote_urls@), data.untrusted_remotes@[i]@),
                ),
        )
    } else {
        Seq::empty()
    }
}

/// The line about an untrusted remote.
fn distrust(name: &str, url: &str) -> (r: String)
    ensures
        r@ == distrust_line(name@, url@),
{
    let mut line = cat4(
        "gitsitter: \u{26A0}\u{FE0F} remote '",
        name,
        "' at ",
        url,
    );
    line.append(" not trusted \u{2014} run 'gitsitter trust ");
    line.append(host_or(url).as_str());
    line.append("' to enable syncing");
    line
}

fn registration(data: &StatusData, path: &str) -> (r: Vec<String>)
    ensures
        views(r@) == registration_lines(*data, path@),
{
    let mut lines: Vec<String> = Vec::new();
    if !data.newly_registered {
        assert(views(lines@) =~= registration_lines(*data, path@));
        return lines;
    }
    let names = remote_names(&data.remote_urls);
    let tail = if names.len() == 0 {
        String::from_str(", syncing tracking branches")
    } else {
        let list = join_from(&names, 0, ", ");
        assert(views(names@).skip(0) =~= views(names@));
        cat(", syncing tracking branches on ", list.as_str())
    };
    say(&mut lines, cat3("gitsitter: Registered repo \u{1F4E6} ", path, tail.as_str()));
    let ghost all = registration_lines(*data, path@);
    assert(views(lines@) =~= all.take(1));
    let mut i: usize = 0;
    while i < data.untrusted_remotes.len()
        invariant
            i <= data.untrusted_remotes@.len(),
            data.newly_registered,
            all == registration_lines(*data, path@),
            all.len() == 1 + data.untrusted_remotes@.len(),
            views(lines@) == all.take(1 + i as int),
        decreases data.untrusted_remotes.len() - i,
    {
        let name = data.untrusted_remotes[i].as_str();
        let url = match data.remote_urls.get(name) {
            Some(u) => u.as_str(),
            None => "?",
        };
        assert(url@ == url_or_mark(text_map(data.remote_urls@), name@));
        say(&mut lines, distrust(name, url));
        assert(all.take(2 + i as int) =~= all.take(1 + i as int).push(all[1 + i as int]));
        i = i + 1;
    }
    assert(all.take(1 + i as int) =~= all);
    lines
}

// ---------------------------------------------------------------------------
// Branches that need the user
// ---------------------------------------------------------------------------

/// Whether a status is a failed write that is reported at the prompt.
pub open spec fn is_sync_error(status: Seq<char>) -> bool {
    ||| status == "push_rejected"@
    ||| status == "auth_failed"@
    ||| status == "network_error"@
    ||| status == "push_blocked_hook_timeout"@
}

/// What is said of a branch in a status that needs the user: what stands in
/// front of the repo's path, and what behind the branch.
pub open spec fn issue_text(status: Seq<char>) -> Option<(Seq<char>, Seq<char>)> {
    if status == "local_ahead"@ {
        Some(
            (
                "gitsitter: \u{1F4E6} "@,
                " has unpushed changes (last remote commit by someone else)"@,
            ),
        )
    } else if status == "diverged"@ {
        Some(
            (
                "gitsitter: \u{1F4E6} "@,
                " has diverged (last remote commit by someone else)"@,
            ),
        )
    } else if status == "diverged_yours"@ {
        Some(
            (
                "gitsitter: \u{1F4E6} "@,
                " has diverged (auto-rebase failed, resolve manually)"@,
            ),
        )
    } else if status == "pending_dirty"@ {
        Some(
            (
                "gitsitter: \u{270F}\u{FE0F} "@,
                " dirty worktree \u{2014} commit or stash to sync"@,
            ),
        )
    } else if status == "merge_conflict"@ {
        Some(
            (
                "gitsitter: \u{1F527} "@,
                " has merge conflicts \u{2014} run `gitsitter auto-resolve` or resolve manually"@,
            ),
        )
    } else if is_sync_error(status) {
        Some(
            ("gitsitter: \u{1F4E6} "@, " sync error ("@ + replaced(status, '_', ' ') + ")"@),
        )
    } else {
        None
    }
}

/// The issue of a branch, if it has one.
pub open spec fn issue_of(b: BranchStatusData, path: Seq<char>) -> Option<Seq<char>> {
    match issue_text(b.status@) {
        Some((icon, text)) => Some(
            icon + path + " "@ + pair_of(b.name@, upstream_or(b, "upstream"@)) + text,
        ),
        None => None,
    }
}

/// The issues of the branches.
pub open spec fn issues_of(branches: Seq<BranchStatusData>, path: Seq<char>) -> Seq<Seq<char>>
    decreases branches.len(),
{
    if branches.len() == 0 {
        Seq::empty()
    } else {
        let front = issues_of(branches.drop_last(), path);
        match issue_of(branches.last(), path) {
            Some(issue) => front.push(issue),
            None => front,
        }
    }
}

/// What is said of a branch in a status that needs the user.
fn issue_parts(status: &str) -> (r: Option<(&'static str, String)>)
    ensures
        match r {
            Some((icon, text)) => issue_text(status@) == Some((icon@, text@)),
            None => issue_text(status@) is None,
        },
{
    if text_eq(status, "local_ahead") {
        Some(
            (
                "gitsitter: \u{1F4E6} ",
                String::from_str(" has unpushed changes (last remote commit by someone else)"),
            ),
        )
    } else if text_eq(status, "diverged") {
        Some(
            (
                "gitsitter: \u{1F4E6} ",
                String::from_str(" has diverged (last remote commit by someone else)"),
            ),
        )
    } else if text_eq(status, "diverged_yours") {
        Some(
            (
                "gitsitter: \u{1F4E6} ",
                String::from_str(" has diverged (auto-rebase failed, resolve manually)"),
            ),
        )
    } else if text_eq(status, "pending_dirty") {
        Some(
            (
                "gitsitter: \u{270F}\u{FE0F} ",
                String::from_str(" dirty worktree \u{2014} commit or stash to sync"),
            ),
        )
    } else if text_eq(status, "merge_conflict") {
        Some(
            (
                "gitsitter: \u{1F527} ",
                String::from_str(
                    " has merge conflicts \u{2014} run `gitsitter auto-resolve` or resolve manually",
                ),
            ),
        )
    } else if text_eq(status, "push_rejected") || text_eq(status, "auth_failed") || text_eq(
        status,
        "network_error",
    ) || text_eq(status, "push_blocked_hook_timeout") {
        let words = replace_char(status, '_', ' ');
        Some(("gitsitter: \u{1F4E6} ", cat3(" sync error (", words.as_str(), ")")))
    } else {
        None
    }
}

fn issue(b: &BranchStatusData, path: &str) -> (r: Option<String>)
    ensures
        crate::text::view_opt(r) == issue_of(*b, path@),
{
    match issue_parts(b.status.as_str()) {
        Some((icon, text)) => {
            let upstream = match &b.upstream {
                Some(u) => u.as_str(),
                None => "upstream",
            };
            let pair = sync_pair(b.name.as_str(), upstream);
            Some(cat5(icon, path, " ", pair.as_str(), text.as_str()))
        },
        None => None,
    }
}

/// The lines about the branches that need the user, and what to do about them.
pub open spec fn issue_lines(branches: Seq<BranchStatusData>, path: Seq<char>) -> Seq<Seq<char>> {
    let issues = issues_of(branches, path);
    if issues.len() == 0 {
        Seq::empty()
    } else {
        issues.push("gitsitter: Run `gitsitter resolve` to resolve issues"@)
    }
}

/// What the hidden command of the shell hooks prints, with the path of the repo
/// as it is shown.
pub fn handle_prompt(data: &StatusData, path: &str) -> (r: Vec<String>)
    ensures
        views(r@) == registration_lines(*data, path@) + issue_lines(data.branches@, path@),
{
    let mut lines = registration(data, path);
    let ghost head = views(lines@);
    let ghost all = data.branches@;
    let mut found: bool = false;
    let mut i: usize = 0;
    assert(head + issues_of(all.take(0), path@) =~= head);
    while i < data.branches.len()
        invariant
            i <= data.branches@.len(),
            all == data.branches@,
            views(lines@) == head + issues_of(all.take(i as int), path@),
            found == (issues_of(all.take(i as int), path@).len() > 0),
        decreases data.branches.len() - i,
    {
        assert(all.take(i + 1).drop_last() =~= all.take(i as int));
        assert(all.take(i + 1).last() == all[i as int]);
        let ghost was = views(lines@);
        if let Some(line) = issue(&data.branches[i], path) {
            let ghost l = line@;
            say(&mut lines, line);
            found = true;
            assert(was.push(l) =~= head + issues_of(all.take(i as int), path@).push(l));
        }
        i = i + 1;
    }
    assert(all.take(i as int) =~= all);
    if found {
        say(&mut lines, String::from_str("gitsitter: Run `gitsitter resolve` to resolve issues"));
    }
    assert(views(lines@) =~= head + issue_lines(all, path@));
    lines
}

proof fn lemma_no_issue(branches: Seq<BranchStatusData>, path: Seq<char>)
    ensures
        issues_of(branches, path).len() == 0 <==> forall|i: int|
            0 <= i < branches.len() ==> issue_text((#[trigger] branches[i]).status@) is None,
    decreases branches.len(),
{
    if branches.len() > 0 {
        let t = branches.drop_last();
        lemma_no_issue(t, path);
        if issues_of(branches, path).len() == 0 {
            assert forall|i: int| 0 <= i < branches.len() implies issue_text(
                (#[trigger] branches[i]).status@,
            ) is None by {
                if i < t.len() {
                    assert(t[i] == branches[i]);
                } else {
                    assert(branches[i] == branches.last());
                }
            }
        } else {
            if forall|i: int|
                0 <= i < branches.len() ==> issue_text((#[trigger] branches[i]).status@) is None {
                assert(issue_text(branches[branches.len() - 1].status@) is None);
                assert forall|i: int| 0 <= i < t.len() implies issue_text(
                    (#[trigger] t[i]).status@,
                ) is None by {
                    assert(t[i] == branches[i]);
                }
            }
        }
    }
}

/// The prompt of a known repo is quiet exactly where no branch needs the user.
pub proof fn law_prompt_is_quiet(data: StatusData, path: Seq<char>)
    requires
        !data.newly_registered,
    ensures
        (registration_lines(data, path) + issue_lines(data.branches@, path)).len() == 0
            <==> forall|i: int|
            0 <= i < data.branches@.len() ==> issue_text((#[trigger] data.branches@[i]).status@) is None,
{
    lemma_no_issue(data.branches@, path);
}

/// Every branch that the prompt tells of is an issue to resolve, and every issue
/// that offers more than a notice is told.
pub proof fn law_told_issues_can_be_resolved(b: BranchStatusData, path: Seq<char>)
    ensures
        issue_of(b, path) is Some ==> issue_in(b.status@) is Some,
        issue_in(b.status@) matches Some((kind, _)) && !(kind is Notice) ==> issue_of(b, path)
            is Some,
{
    if counts_as_synced(b.status@) {
        reveal_strlit("synced");
        reveal_strlit("up_to_date");
        reveal_strlit("local_ahead");
        reveal_strlit("diverged");
        reveal_strlit("diverged_yours");
        reveal_strlit("pending_dirty");
        reveal_strlit("merge_conflict");
        reveal_strlit("push_rejected");
        reveal_strlit("auth_failed");
        reveal_strlit("network_error");
        reveal_strlit("push_blocked_hook_timeout");
        assert("synced"@.len() == 6);
        assert("up_to_date"@.len() == 10);
        assert("local_ahead"@.len() == 11);
        assert("diverged"@.len() == 8);
        assert("diverged_yours"@.len() == 14);
        assert("pending_dirty"@.len() == 13);
        assert("merge_conflict"@.len() == 14);
        assert("push_rejected"@.len() == 13);
        assert("auth_failed"@.len() == 11);
        assert("network_error"@.len() == 13);
        assert("push_blocked_hook_timeout"@.len() == 25);
    }
}

/// A branch in sync needs nothing of the user.
pub proof fn law_synced_branch_is_quiet(b: BranchStatusData, path: Seq<char>)
    requires
        b.status@ == "synced"@,
    ensures
        issue_of(b, path) is None,
{
    reveal_strlit("synced");
    reveal_strlit("local_ahead");
    reveal_strlit("diverged");
    reveal_strlit("diverged_yours");
    reveal_strlit("pending_dirty");
    reveal_strlit("merge_conflict");
    reveal_strlit("push_rejected");
    reveal_strlit("auth_failed");
    reveal_strlit("network_error");
    reveal_strlit("push_blocked_hook_timeout");
    assert("synced"@.len() == 6);
    assert("local_ahead"@.len() == 11);
    assert("diverged"@.len() == 8);
    assert("diverged_yours"@.len() == 14);
    assert("pending_dirty"@.len() == 13);
    assert("merge_conflict"@.len() == 14);
    assert("push_rejected"@.len() == 13);
    assert("auth_failed"@.len() == 11);
    assert("network_error"@.len() == 13);
    assert("push_blocked_hook_timeout"@.len() == 25);
}

// ---------------------------------------------------------------------------
// What is told
// ---------------------------------------------------------------------------

/// The name of the upstream of a branch, as far as it is known.
pub open spec fn told_upstream(b: BranchStatusData) -> Seq<char> {
    match b.upstream {
        Some(u) => u@,
        None => "upstream"@,
    }
}

/// Whether a branch is told with a sign before the path of its repo, and with a text
/// behind its own name and that of its upstream.
pub open spec fn is_told(b: BranchStatusData, path: Seq<char>, sign: Seq<char>, text: Seq<char>) -> bool {
    issue_of(b, path) == Some(
        "gitsitter: "@ + sign + " "@ + path + " "@ + b.name@ + " \u{2194} "@ + told_upstream(b)
            + text,
    )
}

/// What is told of a branch in each status that the user has to know of.
pub proof fn law_branches_are_told_by_status(b: BranchStatusData, path: Seq<char>)
    ensures
        b.status@ == "local_ahead"@ ==> is_told(
            b,
            path,
            "\u{1F4E6}"@,
            " has unpushed changes (last remote commit by someone else)"@,
        ),
        b.status@ == "diverged"@ ==> is_told(
            b,
            path,
            "\u{1F4E6}"@,
            " has diverged (last remote commit by someone else)"@,
        ),
        b.status@ == "diverged_yours"@ ==> is_told(
            b,
            path,
            "\u{1F4E6}"@,
            " has diverged (auto-rebase failed, resolve manually)"@,
        ),
        b.status@ == "pending_dirty"@ ==> is_told(
            b,
            path,
            "\u{270F}\u{FE0F}"@,
            " dirty worktree \u{2014} commit or stash to sync"@,
        ),
        b.status@ == "merge_conflict"@ ==> is_told(
            b,
            path,
            "\u{1F527}"@,
            " has merge conflicts \u{2014} run `gitsitter auto-resolve` or resolve manually"@,
        ),
        b.status@ == "push_rejected"@ ==> is_told(
            b,
            path,
            "\u{1F4E6}"@,
            " sync error ("@ + "push rejected"@ + ")"@,
        ),
        b.status@ == "auth_failed"@ ==> is_told(
            b,
            path,
            "\u{1F4E6}"@,
            " sync error ("@ + "auth failed"@ + ")"@,
        ),
        b.status@ == "network_error"@ ==> is_told(
            b,
            path,
            "\u{1F4E6}"@,
            " sync error ("@ + "network error"@ + ")"@,
        ),
        b.status@ == "push_blocked_hook_timeout"@ ==> is_told(
            b,
            path,
            "\u{1F4E6}"@,
            " sync error ("@ + "push blocked hook timeout"@ + ")"@,
        ),
        issue_of(b, path) is Some ==> {
            ||| b.status@ == "local_ahead"@
            ||| b.status@ == "diverged"@
            ||| b.status@ == "diverged_yours"@
            ||| b.status@ == "pending_dirty"@
            ||| b.status@ == "merge_conflict"@
            ||| b.status@ == "push_rejected"@
            ||| b.status@ == "auth_failed"@
            ||| b.status@ == "network_error"@
            ||| b.status@ == "push_blocked_hook_timeout"@
        },
{
    reveal_strlit("local_ahead");
    reveal_strlit("diverged");
    reveal_strlit("diverged_yours");
    reveal_strlit("pending_dirty");
    reveal_strlit("merge_conflict");
    reveal_strlit("push_rejected");
    reveal_strlit("auth_failed");
    reveal_strlit("network_error");
    reveal_strlit("push_blocked_hook_timeout");
    reveal_strlit("push rejected");
    reveal_strlit("auth failed");
    reveal_strlit("network error");
    reveal_strlit("push blocked hook timeout");
    reveal_strlit("gitsitter: ");
    reveal_strlit("gitsitter: \u{1F4E6} ");
    reveal_strlit("gitsitter: \u{270F}\u{FE0F} ");
    reveal_strlit("gitsitter: \u{1F527} ");
    reveal_strlit("\u{1F4E6}");
    reveal_strlit("\u{270F}\u{FE0F}");
    reveal_strlit("\u{1F527}");
    reveal_strlit(" ");
    assert("gitsitter: \u{1F4E6} "@ =~= "gitsitter: "@ + "\u{1F4E6}"@ + " "@);
    assert("gitsitter: \u{270F}\u{FE0F} "@ =~= "gitsitter: "@ + "\u{270F}\u{FE0F}"@ + " "@);
    assert("gitsitter: \u{1F527} "@ =~= "gitsitter: "@ + "\u{1F527}"@ + " "@);
    assert(replaced("push_rejected"@, '_', ' ') =~= "push rejected"@);
    assert(replaced("auth_failed"@, '_', ' ') =~= "auth failed"@);
    assert(replaced("network_error"@, '_', ' ') =~= "network error"@);
    assert(replaced("push_blocked_hook_timeout"@, '_', ' ') =~= "push blocked hook timeout"@);
    assert("local_ahead"@.len() == 11 && "auth_failed"@.len() == 11);
    assert("local_ahead"@[0] == 'l' && "auth_failed"@[0] == 'a');
    assert("diverged"@.len() == 8 && "push_blocked_hook_timeout"@.len() == 25);
    assert("push_rejected"@.len() == 13 && "network_error"@.len() == 13 && "pending_dirty"@.len()
        == 13);
    assert("push_rejected"@[1] == 'u' && "network_error"@[0] == 'n' && "pending_dirty"@[1] == 'e');
    assert("diverged_yours"@.len() == 14 && "merge_conflict"@.len() == 14);
    assert("diverged_yours"@[0] == 'd' && "merge_conflict"@[0] == 'm');
    if let Some((icon, text)) = issue_text(b.status@) {
        let up = told_upstream(b);
        assert(icon + path + " "@ + (b.name@ + " \u{2194} "@ + up) + text =~= icon + path + " "@
            + b.name@ + " \u{2194} "@ + up + text);
    }
}

/// Branches are told in their order, one line each, and the hint how to go on comes
/// last, once.
pub proof fn law_hint_comes_last(
    branches: Seq<BranchStatusData>,
    b: BranchStatusData,
    path: Seq<char>,
)
    ensures
        issues_of(Seq::empty(), path).len() == 0,
        issue_of(b, path) is None ==> issues_of(branches.push(b), path) == issues_of(
            branches,
            path,
        ),
        issue_of(b, path) matches Some(line) ==> issues_of(branches.push(b), path) == issues_of(
            branches,
            path,
        ) + seq![line],
        issues_of(branches, path).len() == 0 ==> issue_lines(branches, path).len() == 0,
        issues_of(branches, path).len() > 0 ==> issue_lines(branches, path) == issues_of(
            branches,
            path,
        ) + seq!["gitsitter: Run `gitsitter resolve` to resolve issues"@],
{
    assert(branches.push(b).drop_last() =~= branches);
    if let Some(line) = issue_of(b, path) {
        assert(issues_of(branches, path).push(line) =~= issues_of(branches, path) + seq![line]);
    }
    let hint = "gitsitter: Run `gitsitter resolve` to resolve issues"@;
    assert(issues_of(branches, path).push(hint) =~= issues_of(branches, path) + seq![hint]);
}

/// A repo that was just registered is told with its remotes, and each of them that is
/// not trusted with its URL and with the host that would have to be. Any other repo is
/// not told this way.
pub proof fn law_registration_is_told_once(data: StatusData, path: Seq<char>, i: int)
    ensures
        !data.newly_registered ==> registration_lines(data, path).len() == 0,
        data.newly_registered ==> {
            let lines = registration_lines(data, path);
            let begin = "gitsitter: Registered repo \u{1F4E6} "@ + path;
            &&& lines.len() == 1 + data.untrusted_remotes@.len()
            &&& data.remote_urls.keys().len() == 0 ==> lines[0] == begin
                + ", syncing tracking branches"@
            &&& data.remote_urls.keys().len() > 0 ==> lines[0] == begin + (
            ", syncing tracking branches on "@ + join(data.remote_urls.keys(), ", "@))
            &&& 0 <= i < data.untrusted_remotes@.len() ==> {
                let name = data.untrusted_remotes@[i]@;
                let url = if data.remote_urls@.contains_key(name) {
                    data.remote_urls@[name]@
                } else {
                    "?"@
                };
                let host = match crate::config::url_host(url) {
                    Some(h) => h,
                    None => url,
                };
                lines[1 + i] == "gitsitter: \u{26A0}\u{FE0F} remote '"@ + name + "' at "@ + url
                    + " not trusted \u{2014} run 'gitsitter trust "@ + host
                    + "' to enable syncing"@
            }
        },
{
}

} // verus!
