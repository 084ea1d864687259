//! Shared CLI display helpers.
//!
//! Provides consistent formatting for repo headers, status icons,
//! and daemon warnings across all CLI commands.

use vstd::prelude::*;

use crossterm::style::Stylize;

use crate::sync::BranchState;
use crate::text::{cat, cat3};

verus! {

/// Display settings extracted from config.
#[derive(Debug, Clone, Copy)]
pub struct DisplayOpts {
    pub emoji: bool,
    pub colors: bool,
}

/// The colors that the display uses.
#[derive(Debug, Clone, Copy, PartialEq, Eq, Structural)]
pub enum Hue {
    Blue,
    Green,
    Yellow,
    Red,
}

impl Hue {
    /// What switches a terminal to the color.
    pub open spec fn switch(self) -> Seq<char> {
        match self {
            Hue::Blue => "\u{1b}[38;5;12m"@,
            Hue::Green => "\u{1b}[38;5;10m"@,
            Hue::Yellow => "\u{1b}[38;5;11m"@,
            Hue::Red => "\u{1b}[38;5;9m"@,
        }
    }
}

/// Whether `r` is `text` between a switch to the color and a switch back. Where
/// the environment turns colors off the two switches are empty ones, and where
/// the console takes no switches nothing comes out at all.
pub open spec fn is_painted(r: Seq<char>, text: Seq<char>, hue: Hue) -> bool {
    ||| r == hue.switch() + text + "\u{1b}[39m"@
    ||| r == "\u{1b}[m"@ + text + "\u{1b}[m"@
    ||| r.len() == 0
}

/// `crossterm::style::Stylize::with`, written out by the `Display` of
/// `crossterm::style::StyledContent`: the text stands between the two sequences
/// that set the foreground color and reset it. Their codes are left out where
/// `NO_COLOR` is set. On a Windows console without such sequences the `Display`
/// writes nothing. Which of these it is rests on the environment.
#[verifier::external_body]
fn paint(text: &str, hue: Hue) -> (r: String)
    ensures
        is_painted(r@, text@, hue),
{
    let color = match hue {
        Hue::Blue => crossterm::style::Color::Blue,
        Hue::Green => crossterm::style::Color::Green,
        Hue::Yellow => crossterm::style::Color::Yellow,
        Hue::Red => crossterm::style::Color::Red,
    };
    format!("{}", text.with(color))
}

/// Whether `r` is how `text` is shown: in the color, where colors are wanted.
pub open spec fn is_shown(r: Seq<char>, text: Seq<char>, hue: Hue, colors: bool) -> bool {
    if colors {
        is_painted(r, text, hue)
    } else {
        r == text
    }
}

/// `text`, in the color where colors are wanted.
fn shown(text: &str, hue: Hue, colors: bool) -> (r: String)
    ensures
        is_shown(r@, text@, hue, colors),
{
    if colors {
        paint(text, hue)
    } else {
        String::from_str(text)
    }
}

/// The repo header around the path as it is shown.
pub open spec fn header_of(path_text: Seq<char>, emoji: bool) -> Seq<char> {
    if emoji {
        "\u{1F4E6} "@ + path_text
    } else {
        path_text
    }
}

/// The repo header around `path_text`.
pub fn header_line(path_text: &str, emoji: bool) -> (r: String)
    ensures
        r@ == header_of(path_text@, emoji),
{
    if emoji {
        cat("\u{1F4E6} ", path_text)
    } else {
        String::from_str(path_text)
    }
}

/// Whether `r` is the repo header of `path`.
pub open spec fn is_header(r: Seq<char>, path: Seq<char>, opts: DisplayOpts) -> bool {
    exists|p: Seq<char>| #[trigger]
        is_shown(p, path, Hue::Blue, opts.colors) && r == header_of(p, opts.emoji)
}

/// Format the repo header: `📦 ~/path/.git` or just `~/path/.git`.
pub fn repo_header(path: &str, opts: DisplayOpts) -> (r: String)
    ensures
        is_header(r@, path@, opts),
        !opts.colors ==> r@ == header_of(path@, opts.emoji),
{
    let p = shown(path, Hue::Blue, opts.colors);
    header_line(p.as_str(), opts.emoji)
}

/// The daemon warning, before it is colored.
pub open spec fn warning_text(emoji: bool) -> Seq<char> {
    (if emoji {
        "\u{26A0}"@
    } else {
        "!"@
    }) + " Daemon is not running \u{2014} start with: gitsitter daemon start"@
}

/// Format the daemon warning line.
pub fn daemon_warning(opts: DisplayOpts) -> (r: String)
    ensures
        is_shown(r@, warning_text(opts.emoji), Hue::Yellow, opts.colors),
{
    let icon = if opts.emoji {
        "\u{26A0}"
    } else {
        "!"
    };
    let msg = cat(icon, " Daemon is not running \u{2014} start with: gitsitter daemon start");
    shown(msg.as_str(), Hue::Yellow, opts.colors)
}

/// What is printed about the daemon by register and enable: the warning, if it
/// is not running.
pub fn print_daemon_warning(daemon_running: bool, opts: DisplayOpts) -> (r: Option<String>)
    ensures
        r is None <==> daemon_running,
        r matches Some(line) ==> exists|w: Seq<char>| #[trigger]
            is_shown(w, warning_text(opts.emoji), Hue::Yellow, opts.colors) && line@ == "  "@ + w,
{
    if daemon_running {
        None
    } else {
        let w = daemon_warning(opts);
        Some(cat("  ", w.as_str()))
    }
}

/// Format a success prefix icon.
pub fn success_icon(_opts: DisplayOpts) -> (r: &'static str)
    ensures
        r@ == "\u{2713}"@,
{
    "\u{2713}"
}

/// The celebration prefix.
pub open spec fn celebrate_of(emoji: bool) -> Seq<char> {
    if emoji {
        "\u{1F389}"@
    } else {
        "+"@
    }
}

/// Format a celebration prefix (for register).
pub fn celebrate_icon(opts: DisplayOpts) -> (r: &'static str)
    ensures
        r@ == celebrate_of(opts.emoji),
{
    if opts.emoji {
        "\u{1F389}"
    } else {
        "+"
    }
}

/// The pause icon.
pub open spec fn pause_of(emoji: bool) -> Seq<char> {
    if emoji {
        "\u{23F8}"@
    } else {
        "-"@
    }
}

/// Format a pause icon (for disable).
pub fn pause_icon(opts: DisplayOpts) -> (r: &'static str)
    ensures
        r@ == pause_of(opts.emoji),
{
    if opts.emoji {
        "\u{23F8}"
    } else {
        "-"
    }
}

/// The warning icon.
pub open spec fn warning_of(emoji: bool) -> Seq<char> {
    if emoji {
        "\u{26A0}\u{FE0F}"@
    } else {
        "!"@
    }
}

/// Format a warning icon.
pub fn warning_icon(opts: DisplayOpts) -> (r: &'static str)
    ensures
        r@ == warning_of(opts.emoji),
{
    if opts.emoji {
        "\u{26A0}\u{FE0F}"
    } else {
        "!"
    }
}

/// The icon of a branch state.
pub open spec fn icon_of(status: BranchState, emoji: bool) -> Seq<char> {
    if emoji {
        match status {
            BranchState::Synced => "\u{2705}"@,
            BranchState::LocalAheadNotOwned => "\u{2B06}\u{FE0F}"@,
            BranchState::DivergedNotOwned | BranchState::Diverged => "\u{26A0}\u{FE0F}"@,
            BranchState::HistoryRewritten
            | BranchState::HistoryRewrittenRemoteAdvanced => "\u{270D}\u{FE0F}"@,
            BranchState::DirtyWorktree => "\u{270F}\u{FE0F}"@,
            BranchState::MergeConflict => "\u{1F527}"@,
            BranchState::UpstreamGone => "\u{1F6AB}"@,
            BranchState::Failed(_) => "\u{274C}"@,
        }
    } else {
        match status {
            BranchState::Synced => "synced"@,
            BranchState::LocalAheadNotOwned => "local ahead"@,
            BranchState::DivergedNotOwned | BranchState::Diverged => "diverged"@,
            BranchState::HistoryRewritten
            | BranchState::HistoryRewrittenRemoteAdvanced => "rewritten"@,
            BranchState::DirtyWorktree => "dirty"@,
            BranchState::MergeConflict => "conflict"@,
            BranchState::UpstreamGone => "upstream gone"@,
            BranchState::Failed(_) => "error"@,
        }
    }
}

/// Status icon for a branch state.
pub fn branch_status_icon(status: &BranchState, opts: DisplayOpts) -> (r: &'static str)
    ensures
        r@ == icon_of(*status, opts.emoji),
{
    if opts.emoji {
        match status {
            BranchState::Synced => "\u{2705}",
            BranchState::LocalAheadNotOwned => "\u{2B06}\u{FE0F}",
            BranchState::DivergedNotOwned | BranchState::Diverged => "\u{26A0}\u{FE0F}",
            BranchState::HistoryRewritten | BranchState::HistoryRewrittenRemoteAdvanced => {
                "\u{270D}\u{FE0F}"
            },
            BranchState::DirtyWorktree => "\u{270F}\u{FE0F}",
            BranchState::MergeConflict => "\u{1F527}",
            BranchState::UpstreamGone => "\u{1F6AB}",
            BranchState::Failed(_) => "\u{274C}",
        }
    } else {
        match status {
            BranchState::Synced => "synced",
            BranchState::LocalAheadNotOwned => "local ahead",
            BranchState::DivergedNotOwned | BranchState::Diverged => "diverged",
            BranchState::HistoryRewritten | BranchState::HistoryRewrittenRemoteAdvanced => {
                "rewritten"
            },
            BranchState::DirtyWorktree => "dirty",
            BranchState::MergeConflict => "conflict",
            BranchState::UpstreamGone => "upstream gone",
            BranchState::Failed(_) => "error",
        }
    }
}

/// The label of a branch state.
pub open spec fn label_of(status: BranchState) -> Seq<char> {
    match status {
        BranchState::Synced => "synced"@,
        BranchState::LocalAheadNotOwned => "local ahead"@,
        BranchState::DivergedNotOwned => "diverged (someone else)"@,
        BranchState::Diverged => "diverged (resolve manually)"@,
        BranchState::HistoryRewritten => "history rewritten (force-push ready)"@,
        BranchState::HistoryRewrittenRemoteAdvanced => "history rewritten (remote advanced)"@,
        BranchState::DirtyWorktree => "dirty worktree"@,
        BranchState::MergeConflict => "merge conflict"@,
        BranchState::UpstreamGone => "upstream gone"@,
        BranchState::Failed(_) => "error"@,
    }
}

/// Human-readable label for a branch state.
pub fn branch_status_label(status: &BranchState) -> (r: &'static str)
    ensures
        r@ == label_of(*status),
{
    match status {
        BranchState::Synced => "synced",
        BranchState::LocalAheadNotOwned => "local ahead",
        BranchState::DivergedNotOwned => "diverged (someone else)",
        BranchState::Diverged => "diverged (resolve manually)",
        BranchState::HistoryRewritten => "history rewritten (force-push ready)",
        BranchState::HistoryRewrittenRemoteAdvanced => "history rewritten (remote advanced)",
        BranchState::DirtyWorktree => "dirty worktree",
        BranchState::MergeConflict => "merge conflict",
        BranchState::UpstreamGone => "upstream gone",
        BranchState::Failed(_) => "error",
    }
}

/// The color of a branch state: green is in sync, blue and yellow wait for the
/// user, red needs the user.
pub open spec fn hue_of(status: BranchState) -> Hue {
    match status {
        BranchState::Synced => Hue::Green,
        BranchState::LocalAheadNotOwned => Hue::Blue,
        BranchState::DivergedNotOwned
        | BranchState::Diverged
        | BranchState::HistoryRewritten
        | BranchState::DirtyWorktree => Hue::Yellow,
        BranchState::HistoryRewrittenRemoteAdvanced
        | BranchState::MergeConflict
        | BranchState::UpstreamGone
        | BranchState::Failed(_) => Hue::Red,
    }
}

/// Format a colored branch status label.
pub fn branch_status_styled(status: &BranchState, opts: DisplayOpts) -> (r: String)
    ensures
        is_shown(r@, label_of(*status), hue_of(*status), opts.colors),
{
    let label = branch_status_label(status);
    let hue = match status {
        BranchState::Synced => Hue::Green,
        BranchState::LocalAheadNotOwned => Hue::Blue,
        BranchState::DivergedNotOwned | BranchState::Diverged => Hue::Yellow,
        BranchState::HistoryRewritten => Hue::Yellow,
        BranchState::DirtyWorktree => Hue::Yellow,
        BranchState::HistoryRewrittenRemoteAdvanced
        | BranchState::MergeConflict
        | BranchState::UpstreamGone
        | BranchState::Failed(_) => Hue::Red,
    };
    shown(label, hue, opts.colors)
}

/// A branch and its upstream.
pub open spec fn pair_of(branch: Seq<char>, upstream: Seq<char>) -> Seq<char> {
    branch + " \u{2194} "@ + upstream
}

/// Format a branch ↔ upstream sync pair.
pub fn sync_pair(branch: &str, upstream: &str) -> (r: String)
    ensures
        r@ == pair_of(branch@, upstream@),
{
    cat3(branch, " \u{2194} ", upstream)
}

// ---------------------------------------------------------------------------
// What is shown
// ---------------------------------------------------------------------------

/// What is shown without colors is the text itself.
pub proof fn law_plain_text_is_shown_as_it_is(r: Seq<char>, text: Seq<char>, hue: Hue)
    ensures
        is_shown(r, text, hue, false) <==> r == text,
{
}

/// A repo is shown by its path, with a box before it where emoji are wanted.
pub proof fn law_header_shows_the_path(path: Seq<char>)
    ensures
        header_of(path, false) == path,
        header_of(path, true) == "\u{1F4E6} "@ + path,
{
}

/// A branch is shown with its upstream, in this order.
pub proof fn law_pair_is_branch_and_upstream(branch: Seq<char>, upstream: Seq<char>)
    ensures
        pair_of(branch, upstream).take(branch.len() as int) == branch,
        pair_of(branch, upstream).skip(branch.len() as int) == " \u{2194} "@ + upstream,
{
    assert(pair_of(branch, upstream).take(branch.len() as int) =~= branch);
    assert(pair_of(branch, upstream).skip(branch.len() as int) =~= " \u{2194} "@ + upstream);
}

/// The label and the color of each state: green is in sync, blue is ahead, yellow needs
/// a look, red needs to be mended.
pub proof fn law_states_are_labelled(state: BranchState)
    ensures
        state is Synced ==> label_of(state) == "synced"@ && hue_of(state) is Green,
        state is LocalAheadNotOwned ==> label_of(state) == "local ahead"@ && hue_of(state) is Blue,
        state is DivergedNotOwned ==> label_of(state) == "diverged (someone else)"@ && hue_of(
            state,
        ) is Yellow,
        state is Diverged ==> label_of(state) == "diverged (resolve manually)"@ && hue_of(state)
            is Yellow,
        state is HistoryRewritten ==> label_of(state) == "history rewritten (force-push ready)"@
            && hue_of(state) is Yellow,
        state is HistoryRewrittenRemoteAdvanced ==> label_of(state)
            == "history rewritten (remote advanced)"@ && hue_of(state) is Red,
        state is DirtyWorktree ==> label_of(state) == "dirty worktree"@ && hue_of(state) is Yellow,
        state is MergeConflict ==> label_of(state) == "merge conflict"@ && hue_of(state) is Red,
        state is UpstreamGone ==> label_of(state) == "upstream gone"@ && hue_of(state) is Red,
        state is Failed ==> label_of(state) == "error"@ && hue_of(state) is Red,
{
}

/// The signs of the states, and the words that stand for them without emoji.
pub proof fn law_states_have_their_signs(state: BranchState)
    ensures
        state is Synced ==> icon_of(state, true) == "\u{2705}"@ && icon_of(state, false)
            == "synced"@,
        state is LocalAheadNotOwned ==> icon_of(state, true) == "\u{2B06}\u{FE0F}"@ && icon_of(
            state,
            false,
        ) == "local ahead"@,
        state is DivergedNotOwned || state is Diverged ==> icon_of(state, true)
            == "\u{26A0}\u{FE0F}"@ && icon_of(state, false) == "diverged"@,
        state is HistoryRewritten || state is HistoryRewrittenRemoteAdvanced ==> icon_of(
            state,
            true,
        ) == "\u{270D}\u{FE0F}"@ && icon_of(state, false) == "rewritten"@,
        state is DirtyWorktree ==> icon_of(state, true) == "\u{270F}\u{FE0F}"@ && icon_of(
            state,
            false,
        ) == "dirty"@,
        state is MergeConflict ==> icon_of(state, true) == "\u{1F527}"@ && icon_of(state, false)
            == "conflict"@,
        state is UpstreamGone ==> icon_of(state, true) == "\u{1F6AB}"@ && icon_of(state, false)
            == "upstream gone"@,
        state is Failed ==> icon_of(state, true) == "\u{274C}"@ && icon_of(state, false)
            == "error"@,
{
}

/// A painted text stands between the switch of its color and the one back. A terminal
/// that knows no such color has the text between plain switches; nothing of the text is
/// changed.
pub proof fn law_paint_keeps_the_text(r: Seq<char>, text: Seq<char>, hue: Hue)
    requires
        is_shown(r, text, hue, true),
        r.len() > 0,
    ensures
        ({
            ||| hue is Blue && r == "\u{1b}[38;5;12m"@ + text + "\u{1b}[39m"@
            ||| hue is Green && r == "\u{1b}[38;5;10m"@ + text + "\u{1b}[39m"@
            ||| hue is Yellow && r == "\u{1b}[38;5;11m"@ + text + "\u{1b}[39m"@
            ||| hue is Red && r == "\u{1b}[38;5;9m"@ + text + "\u{1b}[39m"@
            ||| r == "\u{1b}[m"@ + text + "\u{1b}[m"@
        }),
{
}

/// The header of a repo holds its path, with a box before it where emoji are wanted.
pub proof fn law_header_is_shown(r: Seq<char>, path: Seq<char>, opts: DisplayOpts)
    requires
        !opts.colors,
    ensures
        opts.emoji ==> (is_header(r, path, opts) <==> r == "\u{1F4E6} "@ + path),
        !opts.emoji ==> (is_header(r, path, opts) <==> r == path),
{
    assert(is_shown(path, path, Hue::Blue, opts.colors));
}

/// The signs that do not stand for a state, with emoji and without, and the warning that
/// the daemon is away.
pub proof fn law_other_signs_are_shown()
    ensures
        celebrate_of(true) == "\u{1F389}"@ && celebrate_of(false) == "+"@,
        warning_of(true) == "\u{26A0}\u{FE0F}"@ && warning_of(false) == "!"@,
        warning_text(true) == "\u{26A0}"@
            + " Daemon is not running \u{2014} start with: gitsitter daemon start"@,
        warning_text(false) == "!"@
            + " Daemon is not running \u{2014} start with: gitsitter daemon start"@,
        pause_of(true) == "\u{23F8}"@ && pause_of(false) == "-"@,
{
}

} // verus!
