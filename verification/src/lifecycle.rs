//! Starting, stopping, installing and removing the daemon.
//!
//! The service managers and the daemon itself are asked from outside. What they
//! answer is collected, and the functions here say what to do next and what to
//! print.

use vstd::prelude::*;

use crate::cli::say;
use crate::clock::Duration;
use crate::executor::Reply;
use crate::text::{cat, cat4, decimal, format_u64, trim, trimmed, views};
use crate::transport::Response;

verus! {

/// The platforms, by the service manager that they have.
#[derive(Debug, Clone, Copy, PartialEq, Eq, Structural)]
pub enum Platform {
    /// launchd
    Mac,
    /// systemd
    Linux,
    /// None that is known.
    OtherUnix,
    /// The Service Control Manager.
    Windows,
}

// ---------------------------------------------------------------------------
// Waiting for the daemon
// ---------------------------------------------------------------------------

/// How long the daemon is waited for, in seconds.
pub const READY_TIMEOUT_SECS: u64 = 3;

/// How long to sleep between two looks, in milliseconds.
pub const POLL_MILLIS: u64 = 50;

/// What to do while waiting for the daemon.
#[derive(Debug, Clone, Copy, PartialEq, Eq, Structural)]
pub enum Poll {
    /// The daemon is there.
    Ready,
    /// Look again after a while.
    Sleep,
    /// It has taken too long.
    GiveUp,
}

/// How the waiting for the daemon goes on.
pub open spec fn poll_of(elapsed: nat, timeout: nat, running: bool) -> Poll {
    if elapsed >= timeout {
        Poll::GiveUp
    } else if running {
        Poll::Ready
    } else {
        Poll::Sleep
    }
}

/// Decides what to do while waiting for the daemon: `elapsed` is how long it has
/// been waited for, and `running` whether it is there now.
pub fn wait_for_daemon_ready(elapsed: Duration, timeout: Duration, running: bool) -> (r: Poll)
    ensures
        r == poll_of(elapsed@, timeout@, running),
        r == (if elapsed@ >= timeout@ {
            Poll::GiveUp
        } else if running {
            Poll::Ready
        } else {
            Poll::Sleep
        }),
{
    if elapsed.at_least(timeout) {
        Poll::GiveUp
    } else if running {
        Poll::Ready
    } else {
        Poll::Sleep
    }
}

// ---------------------------------------------------------------------------
// Starting
// ---------------------------------------------------------------------------

/// What is known before the daemon is started.
#[derive(Debug)]
pub struct StartContext {
    pub platform: Platform,
    /// Whether the daemon is running already.
    pub running: bool,
    /// Whether the property list for launchd is there.
    pub has_plist: bool,
    /// Where the daemon logs to.
    pub daemon_log: String,
}

/// What has been answered so far.
#[derive(Debug)]
pub struct StartAnswers {
    /// Whether the service manager has started the daemon.
    pub manager: Reply<bool>,
    /// The process of a daemon that was started directly.
    pub spawned: Reply<u32>,
    /// Whether the daemon came up.
    pub ready: Reply<bool>,
}

/// What to do next.
#[derive(Debug)]
pub enum StartStep {
    /// Ask the service manager to start the daemon.
    AskManager,
    /// Wait for the daemon to come up.
    Wait,
    /// Start the daemon directly, after the warning if there is one.
    Spawn { warning: Option<&'static str> },
    /// It is started: print the line.
    Done { line: String },
    /// It is not: fail with the message.
    Fail { message: String },
}

/// What a `StartStep` says.
pub enum StartView {
    AskManager,
    Wait,
    Spawn { warning: Option<Seq<char>> },
    Done { line: Seq<char> },
    Fail { message: Seq<char> },
}

impl View for StartStep {
    type V = StartView;

    open spec fn view(&self) -> StartView {
        match *self {
            StartStep::AskManager => StartView::AskManager,
            StartStep::Wait => StartView::Wait,
            StartStep::Spawn { warning } => StartView::Spawn {
                warning: match warning {
                    Some(w) => Some(w@),
                    None => None,
                },
            },
            StartStep::Done { line } => StartView::Done { line: line@ },
            StartStep::Fail { message } => StartView::Fail { message: message@ },
        }
    }
}

/// Whether there is a service manager to ask.
pub open spec fn has_manager(c: StartContext) -> bool {
    match c.platform {
        Platform::Mac => c.has_plist,
        Platform::Linux | Platform::Windows => true,
        Platform::OtherUnix => false,
    }
}

/// The name of the service manager.
pub open spec fn manager_name(platform: Platform) -> Seq<char> {
    match platform {
        Platform::Mac => "launchd"@,
        Platform::Linux => "systemd"@,
        _ => "Windows Service Control Manager"@,
    }
}

/// Starting the daemon directly.
pub open spec fn direct_start(c: StartContext, a: StartAnswers) -> StartView {
    match a.spawned {
        Reply::Pending => StartView::Spawn {
            warning: if c.platform is OtherUnix {
                Some(
                    "warning: no supported Unix service manager configured on this platform; starting detached daemon directly"@,
                )
            } else {
                None
            },
        },
        Reply::Failed(e) => StartView::Fail { message: "failed to spawn daemon process: "@ + e@ },
        Reply::Got(pid) => match a.ready {
            Reply::Pending => StartView::Wait,
            Reply::Got(true) => StartView::Done {
                line: "\u{2713} Daemon started, PID: "@ + decimal(pid as nat),
            },
            _ => StartView::Fail {
                message: "spawned daemon process (PID: "@ + decimal(pid as nat)
                    + "), but the daemon socket did not appear; check "@ + c.daemon_log@,
            },
        },
    }
}

/// What to do next to start the daemon: the service manager goes first.
pub open spec fn start_step(c: StartContext, a: StartAnswers) -> StartView {
    if c.running {
        StartView::Done { line: "\u{00B7} Daemon is already running"@ }
    } else if has_manager(c) && a.manager is Pending {
        StartView::AskManager
    } else if has_manager(c) && a.manager == Reply::Got(true) {
        let line = "\u{2713} Daemon started via "@ + manager_name(c.platform);
        if c.platform is Windows {
            StartView::Done { line }
        } else {
            match a.ready {
                Reply::Pending => StartView::Wait,
                Reply::Got(true) => StartView::Done { line },
                _ => StartView::Fail {
                    message: manager_name(c.platform)
                        + " accepted the job, but the daemon socket did not appear"@,
                },
            }
        }
    } else {
        direct_start(c, a)
    }
}

fn start_directly(c: &StartContext, a: &StartAnswers) -> (r: StartStep)
    ensures
        r@ == direct_start(*c, *a),
{
    match &a.spawned {
        Reply::Pending => match c.platform {
            Platform::OtherUnix => StartStep::Spawn {
                warning: Some(
                    "warning: no supported Unix service manager configured on this platform; starting detached daemon directly",
                ),
            },
            _ => StartStep::Spawn { warning: None },
        },
        Reply::Failed(e) => StartStep::Fail {
            message: cat("failed to spawn daemon process: ", e.as_str()),
        },
        Reply::Got(pid) => {
            let id = format_u64(*pid as u64);
            match &a.ready {
                Reply::Pending => StartStep::Wait,
                Reply::Got(true) => StartStep::Done {
                    line: cat("\u{2713} Daemon started, PID: ", id.as_str()),
                },
                _ => StartStep::Fail {
                    message: cat4(
                        "spawned daemon process (PID: ",
                        id.as_str(),
                        "), but the daemon socket did not appear; check ",
                        c.daemon_log.as_str(),
                    ),
                },
            }
        },
    }
}

/// What to do next to start the daemon.
pub fn handle_daemon_start(c: &StartContext, a: &StartAnswers) -> (r: StartStep)
    ensures
        r@ == start_step(*c, *a),
{
    if c.running {
        return StartStep::Done { line: String::from_str("\u{00B7} Daemon is already running") };
    }
    let managed = match c.platform {
        Platform::Mac => c.has_plist,
        Platform::Linux => true,
        Platform::Windows => true,
        Platform::OtherUnix => false,
    };
    if !managed {
        return start_directly(c, a);
    }
    match &a.manager {
        Reply::Pending => {
            return StartStep::AskManager;
        },
        Reply::Got(true) => {},
        _ => {
            return start_directly(c, a);
        },
    }
    let name = match c.platform {
        Platform::Mac => "launchd",
        Platform::Linux => "systemd",
        _ => "Windows Service Control Manager",
    };
    let line = cat("\u{2713} Daemon started via ", name);
    match c.platform {
        Platform::Windows => StartStep::Done { line },
        _ => match &a.ready {
            Reply::Pending => StartStep::Wait,
            Reply::Got(true) => StartStep::Done { line },
            _ => StartStep::Fail {
                message: cat(name, " accepted the job, but the daemon socket did not appear"),
            },
        },
    }
}

/// A daemon that is running is never started a second time.
pub proof fn law_running_daemon_is_left_alone(c: StartContext, a: StartAnswers)
    requires
        c.running,
    ensures
        start_step(c, a) is Done,
{
}

/// Nothing is asked for twice.
pub proof fn law_start_makes_progress(c: StartContext, a: StartAnswers)
    ensures
        start_step(c, a) is AskManager ==> a.manager is Pending,
        start_step(c, a) is Wait ==> a.ready is Pending,
        start_step(c, a) is Spawn ==> a.spawned is Pending,
{
}

/// A start is reported only of a daemon that came up, or that the Service
/// Control Manager has taken over.
pub proof fn law_start_is_earned(c: StartContext, a: StartAnswers)
    requires
        !c.running,
        start_step(c, a) is Done,
    ensures
        a.ready == Reply::Got(true) || (c.platform is Windows && a.manager == Reply::Got(true)),
{
}

/// A daemon is started directly only where the service manager is missing or
/// has refused.
pub proof fn law_manager_goes_first(c: StartContext, a: StartAnswers)
    requires
        start_step(c, a) is Spawn,
        has_manager(c),
    ensures
        !(a.manager is Pending),
        a.manager != Reply::Got(true),
{
}

// ---------------------------------------------------------------------------
// Stopping
// ---------------------------------------------------------------------------

/// Whether the daemon was stopped, or was not there, or would not stop.
pub open spec fn is_stop(
    r: Result<String, String>,
    managed: bool,
    connected: bool,
    resp: Option<&Response>,
) -> bool {
    if managed {
        r matches Ok(line) && line@ == "\u{2713} Daemon stopped"@
    } else if !connected {
        r matches Ok(line) && line@ == "\u{00B7} Daemon is not running"@
    } else {
        match resp {
            Some(Response::Error { message }) => r matches Err(e) && e@ == "error: "@ + message@,
            _ => r matches Ok(line) && line@ == "\u{2713} Daemon stopped"@,
        }
    }
}

/// What is printed when the daemon is stopped: to the terminal, or as an error.
/// `managed` is whether the service manager has stopped it. Else `connected` is
/// whether it was there, and `resp` what it answered, if it did.
pub fn handle_daemon_stop(managed: bool, connected: bool, resp: Option<&Response>) -> (r: Result<
    String,
    String,
>)
    ensures
        is_stop(r, managed, connected, resp),
        if managed {
            r matches Ok(line) && line@ == "\u{2713} Daemon stopped"@
        } else if !connected {
            r matches Ok(line) && line@ == "\u{00B7} Daemon is not running"@
        } else {
            match resp {
                Some(Response::Error { message }) => r matches Err(e) && e@ == "error: "@ + message@,
                _ => r matches Ok(line) && line@ == "\u{2713} Daemon stopped"@,
            }
        },
{
    if managed {
        return Ok(String::from_str("\u{2713} Daemon stopped"));
    }
    if !connected {
        return Ok(String::from_str("\u{00B7} Daemon is not running"));
    }
    match resp {
        Some(Response::Error { message }) => Err(cat("error: ", message.as_str())),
        _ => Ok(String::from_str("\u{2713} Daemon stopped")),
    }
}

// ---------------------------------------------------------------------------
// Installing and removing
// ---------------------------------------------------------------------------

/// What is printed once the systemd unit is written. `reloaded` is whether
/// systemd has read it.
pub fn systemd_install_lines(unit_path: &str, daemon_path: &str, reloaded: bool) -> (r: Vec<String>)
    ensures
        views(r@) == seq![
            "Systemd user service written to "@ + unit_path@,
            "Daemon PATH: "@ + daemon_path@,
        ] + (if reloaded {
            seq!["systemd service enabled and started"@]
        } else {
            Seq::empty()
        }),
{
    let mut lines: Vec<String> = Vec::new();
    say(&mut lines, cat("Systemd user service written to ", unit_path));
    say(&mut lines, cat("Daemon PATH: ", daemon_path));
    if reloaded {
        say(&mut lines, String::from_str("systemd service enabled and started"));
    }
    assert(views(lines@) =~= seq![
        "Systemd user service written to "@ + unit_path@,
        "Daemon PATH: "@ + daemon_path@,
    ] + (if reloaded {
        seq!["systemd service enabled and started"@]
    } else {
        Seq::empty()
    }));
    lines
}

/// What is printed once the launchd property list is written. `refusal` is what
/// launchd complained of, if it did.
pub fn launchd_install_lines(
    plist_path: &str,
    daemon_path: &str,
    domain: &str,
    refusal: Option<&str>,
) -> (r: Vec<String>)
    ensures
        views(r@) == seq![
            "launchd plist written to "@ + plist_path@,
            "Daemon PATH: "@ + daemon_path@,
        ] + (match refusal {
            None => seq!["launchd service bootstrapped"@],
            Some(e) => seq![
                "launchctl bootstrap failed: "@ + trimmed(e@),
                "Run manually: launchctl bootstrap "@ + domain@ + " "@ + plist_path@,
            ],
        }),
{
    let mut lines: Vec<String> = Vec::new();
    say(&mut lines, cat("launchd plist written to ", plist_path));
    say(&mut lines, cat("Daemon PATH: ", daemon_path));
    match refusal {
        None => {
            say(&mut lines, String::from_str("launchd service bootstrapped"));
        },
        Some(e) => {
            say(&mut lines, cat("launchctl bootstrap failed: ", trim(e).as_str()));
            say(&mut lines, cat4("Run manually: launchctl bootstrap ", domain, " ", plist_path));
        },
    }
    assert(views(lines@) =~= seq![
        "launchd plist written to "@ + plist_path@,
        "Daemon PATH: "@ + daemon_path@,
    ] + (match refusal {
        None => seq!["launchd service bootstrapped"@],
        Some(e) => seq![
            "launchctl bootstrap failed: "@ + trimmed(e@),
            "Run manually: launchctl bootstrap "@ + domain@ + " "@ + plist_path@,
        ],
    }));
    lines
}

/// What comes of creating the Windows service. `refusal` is what the Service
/// Control Manager complained of, if it did.
pub fn windows_install_lines(refusal: Option<&str>) -> (r: Result<Vec<String>, String>)
    ensures
        match refusal {
            None => r matches Ok(lines) && views(lines@) == seq![
                "Windows service 'gitsitter' installed"@,
                "Run: sc.exe start gitsitter"@,
            ],
            Some(e) => r matches Err(m) && m@ == "failed to create Windows service: "@ + trimmed(
                e@,
            ),
        },
{
    match refusal {
        None => {
            let mut lines: Vec<String> = Vec::new();
            say(&mut lines, String::from_str("Windows service 'gitsitter' installed"));
            say(&mut lines, String::from_str("Run: sc.exe start gitsitter"));
            assert(views(lines@) =~= seq![
                "Windows service 'gitsitter' installed"@,
                "Run: sc.exe start gitsitter"@,
            ]);
            Ok(lines)
        },
        Some(e) => Err(cat("failed to create Windows service: ", trim(e).as_str())),
    }
}

/// What removing the daemon does to the file of its service.
#[derive(Debug)]
pub struct Removal {
    /// Whether to stop the service and to remove its file.
    pub remove: bool,
    /// What is printed before the file is removed.
    pub before: Vec<String>,
    /// What is printed when all is done.
    pub after: String,
}

/// Whether a service file goes, with what is said before and after that.
pub open spec fn is_removal(
    r: Removal,
    exists_now: bool,
    before: Seq<Seq<char>>,
    gone: Seq<char>,
    missing: Seq<char>,
) -> bool {
    &&& r.remove == exists_now
    &&& exists_now ==> views(r.before@) == before && r.after@ == gone
    &&& !exists_now ==> r.before@.len() == 0 && r.after@ == missing
}

/// Decides how the systemd service is removed.
pub fn systemd_removal(unit_exists: bool) -> (r: Removal)
    ensures
        is_removal(
            r,
            unit_exists,
            seq!["systemd service stopped and disabled"@],
            "Systemd service file removed"@,
            "No systemd service file found"@,
        ),
        r.remove == unit_exists,
        views(r.before@) == (if unit_exists {
            seq!["systemd service stopped and disabled"@]
        } else {
            Seq::empty()
        }),
        r.after@ == (if unit_exists {
            "Systemd service file removed"@
        } else {
            "No systemd service file found"@
        }),
{
    let mut lines: Vec<String> = Vec::new();
    if unit_exists {
        say(&mut lines, String::from_str("systemd service stopped and disabled"));
        assert(views(lines@) =~= seq!["systemd service stopped and disabled"@]);
        Removal {
            remove: true,
            before: lines,
            after: String::from_str("Systemd service file removed"),
        }
    } else {
        assert(views(lines@) =~= Seq::<Seq<char>>::empty());
        Removal {
            remove: false,
            before: lines,
            after: String::from_str("No systemd service file found"),
        }
    }
}

/// Decides how the launchd service is removed. `stopped` is what launchd
/// answered when it was asked to stop the service: nothing, a complaint, or
/// that it could not be run.
pub fn launchd_removal(plist_exists: bool, stopped: &Reply<Option<String>>) -> (r: Removal)
    ensures
        r.remove == plist_exists,
        views(r.before@) == (if plist_exists {
            match *stopped {
                Reply::Got(None) => seq!["launchd service stopped"@],
                Reply::Got(Some(e)) => seq!["launchctl bootout: "@ + trimmed(e@)],
                Reply::Failed(e) => seq!["failed to run launchctl: "@ + e@],
                Reply::Pending => Seq::empty(),
            }
        } else {
            Seq::empty()
        }),
        r.after@ == (if plist_exists {
            "launchd plist removed"@
        } else {
            "No launchd plist found"@
        }),
{
    let mut lines: Vec<String> = Vec::new();
    assert(views(lines@) =~= Seq::<Seq<char>>::empty());
    if plist_exists {
        match stopped {
            Reply::Got(None) => {
                say(&mut lines, String::from_str("launchd service stopped"));
                assert(views(lines@) =~= seq!["launchd service stopped"@]);
            },
            Reply::Got(Some(e)) => {
                say(&mut lines, cat("launchctl bootout: ", trim(e.as_str()).as_str()));
                assert(views(lines@) =~= seq!["launchctl bootout: "@ + trimmed(e@)]);
            },
            Reply::Failed(e) => {
                say(&mut lines, cat("failed to run launchctl: ", e.as_str()));
                assert(views(lines@) =~= seq!["failed to run launchctl: "@ + e@]);
            },
            Reply::Pending => {},
        }
        Removal { remove: true, before: lines, after: String::from_str("launchd plist removed") }
    } else {
        Removal { remove: false, before: lines, after: String::from_str("No launchd plist found") }
    }
}

/// What is printed once the Service Control Manager was asked to delete the
/// service. `refusal` is what it complained of, if it did.
pub fn windows_removal_line(refusal: Option<&str>) -> (r: String)
    ensures
        r@ == (match refusal {
            None => "Windows service removed"@,
            Some(e) => "Windows service removal failed: "@ + trimmed(e@),
        }),
{
    match refusal {
        None => String::from_str("Windows service removed"),
        Some(e) => cat("Windows service removal failed: ", trim(e).as_str()),
    }
}

// ---------------------------------------------------------------------------
// What is done to the daemon
// ---------------------------------------------------------------------------

/// The daemon is waited for until it answers or the time is up.
pub proof fn law_daemon_is_waited_for(elapsed: nat, timeout: nat, running: bool)
    ensures
        poll_of(elapsed, timeout, running) is Ready <==> running && elapsed < timeout,
        poll_of(elapsed, timeout, running) is Sleep <==> !running && elapsed < timeout,
        poll_of(elapsed, timeout, running) is GiveUp <==> elapsed >= timeout,
        READY_TIMEOUT_SECS == 3,
        POLL_MILLIS == 50,
{
}

/// The service manager is asked first, wherever there is one: on a Mac if the daemon is
/// installed there.
pub proof fn law_manager_is_asked_where_there_is_one(r: StartStep, c: StartContext, a: StartAnswers)
    requires
        r@ == start_step(c, a),
        !c.running,
        a.manager is Pending,
    ensures
        r is AskManager <==> c.platform is Linux || c.platform is Windows || (c.platform is Mac
            && c.has_plist),
{
}

/// A daemon that runs is left as it is, and said to be running.
pub proof fn law_running_daemon_is_told(r: StartStep, c: StartContext, a: StartAnswers)
    requires
        r@ == start_step(c, a),
    ensures
        c.running ==> (r matches StartStep::Done { line } && line@
            == "\u{00B7} Daemon is already running"@),
        !c.running ==> (r matches StartStep::Done { line } ==> line@
            != "\u{00B7} Daemon is already running"@),
{
    reveal_strlit("\u{00B7} Daemon is already running");
    reveal_strlit("\u{2713} Daemon started via ");
    reveal_strlit("\u{2713} Daemon started, PID: ");
    assert("\u{00B7} Daemon is already running"@[0] == '\u{00B7}');
    assert("\u{2713} Daemon started via "@[0] == '\u{2713}');
    assert("\u{2713} Daemon started, PID: "@[0] == '\u{2713}');
}

/// A manager that took the job is waited for, except on Windows, and named once the
/// daemon is there.
pub proof fn law_manager_is_named(r: StartStep, c: StartContext, a: StartAnswers)
    requires
        r@ == start_step(c, a),
        !c.running,
        c.platform is Linux || c.platform is Windows || (c.platform is Mac && c.has_plist),
        a.manager == Reply::Got(true),
    ensures
        c.platform is Windows ==> (r matches StartStep::Done { line } && line@
            == "\u{2713} Daemon started via "@ + "Windows Service Control Manager"@),
        !(c.platform is Windows) && a.ready is Pending ==> r is Wait,
        c.platform is Linux && a.ready == Reply::Got(true) ==> (r matches StartStep::Done { line }
            && line@ == "\u{2713} Daemon started via "@ + "systemd"@),
        c.platform is Mac && a.ready == Reply::Got(true) ==> (r matches StartStep::Done { line }
            && line@ == "\u{2713} Daemon started via "@ + "launchd"@),
        !(c.platform is Windows) && !(a.ready is Pending) && a.ready != Reply::Got(true) ==> (
        r matches StartStep::Fail { message } && (c.platform is Linux ==> message@ == "systemd"@
            + " accepted the job, but the daemon socket did not appear"@) && (c.platform is Mac
            ==> message@ == "launchd"@
            + " accepted the job, but the daemon socket did not appear"@)),
{
}

/// Without a manager that took the job the daemon is spawned, waited for, and told by its
/// process number.
pub proof fn law_daemon_is_spawned_else(r: StartStep, c: StartContext, a: StartAnswers)
    requires
        r@ == start_step(c, a),
        !c.running,
        c.platform is OtherUnix || (c.platform is Mac && !c.has_plist) || (!(a.manager is Pending)
            && a.manager != Reply::Got(true)),
    ensures
        r is Spawn <==> a.spawned is Pending,
        r matches StartStep::Spawn { warning } ==> (warning is Some <==> c.platform is OtherUnix)
            && (warning matches Some(w) ==> w@
            == "warning: no supported Unix service manager configured on this platform; starting detached daemon directly"@),
        a.spawned matches Reply::Failed(e) ==> (r matches StartStep::Fail { message } && message@
            == "failed to spawn daemon process: "@ + e@),
        a.spawned matches Reply::Got(pid) ==> {
            &&& r is Wait <==> a.ready is Pending
            &&& a.ready == Reply::Got(true) ==> (r matches StartStep::Done { line } && line@
                == "\u{2713} Daemon started, PID: "@ + decimal(pid as nat))
            &&& !(a.ready is Pending) && a.ready != Reply::Got(true) ==> (
            r matches StartStep::Fail { message } && message@
                == "spawned daemon process (PID: "@ + decimal(pid as nat)
                + "), but the daemon socket did not appear; check "@ + c.daemon_log@)
        },
{
}

/// Stopping fails only where the daemon answers with an error, which is passed on.
pub proof fn law_stop_passes_errors_on(
    r: Result<String, String>,
    managed: bool,
    connected: bool,
    resp: Option<&Response>,
)
    requires
        is_stop(r, managed, connected, resp),
    ensures
        r is Err <==> !managed && connected && (resp matches Some(x) && x is Error),
        r matches Err(e) ==> (resp matches Some(Response::Error { message }) && e@ == "error: "@
            + message@),
        managed || (connected && r is Ok) ==> (r matches Ok(line) && line@
            == "\u{2713} Daemon stopped"@),
        !managed && !connected ==> (r matches Ok(line) && line@
            == "\u{00B7} Daemon is not running"@),
{
}

/// A service file is removed if it is there. What is said before speaks of the service
/// that was stopped, and what is said after of the file.
pub proof fn law_service_file_goes_if_it_is_there(
    r: Removal,
    exists_now: bool,
    before: Seq<Seq<char>>,
    gone: Seq<char>,
    missing: Seq<char>,
    i: int,
)
    requires
        is_removal(r, exists_now, before, gone, missing),
    ensures
        r.remove <==> exists_now,
        exists_now ==> r.before@.len() == before.len() && (0 <= i < before.len() ==> r.before@[i]@
            == before[i]) && r.after@ == gone,
        !exists_now ==> r.before@.len() == 0 && r.after@ == missing,
{
    assert(views(r.before@).len() == r.before@.len());
    if exists_now && 0 <= i < before.len() {
        assert(views(r.before@)[i] == r.before@[i]@);
    }
}

} // verus!
