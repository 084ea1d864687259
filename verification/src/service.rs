//! The daemon as a service of the platform.

use vstd::prelude::*;

use crate::executor::Reply;
use crate::text::{cat, cat5, has_part, matches_at};

verus! {

/// The name of the service.
pub const SERVICE_NAME: &'static str = "gitsitter";

/// The name that the platform shows for the service.
pub const SERVICE_DISPLAY_NAME: &'static str = "gitsitter";

/// What to do to run as a service.
#[derive(Debug)]
pub enum ServiceStep {
    /// Start the dispatcher of the Service Control Manager.
    Dispatch,
    /// The service has run.
    Done,
    /// It has not: fail with the message.
    Fail { message: String },
}

/// What a `ServiceStep` says.
pub enum ServiceView {
    Dispatch,
    Done,
    Fail { message: Seq<char> },
}

impl View for ServiceStep {
    type V = ServiceView;

    open spec fn view(&self) -> ServiceView {
        match *self {
            ServiceStep::Dispatch => ServiceView::Dispatch,
            ServiceStep::Done => ServiceView::Done,
            ServiceStep::Fail { message } => ServiceView::Fail { message: message@ },
        }
    }
}

/// How running as a service goes on.
pub open spec fn service_step(on_windows: bool, dispatched: Reply<()>) -> ServiceView {
    if !on_windows {
        ServiceView::Fail { message: "Windows service mode is only available on Windows"@ }
    } else {
        match dispatched {
            Reply::Pending => ServiceView::Dispatch,
            Reply::Got(_) => ServiceView::Done,
            Reply::Failed(e) => ServiceView::Fail {
                message: "failed to start Windows service dispatcher: "@ + e@,
            },
        }
    }
}

/// What to do to run as a service: only Windows has a dispatcher for it.
/// `dispatched` is what came of starting it.
pub fn run_service_dispatcher(on_windows: bool, dispatched: &Reply<()>) -> (r: ServiceStep)
    ensures
        r@ == service_step(on_windows, *dispatched),
        r@ == (if !on_windows {
            ServiceView::Fail { message: "Windows service mode is only available on Windows"@ }
        } else {
            match *dispatched {
                Reply::Pending => ServiceView::Dispatch,
                Reply::Got(_) => ServiceView::Done,
                Reply::Failed(e) => ServiceView::Fail {
                    message: "failed to start Windows service dispatcher: "@ + e@,
                },
            }
        }),
{
    if !on_windows {
        return ServiceStep::Fail {
            message: String::from_str("Windows service mode is only available on Windows"),
        };
    }
    match dispatched {
        Reply::Pending => ServiceStep::Dispatch,
        Reply::Got(_) => ServiceStep::Done,
        Reply::Failed(e) => ServiceStep::Fail {
            message: cat("failed to start Windows service dispatcher: ", e.as_str()),
        },
    }
}

/// The systemd unit of the daemon.
pub open spec fn unit_text(exe: Seq<char>, path: Seq<char>) -> Seq<char> {
    "[Unit]\nDescription=gitsitter - keep git branches in sync\n\n[Service]\nExecStart="@ + exe
        + " daemon run\nRestart=on-failure\nEnvironment=PATH="@ + path
        + "\n\n[Install]\nWantedBy=default.target\n"@
}

/// The systemd unit that runs `exe` with the search path `path`.
pub fn systemd_unit(exe: &str, path: &str) -> (r: String)
    ensures
        r@ == unit_text(exe@, path@),
{
    cat5(
        "[Unit]\nDescription=gitsitter - keep git branches in sync\n\n[Service]\nExecStart=",
        exe,
        " daemon run\nRestart=on-failure\nEnvironment=PATH=",
        path,
        "\n\n[Install]\nWantedBy=default.target\n",
    )
}

/// The launchd property list of the daemon.
pub open spec fn plist_text(exe: Seq<char>, log_dir: Seq<char>, path: Seq<char>) -> Seq<char> {
    "<?xml version=\"1.0\" encoding=\"UTF-8\"?>\n<plist version=\"1.0\">\n<dict>\n<key>Label</key><string>com.gitsitter.daemon</string>\n<key>ProgramArguments</key><array><string>"@
        + exe
        + "</string><string>daemon</string><string>run</string></array>\n<key>RunAtLoad</key><true/>\n<key>KeepAlive</key><true/>\n<key>StandardErrorPath</key><string>"@
        + log_dir
        + "/daemon.err</string>\n<key>EnvironmentVariables</key><dict><key>PATH</key><string>"@
        + path + "</string></dict>\n</dict>\n</plist>\n"@
}

/// The launchd property list that runs `exe` with the search path `path`.
pub fn launchd_plist(exe: &str, log_dir: &str, path: &str) -> (r: String)
    ensures
        r@ == plist_text(exe@, log_dir@, path@),
{
    let mut out = cat5(
        "<?xml version=\"1.0\" encoding=\"UTF-8\"?>\n<plist version=\"1.0\">\n<dict>\n<key>Label</key><string>com.gitsitter.daemon</string>\n<key>ProgramArguments</key><array><string>",
        exe,
        "</string><string>daemon</string><string>run</string></array>\n<key>RunAtLoad</key><true/>\n<key>KeepAlive</key><true/>\n<key>StandardErrorPath</key><string>",
        log_dir,
        "/daemon.err</string>\n<key>EnvironmentVariables</key><dict><key>PATH</key><string>",
    );
    out.append(path);
    out.append("</string></dict>\n</dict>\n</plist>\n");
    out
}

/// Running as a service is for Windows, and done when the dispatcher has returned.
pub proof fn law_service_runs_on_windows(
    r: ServiceStep,
    on_windows: bool,
    dispatched: Reply<()>,
)
    requires
        r@ == service_step(on_windows, dispatched),
    ensures
        r is Dispatch <==> on_windows && dispatched is Pending,
        r is Done <==> on_windows && dispatched is Got,
        r matches ServiceStep::Fail { message } ==> {
            &&& !on_windows ==> message@ == "Windows service mode is only available on Windows"@
            &&& on_windows ==> (dispatched matches Reply::Failed(e) && message@
                == "failed to start Windows service dispatcher: "@ + e@)
        },
{
}

/// The unit runs the daemon of this program, with the search path that it was given.
pub proof fn law_unit_runs_the_daemon(exe: Seq<char>, path: Seq<char>)
    ensures
        has_part(unit_text(exe, path), "ExecStart="@ + exe + " daemon run\n"@),
        has_part(unit_text(exe, path), "Environment=PATH="@ + path + "\n"@),
{
    let unit = unit_text(exe, path);
    let a = "[Unit]\nDescription=gitsitter - keep git branches in sync\n\n[Service]\nExecStart="@;
    let b = " daemon run\nRestart=on-failure\nEnvironment=PATH="@;
    let c = "\n\n[Install]\nWantedBy=default.target\n"@;
    reveal_strlit("[Unit]\nDescription=gitsitter - keep git branches in sync\n\n[Service]\nExecStart=");
    reveal_strlit(" daemon run\nRestart=on-failure\nEnvironment=PATH=");
    reveal_strlit("\n\n[Install]\nWantedBy=default.target\n");
    reveal_strlit("ExecStart=");
    reveal_strlit(" daemon run\n");
    reveal_strlit("Environment=PATH=");
    reveal_strlit("\n");
    assert(a.skip(68) =~= "ExecStart="@);
    assert(b.take(12) =~= " daemon run\n"@);
    assert(b.skip(31) =~= "Environment=PATH="@);
    assert(c.take(1) =~= "\n"@);
    let first = "ExecStart="@ + exe + " daemon run\n"@;
    let second = "Environment=PATH="@ + path + "\n"@;
    let i: int = 68;
    let j: int = (a.len() + exe.len() + 31) as int;
    assert(unit.subrange(i, i + first.len()) =~= a.skip(68) + exe + b.take(12));
    assert(unit.subrange(j, j + second.len()) =~= b.skip(31) + path + c.take(1));
    assert(matches_at(unit, first, i));
    assert(matches_at(unit, second, j));
}

/// The property list runs the daemon of this program, with the log directory and the
/// search path that it was given.
pub proof fn law_plist_runs_the_daemon(exe: Seq<char>, log_dir: Seq<char>, path: Seq<char>)
    ensures
        has_part(
            plist_text(exe, log_dir, path),
            "<array><string>"@ + exe
                + "</string><string>daemon</string><string>run</string></array>"@,
        ),
        has_part(
            plist_text(exe, log_dir, path),
            "<key>StandardErrorPath</key><string>"@ + log_dir + "/daemon.err</string>"@,
        ),
        has_part(plist_text(exe, log_dir, path), "<key>PATH</key><string>"@ + path + "</string>"@),
{
    let plist = plist_text(exe, log_dir, path);
    let a = "<?xml version=\"1.0\" encoding=\"UTF-8\"?>\n<plist version=\"1.0\">\n<dict>\n<key>Label</key><string>com.gitsitter.daemon</string>\n<key>ProgramArguments</key><array><string>"@;
    let b = "</string><string>daemon</string><string>run</string></array>\n<key>RunAtLoad</key><true/>\n<key>KeepAlive</key><true/>\n<key>StandardErrorPath</key><string>"@;
    let c = "/daemon.err</string>\n<key>EnvironmentVariables</key><dict><key>PATH</key><string>"@;
    let d = "</string></dict>\n</dict>\n</plist>\n"@;
    reveal_strlit("<?xml version=\"1.0\" encoding=\"UTF-8\"?>\n<plist version=\"1.0\">\n<dict>\n<key>Label</key><string>com.gitsitter.daemon</string>\n<key>ProgramArguments</key><array><string>");
    reveal_strlit("</string><string>daemon</string><string>run</string></array>\n<key>RunAtLoad</key><true/>\n<key>KeepAlive</key><true/>\n<key>StandardErrorPath</key><string>");
    reveal_strlit("/daemon.err</string>\n<key>EnvironmentVariables</key><dict><key>PATH</key><string>");
    reveal_strlit("</string></dict>\n</dict>\n</plist>\n");
    reveal_strlit("<array><string>");
    reveal_strlit("</string><string>daemon</string><string>run</string></array>");
    reveal_strlit("<key>StandardErrorPath</key><string>");
    reveal_strlit("/daemon.err</string>");
    reveal_strlit("<key>PATH</key><string>");
    reveal_strlit("</string>");
    assert(a.skip(149) =~= "<array><string>"@);
    assert(b.take(60) =~= "</string><string>daemon</string><string>run</string></array>"@);
    assert(b.skip(117) =~= "<key>StandardErrorPath</key><string>"@);
    assert(c.take(20) =~= "/daemon.err</string>"@);
    assert(c.skip(58) =~= "<key>PATH</key><string>"@);
    assert(d.take(9) =~= "</string>"@);
    let first = a.skip(149) + exe + b.take(60);
    let second = b.skip(117) + log_dir + c.take(20);
    let third = c.skip(58) + path + d.take(9);
    let i: int = 149;
    let j: int = (a.len() + exe.len() + 117) as int;
    let k: int = (a.len() + exe.len() + b.len() + log_dir.len() + 58) as int;
    assert(plist.subrange(i, i + first.len()) =~= first);
    assert(plist.subrange(j, j + second.len()) =~= second);
    assert(plist.subrange(k, k + third.len()) =~= third);
    assert(matches_at(plist, first, i));
    assert(matches_at(plist, second, j));
    assert(matches_at(plist, third, k));
}

} // verus!
