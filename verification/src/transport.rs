//! Local transport for CLI <-> daemon communication.
//!
//! Protocol: length-prefixed messages.
//!   - 4 bytes: big-endian u32 message length
//!   - N bytes: payload
//!
//! Maximum message size: 16 MB.

use vstd::prelude::*;

use crate::table::Table;
use crate::text::{decimal, format_u64};

verus! {

/// Maximum allowed message size (16 MB).
pub const MAX_MESSAGE_SIZE: u32 = 16_777_216;

// ---------------------------------------------------------------------------
// Message types
// ---------------------------------------------------------------------------

#[derive(Debug, Clone, PartialEq)]
pub enum Request {
    Status { repo_path: Option<String>, global: bool },
    Sync { repo_path: Option<String>, all: bool },
    ReloadConfig,
    DaemonStatus,
    PromptCheck { repo_path: String },
    Shutdown,
}

#[derive(Debug)]
pub enum Response {
    Done { message: String },
    Error { message: String },
    Status { data: StatusData },
    SyncComplete { data: StatusData, events: Vec<SyncEvent> },
    GlobalStatus { repos: Vec<RepoStatusData> },
    DaemonStatus {
        pid: u32,
        uptime_secs: u64,
        repos_watched: usize,
        /// Set when a newer version is available.
        latest_version: Option<String>,
    },
}

#[derive(Debug)]
pub struct StatusData {
    pub repo_id: String,
    pub display_path: String,
    pub last_sync: Option<String>,
    pub branches: Vec<BranchStatusData>,
    /// Remote names that are not trusted (host not in trusted_hosts).
    pub untrusted_remotes: Vec<String>,
    /// Unique hosts of untrusted remotes (for actionable hints).
    pub untrusted_hosts: Vec<String>,
    /// Remote names explicitly disabled in config.
    pub disabled_remotes: Vec<String>,
    /// All remotes: name -> URL.
    pub remote_urls: Table<String>,
    /// True when the repo was just auto-registered by a PromptCheck.
    pub newly_registered: bool,
}

#[derive(Debug, Clone, PartialEq)]
pub struct BranchStatusData {
    pub name: String,
    pub upstream: Option<String>,
    /// synced, diverged, local_ahead, remote_ahead, etc.
    pub status: String,
    /// When the branch was last pulled or pushed.
    pub last_action: Option<String>,
}

#[derive(Debug, Clone, PartialEq)]
pub struct RepoStatusData {
    pub display_path: String,
    /// e.g. "10 synced", "1/9 diverged"
    pub status_summary: String,
    pub last_sync: Option<String>,
}

/// Structured event emitted during a sync cycle.
#[derive(Debug, Clone, PartialEq)]
pub enum SyncEvent {
    Fetch { remotes: Vec<String> },
    Branch {
        branch: String,
        /// MergeAnalysis result: "UpToDate", "FastForward", "LocalAhead", "Diverged", "UpstreamGone"
        analysis: String,
        /// SyncAction chosen: "FastForwardMerge", "Push", "RebaseThenPush", "DivergedNotOwned", etc.
        sync_action: String,
        /// HistoryRewrite result (only for Diverged+owned): "None", "RemoteUnchanged", "RemoteAdvanced"
        rewrite: Option<String>,
        /// Resulting sync status: "synced", "diverged", "history_rewritten_remote_unchanged", etc.
        status: String,
        /// Human-readable description: "fast-forwarded", "rebased onto origin/main, pushed", etc.
        detail: String,
    },
}

// ---------------------------------------------------------------------------
// Low-level framing
// ---------------------------------------------------------------------------

/// The four bytes of `n`, the highest first.
pub open spec fn be_bytes(n: nat) -> Seq<u8> {
    seq![
        (n / 16777216) as u8,
        (n / 65536 % 256) as u8,
        (n / 256 % 256) as u8,
        (n % 256) as u8,
    ]
}

/// The number that four bytes write, the highest first.
pub open spec fn be_value(b: Seq<u8>) -> nat {
    (b[0] * 16777216 + b[1] * 65536 + b[2] * 256 + b[3]) as nat
}

/// The bytes on the wire that carry `msg`.
pub open spec fn frame(msg: Seq<u8>) -> Seq<u8> {
    be_bytes(msg.len()) + msg
}

/// Why a message cannot be framed, or a frame not be read.
#[derive(Debug, Clone, Copy, PartialEq, Eq, Structural)]
pub enum FrameError {
    /// The length does not fit in the header.
    TooLargeToEncode,
    /// The outgoing message is over the limit.
    Oversized(u32),
    /// The incoming message is over the limit.
    IncomingOversized(u32),
    /// The stream ended before the length.
    MissingLength,
    /// The stream ended before the end of the payload.
    MissingPayload,
}

impl FrameError {
    /// The message for people.
    pub open spec fn text(self) -> Seq<char> {
        match self {
            FrameError::TooLargeToEncode => "message too large to encode length"@,
            FrameError::Oversized(n) => "message size "@ + decimal(n as nat)
                + " exceeds maximum allowed size "@ + decimal(MAX_MESSAGE_SIZE as nat),
            FrameError::IncomingOversized(n) => "incoming message size "@ + decimal(n as nat)
                + " exceeds maximum allowed size "@ + decimal(MAX_MESSAGE_SIZE as nat),
            FrameError::MissingLength => "failed to read message length"@,
            FrameError::MissingPayload => "failed to read message payload"@,
        }
    }

    /// The message for people.
    pub fn message(&self) -> (r: String)
        ensures
            r@ == self.text(),
    {
        match self {
            FrameError::TooLargeToEncode => String::from_str("message too large to encode length"),
            FrameError::Oversized(n) => {
                let mut out = String::from_str("message size ");
                out.append(format_u64(*n as u64).as_str());
                out.append(" exceeds maximum allowed size ");
                out.append(format_u64(MAX_MESSAGE_SIZE as u64).as_str());
                out
            },
            FrameError::IncomingOversized(n) => {
                let mut out = String::from_str("incoming message size ");
                out.append(format_u64(*n as u64).as_str());
                out.append(" exceeds maximum allowed size ");
                out.append(format_u64(MAX_MESSAGE_SIZE as u64).as_str());
                out
            },
            FrameError::MissingLength => String::from_str("failed to read message length"),
            FrameError::MissingPayload => String::from_str("failed to read message payload"),
        }
    }
}

/// The header of a message of `len` bytes.
fn push_header(out: &mut Vec<u8>, len: u32)
    ensures
        final(out)@ == old(out)@ + be_bytes(len as nat),
{
    let ghost was = out@;
    out.push((len / 16777216) as u8);
    out.push((len / 65536 % 256) as u8);
    out.push((len / 256 % 256) as u8);
    out.push((len % 256) as u8);
    assert(out@ =~= was + be_bytes(len as nat));
}

/// Whether a message was put behind what was written before, or why it was not.
pub open spec fn is_sent(
    r: Result<(), FrameError>,
    wire: Seq<u8>,
    was: Seq<u8>,
    msg: Seq<u8>,
) -> bool {
    &&& msg.len() <= MAX_MESSAGE_SIZE ==> r is Ok && wire == was + frame(msg)
    &&& MAX_MESSAGE_SIZE < msg.len() <= u32::MAX ==> r == Err::<(), FrameError>(
        FrameError::Oversized(msg.len() as u32),
    ) && wire == was
    &&& msg.len() > u32::MAX ==> r == Err::<(), FrameError>(FrameError::TooLargeToEncode) && wire
        == was
}

/// Send a length-prefixed message: put it behind what `writer` holds.
pub fn send_message(writer: &mut Vec<u8>, msg: &[u8]) -> (r: Result<(), FrameError>)
    ensures
        is_sent(r, final(writer)@, old(writer)@, msg@),
        msg@.len() <= MAX_MESSAGE_SIZE ==> r is Ok && final(writer)@ == old(writer)@ + frame(msg@),
        MAX_MESSAGE_SIZE < msg@.len() <= u32::MAX ==> r == Err::<(), FrameError>(
            FrameError::Oversized(msg@.len() as u32),
        ) && final(writer)@ == old(writer)@,
        msg@.len() > u32::MAX ==> r == Err::<(), FrameError>(FrameError::TooLargeToEncode)
            && final(writer)@ == old(writer)@,
{
    let n: u64 = msg.len() as u64;
    if n > 0xffff_ffff {
        return Err(FrameError::TooLargeToEncode);
    }
    let len: u32 = n as u32;
    if len > MAX_MESSAGE_SIZE {
        return Err(FrameError::Oversized(len));
    }
    push_header(writer, len);
    let ghost header = writer@;
    let mut i: usize = 0;
    while i < msg.len()
        invariant
            i <= msg@.len(),
            writer@ == header + msg@.take(i as int),
        decreases msg.len() - i,
    {
        writer.push(msg[i]);
        assert(msg@.take(i + 1) =~= msg@.take(i as int).push(msg@[i as int]));
        i = i + 1;
    }
    assert(msg@.take(i as int) =~= msg@);
    assert(writer@ =~= old(writer)@ + frame(msg@));
    Ok(())
}

/// The length of the payload that a header announces.
pub fn incoming_len(header: &[u8]) -> (r: Result<u32, FrameError>)
    ensures
        r == (if header@.len() < 4 {
            Err::<u32, FrameError>(FrameError::MissingLength)
        } else if be_value(header@) > MAX_MESSAGE_SIZE {
            Err(FrameError::IncomingOversized(be_value(header@) as u32))
        } else {
            Ok(be_value(header@) as u32)
        }),
{
    if header.len() < 4 {
        return Err(FrameError::MissingLength);
    }
    let len: u32 = header[0] as u32 * 16777216 + header[1] as u32 * 65536 + header[2] as u32 * 256
        + header[3] as u32;
    if len > MAX_MESSAGE_SIZE {
        return Err(FrameError::IncomingOversized(len));
    }
    Ok(len)
}

/// Whether the message at the front was read, or why it was not.
pub open spec fn is_received(r: Result<(Vec<u8>, usize), FrameError>, wire: Seq<u8>) -> bool {
    if wire.len() < 4 {
        r == Err::<(Vec<u8>, usize), FrameError>(FrameError::MissingLength)
    } else if be_value(wire) > MAX_MESSAGE_SIZE {
        r == Err::<(Vec<u8>, usize), FrameError>(
            FrameError::IncomingOversized(be_value(wire) as u32),
        )
    } else if wire.len() < 4 + be_value(wire) {
        r == Err::<(Vec<u8>, usize), FrameError>(FrameError::MissingPayload)
    } else {
        r matches Ok((msg, used)) && used == 4 + be_value(wire) && msg@ == wire.subrange(
            4,
            4 + be_value(wire) as int,
        )
    }
}

/// Receive a length-prefixed message from the bytes at hand. Gives the payload
/// and the number of bytes that it took, with its header.
pub fn recv_message(reader: &[u8]) -> (r: Result<(Vec<u8>, usize), FrameError>)
    ensures
        is_received(r, reader@),
        if reader@.len() < 4 {
            r == Err::<(Vec<u8>, usize), FrameError>(FrameError::MissingLength)
        } else if be_value(reader@) > MAX_MESSAGE_SIZE {
            r == Err::<(Vec<u8>, usize), FrameError>(
                FrameError::IncomingOversized(be_value(reader@) as u32),
            )
        } else if reader@.len() < 4 + be_value(reader@) {
            r == Err::<(Vec<u8>, usize), FrameError>(FrameError::MissingPayload)
        } else {
            r matches Ok((msg, used)) && used == 4 + be_value(reader@) && msg@ == reader@.subrange(
                4,
                4 + be_value(reader@) as int,
            )
        },
{
    let len: u32 = match incoming_len(reader) {
        Ok(len) => len,
        Err(e) => {
            return Err(e);
        },
    };
    if reader.len() - 4 < len as usize {
        return Err(FrameError::MissingPayload);
    }
    let end: usize = 4 + len as usize;
    let mut out: Vec<u8> = Vec::new();
    let mut i: usize = 4;
    while i < end
        invariant
            4 <= i <= end,
            end <= reader@.len(),
            out@ == reader@.subrange(4, i as int),
        decreases end - i,
    {
        out.push(reader[i]);
        assert(reader@.subrange(4, i + 1) =~= reader@.subrange(4, i as int).push(
            reader@[i as int],
        ));
        i = i + 1;
    }
    Ok((out, end))
}

/// The header gives back the length it was made from.
pub proof fn law_length_is_read_back(n: nat, tail: Seq<u8>)
    requires
        n <= u32::MAX,
    ensures
        be_value(be_bytes(n) + tail) == n,
{
    let b = be_bytes(n) + tail;
    assert(b[0] == (n / 16777216) as u8);
    assert(b[1] == (n / 65536 % 256) as u8);
    assert(b[2] == (n / 256 % 256) as u8);
    assert(b[3] == (n % 256) as u8);
    assert(n / 16777216 < 256);
    assert(n / 65536 == 256 * (n / 16777216) + n / 65536 % 256);
    assert(n / 256 == 256 * (n / 65536) + n / 256 % 256);
}

/// A message that was sent is the first that is received, and what was sent
/// behind it is left to be received next.
pub proof fn law_message_round_trip(msg: Seq<u8>, tail: Seq<u8>)
    requires
        msg.len() <= MAX_MESSAGE_SIZE,
    ensures
        ({
            let wire = frame(msg) + tail;
            &&& wire.len() >= 4
            &&& be_value(wire) == msg.len()
            &&& wire.len() >= 4 + be_value(wire)
            &&& wire.subrange(4, 4 + be_value(wire) as int) == msg
            &&& wire.skip(4 + be_value(wire) as int) == tail
        }),
{
    let wire = frame(msg) + tail;
    law_length_is_read_back(msg.len(), msg + tail);
    assert(wire =~= be_bytes(msg.len()) + (msg + tail));
    assert(wire.subrange(4, 4 + msg.len() as int) =~= msg);
    assert(wire.skip(4 + msg.len() as int) =~= tail);
}

// ---------------------------------------------------------------------------
// What goes over the wire
// ---------------------------------------------------------------------------

/// The length is sent with its highest byte first.
pub proof fn law_highest_byte_goes_first(a: u8, b: u8, c: u8, d: u8, tail: Seq<u8>)
    ensures
        be_value(seq![a, b, c, d] + tail) == ((a * 256 + b) * 256 + c) * 256 + d,
        be_bytes((((a * 256 + b) * 256 + c) * 256 + d) as nat) == seq![a, b, c, d],
{
    let n: nat = (((a * 256 + b) * 256 + c) * 256 + d) as nat;
    assert(n / 16777216 == a);
    assert(n / 65536 % 256 == b);
    assert(n / 256 % 256 == c);
    assert(n % 256 == d);
    assert(be_bytes(n) =~= seq![a, b, c, d]);
}

/// A message goes behind its length, which takes four bytes.
pub proof fn law_message_follows_its_length(msg: Seq<u8>)
    requires
        msg.len() <= u32::MAX,
    ensures
        frame(msg).len() == 4 + msg.len(),
        frame(msg).skip(4) == msg,
        be_value(frame(msg)) == msg.len(),
        MAX_MESSAGE_SIZE == 16 * 1024 * 1024,
{
    law_length_is_read_back(msg.len(), msg);
    assert(frame(msg).skip(4) =~= msg);
}

/// What is said when a message cannot be sent or read.
pub proof fn law_frame_errors_are_told(e: FrameError, n: u32)
    ensures
        e is TooLargeToEncode ==> e.text() == "message too large to encode length"@,
        e == FrameError::Oversized(n) ==> e.text() == "message size "@ + decimal(n as nat)
            + " exceeds maximum allowed size "@ + decimal(16_777_216),
        e == FrameError::IncomingOversized(n) ==> e.text() == "incoming message size "@ + decimal(
            n as nat,
        ) + " exceeds maximum allowed size "@ + decimal(16_777_216),
        e is MissingLength ==> e.text() == "failed to read message length"@,
        e is MissingPayload ==> e.text() == "failed to read message payload"@,
{
}

/// What was sent is received as it was, and what follows it is left for the next.
pub proof fn law_what_is_sent_is_received(
    sent: Result<(), FrameError>,
    wire: Seq<u8>,
    was: Seq<u8>,
    msg: Seq<u8>,
    tail: Seq<u8>,
    got: Result<(Vec<u8>, usize), FrameError>,
)
    requires
        is_sent(sent, wire, was, msg),
        is_received(got, wire.skip(was.len() as int) + tail),
    ensures
        sent is Ok <==> msg.len() <= 16 * 1024 * 1024,
        sent is Ok ==> (got matches Ok((m, used)) && m@ == msg && used == 4 + msg.len() && (
        wire.skip(was.len() as int) + tail).skip(used as int) == tail),
        sent is Ok ==> wire.take(was.len() as int) == was,
        sent is Err ==> wire == was,
{
    if sent is Ok {
        assert(wire.skip(was.len() as int) =~= frame(msg));
        assert(wire.take(was.len() as int) =~= was);
        law_message_round_trip(msg, tail);
    }
}

/// A message that is cut off or too long is not received.
pub proof fn law_broken_message_is_refused(
    got: Result<(Vec<u8>, usize), FrameError>,
    wire: Seq<u8>,
)
    requires
        is_received(got, wire),
    ensures
        wire.len() < 4 ==> (got matches Err(e) && e is MissingLength),
        wire.len() >= 4 && be_value(wire) > 16 * 1024 * 1024 ==> (got matches Err(
            FrameError::IncomingOversized(n),
        ) && n == be_value(wire)),
        wire.len() >= 4 && be_value(wire) <= 16 * 1024 * 1024 && wire.len() < 4 + be_value(wire)
            ==> (got matches Err(e) && e is MissingPayload),
        got matches Ok((m, used)) ==> used <= wire.len() && m@.len() == be_value(wire),
{
    if wire.len() >= 4 {
        assert(be_value(wire) <= u32::MAX);
    }
}

} // verus!
