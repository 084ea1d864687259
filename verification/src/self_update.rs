//! Self-update: which release is newer, and where to get it.

use vstd::prelude::*;

use crate::text::{
    before, behind, cat3, chars_of, decimal, find_char, has_prefix, number, parse_u64,
    starts_with, string_of, strip_prefix, text_eq, view_opt,
};

verus! {

/// How long a version check stays fresh, in seconds: a day.
pub const CHECK_INTERVAL_SECS: u64 = 86400;

/// The version of this program.
pub open spec fn this_version() -> Seq<char> {
    "0.1.0"@
}

/// The version of this program.
pub fn current_version() -> (r: &'static str)
    ensures
        r@ == this_version(),
{
    "0.1.0"
}

// ---------------------------------------------------------------------------
// Versions
// ---------------------------------------------------------------------------

/// A version string without the `v` in front.
pub open spec fn without_v(v: Seq<char>) -> Seq<char> {
    if has_prefix(v, "v"@) {
        v.skip("v"@.len() as int)
    } else {
        v
    }
}

/// The three numbers of a version string `major.minor.patch`, with or without a
/// `v` in front.
pub open spec fn version_of(v: Seq<char>) -> Option<(u64, u64, u64)> {
    let t = without_v(v);
    let rest = behind(t, '.');
    match (number(before(t, '.')), number(before(rest, '.')), number(behind(rest, '.'))) {
        (Some(major), Some(minor), Some(patch)) => Some((major, minor, patch)),
        _ => None,
    }
}

/// Whether version `a` comes after version `b`.
pub open spec fn comes_after(a: (u64, u64, u64), b: (u64, u64, u64)) -> bool {
    ||| a.0 > b.0
    ||| a.0 == b.0 && a.1 > b.1
    ||| a.0 == b.0 && a.1 == b.1 && a.2 > b.2
}

/// Whether `latest` is a newer version than `current`. Strings that are no
/// versions are never newer.
pub open spec fn newer(latest: Seq<char>, current: Seq<char>) -> bool {
    match (version_of(latest), version_of(current)) {
        (Some(l), Some(c)) => comes_after(l, c),
        _ => false,
    }
}

/// No version is newer than itself, and of two versions at most one is newer.
pub proof fn law_newer_is_strict(a: Seq<char>, b: Seq<char>)
    ensures
        !newer(a, a),
        !(newer(a, b) && newer(b, a)),
{
}

/// What is newer than a newer version is newer.
pub proof fn law_newer_is_transitive(a: Seq<char>, b: Seq<char>, c: Seq<char>)
    requires
        newer(a, b),
        newer(b, c),
    ensures
        newer(a, c),
{
}

/// Of two versions with different numbers one is newer.
pub proof fn law_newer_is_total(a: Seq<char>, b: Seq<char>)
    requires
        version_of(a) is Some,
        version_of(b) is Some,
        version_of(a) != version_of(b),
    ensures
        newer(a, b) || newer(b, a),
{
    let x = version_of(a)->0;
    let y = version_of(b)->0;
    assert(x.0 != y.0 || x.1 != y.1 || x.2 != y.2);
}

fn parse_version(v: &str) -> (r: Option<(u64, u64, u64)>)
    ensures
        r == version_of(v@),
{
    let t = match strip_prefix(v, "v") {
        Some(rest) => rest,
        None => String::from_str(v),
    };
    let cs = chars_of(t.as_str());
    assert(cs@.skip(0) =~= t@);
    let first = find_char(&cs, 0, '.');
    let major = string_of(&cs, 0, first);
    assert(major@ =~= before(t@, '.'));
    let ghost rest = behind(t@, '.');
    if first == cs.len() {
        assert(number(behind(rest, '.')) is None);
        return None;
    }
    assert(rest =~= cs@.skip(first + 1));
    let second = find_char(&cs, first + 1, '.');
    let minor = string_of(&cs, first + 1, second);
    assert(minor@ =~= before(rest, '.'));
    if second == cs.len() {
        assert(number(behind(rest, '.')) is None);
        return None;
    }
    let patch = string_of(&cs, second + 1, cs.len());
    assert(patch@ =~= behind(rest, '.'));
    match parse_u64(major.as_str()) {
        Some(a) => match parse_u64(minor.as_str()) {
            Some(b) => match parse_u64(patch.as_str()) {
                Some(c) => Some((a, b, c)),
                None => None,
            },
            None => None,
        },
        None => None,
    }
}

/// Compare semver-ish version strings. Returns true if `latest` is newer than `current`.
pub fn is_newer(latest: &str, current: &str) -> (r: bool)
    ensures
        r == newer(latest@, current@),
{
    match parse_version(latest) {
        Some(l) => match parse_version(current) {
            Some(c) => l.0 > c.0 || (l.0 == c.0 && (l.1 > c.1 || (l.1 == c.1 && l.2 > c.2))),
            None => false,
        },
        None => false,
    }
}

// ---------------------------------------------------------------------------
// Version check
// ---------------------------------------------------------------------------

/// What the last version check found, and when (unix timestamp).
#[derive(Debug, Clone, PartialEq)]
pub struct UpdateState {
    pub latest_version: String,
    pub checked_at: u64,
}

impl UpdateState {
    /// Whether the check is more than a day old.
    pub open spec fn stale(self, now: u64) -> bool {
        now - self.checked_at > CHECK_INTERVAL_SECS
    }

    /// Whether the check is more than a day old.
    pub fn is_stale(&self, now: u64) -> (r: bool)
        ensures
            r == self.stale(now),
    {
        now.saturating_sub(self.checked_at) > CHECK_INTERVAL_SECS
    }
}

/// The version to offer, given the latest one.
pub open spec fn offer(latest: Seq<char>) -> Option<Seq<char>> {
    if newer(latest, this_version()) {
        Some(latest)
    } else {
        None
    }
}

fn offered(latest: &str) -> (r: Option<String>)
    ensures
        view_opt(r) == offer(latest@),
{
    if is_newer(latest, current_version()) {
        Some(String::from_str(latest))
    } else {
        None
    }
}

/// Returns the latest version string if it is newer than the current version,
/// or None if we're up to date or nothing is known.
pub fn cached_update_available(state: Option<&UpdateState>) -> (r: Option<String>)
    ensures
        view_opt(r) == (match state {
            Some(s) => offer(s.latest_version@),
            None => None,
        }),
{
    match state {
        Some(s) => offered(s.latest_version.as_str()),
        None => None,
    }
}

/// What a version check does.
#[derive(Debug)]
pub enum CheckPlan {
    /// The last check is fresh: this is the version to offer, if any.
    Known(Option<String>),
    /// Ask for the latest release.
    Fetch,
}

/// Whether the last check is still good enough, and what it found.
pub open spec fn is_check_plan(r: CheckPlan, state: Option<&UpdateState>, now: u64) -> bool {
    match state {
        Some(s) if !s.stale(now) => r matches CheckPlan::Known(v) && view_opt(v) == offer(
            s.latest_version@,
        ),
        _ => r is Fetch,
    }
}

/// What a version check does, given what the last one found.
pub fn check_for_update(state: Option<&UpdateState>, now: u64) -> (r: CheckPlan)
    ensures
        is_check_plan(r, state, now),
        match state {
            Some(s) if !s.stale(now) => r matches CheckPlan::Known(v) && view_opt(v) == offer(
                s.latest_version@,
            ),
            _ => r is Fetch,
        },
{
    match state {
        Some(s) => {
            if s.is_stale(now) {
                CheckPlan::Fetch
            } else {
                CheckPlan::Known(offered(s.latest_version.as_str()))
            }
        },
        None => CheckPlan::Fetch,
    }
}

/// What to remember of a check that found `latest`, and the version to offer.
pub fn record_check(latest: &str, now: u64) -> (r: (UpdateState, Option<String>))
    ensures
        r.0.latest_version@ == latest@,
        r.0.checked_at == now,
        view_opt(r.1) == offer(latest@),
{
    (UpdateState { latest_version: String::from_str(latest), checked_at: now }, offered(latest))
}

/// A check that was just recorded is fresh for a day.
pub proof fn law_recorded_check_is_fresh(state: UpdateState, now: u64, later: u64)
    requires
        state.checked_at == now,
        now <= later,
    ensures
        !state.stale(later) <==> later - now <= CHECK_INTERVAL_SECS,
{
}

// ---------------------------------------------------------------------------
// Self-update
// ---------------------------------------------------------------------------

/// Why a self-update is not possible.
#[derive(Debug, Clone, PartialEq)]
pub enum UpdateError {
    NixManaged,
    UnsupportedArchitecture(String),
    UnsupportedOs(String),
}

impl UpdateError {
    /// The message for people.
    pub fn message(&self) -> (r: String)
        ensures
            r@ == (match *self {
                UpdateError::NixManaged => "gitsitter is managed by Nix — update via your flake instead"@,
                UpdateError::UnsupportedArchitecture(a) => "unsupported architecture: "@ + a@,
                UpdateError::UnsupportedOs(os) => "unsupported OS: "@ + os@,
            }),
    {
        match self {
            UpdateError::NixManaged => String::from_str(
                "gitsitter is managed by Nix — update via your flake instead",
            ),
            UpdateError::UnsupportedArchitecture(a) => {
                let mut out = String::from_str("unsupported architecture: ");
                out.append(a.as_str());
                out
            },
            UpdateError::UnsupportedOs(os) => {
                let mut out = String::from_str("unsupported OS: ");
                out.append(os.as_str());
                out
            },
        }
    }
}

/// Detect if the program runs from the nix store, by the path of its binary.
pub fn is_nix_managed(exe: Option<&str>) -> (r: bool)
    ensures
        r == (exe matches Some(p) && has_prefix(p@, "/nix/store/"@)),
{
    match exe {
        Some(p) => starts_with(p, "/nix/store/"),
        None => false,
    }
}

/// The part of a release name that stands for an architecture.
pub open spec fn arch_part(arch: Seq<char>) -> Option<Seq<char>> {
    if arch == "x86_64"@ || arch == "aarch64"@ {
        Some(arch)
    } else {
        None
    }
}

/// The part of a release name that stands for an operating system.
pub open spec fn os_part(os: Seq<char>) -> Option<Seq<char>> {
    if os == "linux"@ {
        Some("unknown-linux-gnu"@)
    } else if os == "macos"@ {
        Some("apple-darwin"@)
    } else {
        None
    }
}

/// The release target for an architecture and an operating system.
pub fn detect_target(arch: &str, os: &str) -> (r: Result<String, UpdateError>)
    ensures
        match r {
            Ok(target) => arch_part(arch@) is Some && os_part(os@) is Some && target@ == arch_part(
                arch@,
            )->0 + "-"@ + os_part(os@)->0,
            Err(UpdateError::UnsupportedArchitecture(a)) => arch_part(arch@) is None && a@ == arch@,
            Err(UpdateError::UnsupportedOs(o)) => arch_part(arch@) is Some && os_part(os@) is None
                && o@ == os@,
            Err(UpdateError::NixManaged) => false,
        },
{
    if !text_eq(arch, "x86_64") && !text_eq(arch, "aarch64") {
        return Err(UpdateError::UnsupportedArchitecture(String::from_str(arch)));
    }
    let name = if text_eq(os, "linux") {
        "unknown-linux-gnu"
    } else if text_eq(os, "macos") {
        "apple-darwin"
    } else {
        return Err(UpdateError::UnsupportedOs(String::from_str(os)));
    };
    Ok(cat3(arch, "-", name))
}

/// The name of the release archive for a target.
pub fn archive_name(target: &str) -> (r: String)
    ensures
        r@ == "gitsitter-"@ + target@ + ".tar.gz"@,
{
    cat3("gitsitter-", target, ".tar.gz")
}

/// Where the latest release is described.
pub fn latest_release_url() -> (r: &'static str)
    ensures
        r@ == "https://api.github.com/repos/mathijshenquet/gitsitter/releases/latest"@,
{
    "https://api.github.com/repos/mathijshenquet/gitsitter/releases/latest"
}

/// Where the archive of a release is.
pub fn download_url(latest: &str, archive: &str) -> (r: String)
    ensures
        r@ == "https://github.com/mathijshenquet/gitsitter/releases/download/"@ + latest@ + "/"@
            + archive@,
{
    let mut out = String::from_str(
        "https://github.com/mathijshenquet/gitsitter/releases/download/",
    );
    out.append(latest);
    out.append("/");
    out.append(archive);
    out
}

/// What a self-update does.
#[derive(Debug)]
pub enum UpdatePlan {
    /// The program is as new as the latest release.
    UpToDate,
    /// Get the archive with the given name from the given place.
    Download { url: String, archive: String },
}

/// Whether the release is taken that fits the machine, or why none is.
pub open spec fn is_update_plan(
    r: Result<UpdatePlan, UpdateError>,
    exe: Option<&str>,
    latest: Seq<char>,
    arch: Seq<char>,
    os: Seq<char>,
) -> bool {
    if exe matches Some(p) && has_prefix(p@, "/nix/store/"@) {
        r matches Err(UpdateError::NixManaged)
    } else if !newer(latest, this_version()) {
        r matches Ok(UpdatePlan::UpToDate)
    } else {
        match (arch_part(arch), os_part(os)) {
            (None, _) => r matches Err(UpdateError::UnsupportedArchitecture(a)) && a@ == arch,
            (Some(_), None) => r matches Err(UpdateError::UnsupportedOs(o)) && o@ == os,
            (Some(a), Some(o)) => r matches Ok(UpdatePlan::Download { url, archive }) && archive@
                == "gitsitter-"@ + (a + "-"@ + o) + ".tar.gz"@ && url@
                == "https://github.com/mathijshenquet/gitsitter/releases/download/"@ + latest
                + "/"@ + archive@,
        }
    }
}

/// What a self-update to `latest` does on a platform.
pub fn self_update(
    exe: Option<&str>,
    latest: &str,
    arch: &str,
    os: &str,
) -> (r: Result<UpdatePlan, UpdateError>)
    ensures
        is_update_plan(r, exe, latest@, arch@, os@),
        match r {
            Err(UpdateError::NixManaged) => exe matches Some(p) && has_prefix(p@, "/nix/store/"@),
            Err(UpdateError::UnsupportedArchitecture(a)) => a@ == arch@ && arch_part(arch@) is None
                && newer(latest@, this_version()),
            Err(UpdateError::UnsupportedOs(o)) => o@ == os@ && arch_part(arch@) is Some && os_part(
                os@,
            ) is None && newer(latest@, this_version()),
            Ok(UpdatePlan::UpToDate) => !newer(latest@, this_version()),
            Ok(UpdatePlan::Download { url, archive }) => {
                &&& newer(latest@, this_version())
                &&& arch_part(arch@) is Some
                &&& os_part(os@) is Some
                &&& archive@ == "gitsitter-"@ + (arch_part(arch@)->0 + "-"@ + os_part(os@)->0)
                    + ".tar.gz"@
                &&& url@ == "https://github.com/mathijshenquet/gitsitter/releases/download/"@
                    + latest@ + "/"@ + archive@
            },
        },
        (exe matches Some(p) && has_prefix(p@, "/nix/store/"@)) ==> r is Err && r->Err_0
            is NixManaged,
{
    if is_nix_managed(exe) {
        return Err(UpdateError::NixManaged);
    }
    if !is_newer(latest, current_version()) {
        return Ok(UpdatePlan::UpToDate);
    }
    match detect_target(arch, os) {
        Ok(target) => {
            let archive = archive_name(target.as_str());
            let url = download_url(latest, archive.as_str());
            Ok(UpdatePlan::Download { url, archive })
        },
        Err(e) => Err(e),
    }
}

// ---------------------------------------------------------------------------
// What holds of releases
// ---------------------------------------------------------------------------

/// The numbers of a version are read in the order in which they are written, with a `v`
/// before them or without.
pub proof fn law_versions_are_read(major: u64, minor: u64, patch: u64)
    ensures
        ({
            let text = decimal(major as nat) + seq!['.'] + decimal(minor as nat) + seq!['.']
                + decimal(patch as nat);
            &&& version_of(text) == Some((major, minor, patch))
            &&& version_of(seq!['v'] + text) == Some((major, minor, patch))
        }),
{
    let a = decimal(major as nat);
    let b = decimal(minor as nat);
    let c = decimal(patch as nat);
    let rest = b + seq!['.'] + c;
    let text = a + seq!['.'] + b + seq!['.'] + c;
    assert(text =~= a + seq!['.'] + rest);
    crate::text::lemma_decimal(major as nat);
    crate::text::lemma_decimal(minor as nat);
    crate::text::law_numbers_are_read(major, a, 0);
    crate::text::law_numbers_are_read(minor, b, 0);
    crate::text::law_numbers_are_read(patch, c, 0);
    assert(!a.contains('.'));
    assert(!b.contains('.'));
    crate::text::law_first_character_parts(a, '.', rest);
    crate::text::law_first_character_parts(b, '.', c);
    reveal_strlit("v");
    assert("v"@ =~= seq!['v']);
    assert(text[0] == a[0]);
    if has_prefix(text, "v"@) {
        assert(text.subrange(0, 1)[0] == 'v');
    }
    assert(without_v(text) == text);
    crate::text::law_ends_are_found("v"@, text);
    assert((seq!['v'] + text).skip(1) =~= text);
}

/// Of two versions the one with the greater number is newer, where the first number that
/// differs decides.
pub proof fn law_first_difference_decides(
    latest: Seq<char>,
    current: Seq<char>,
    l: (u64, u64, u64),
    c: (u64, u64, u64),
)
    requires
        version_of(latest) == Some(l),
        version_of(current) == Some(c),
    ensures
        l.0 != c.0 ==> (newer(latest, current) <==> l.0 > c.0),
        l.0 == c.0 && l.1 != c.1 ==> (newer(latest, current) <==> l.1 > c.1),
        l.0 == c.0 && l.1 == c.1 ==> (newer(latest, current) <==> l.2 > c.2),
{
}

/// What cannot be read as a version is never newer, and nothing is newer than it.
pub proof fn law_unreadable_version_is_not_newer(latest: Seq<char>, current: Seq<char>)
    requires
        version_of(latest) is None || version_of(current) is None,
    ensures
        !newer(latest, current),
{
}

/// A release is offered if it is newer than this one, which is 0.1.0.
pub proof fn law_newer_release_is_offered(latest: Seq<char>, v: (u64, u64, u64))
    ensures
        version_of(latest) is None ==> offer(latest) is None,
        version_of(latest) == Some(v) ==> (offer(latest) is Some <==> v.0 > 0 || v.1 > 1 || (v.1
            == 1 && v.2 > 0)),
        offer(latest) matches Some(o) ==> o == latest,
{
    law_versions_are_read(0, 1, 0);
    reveal_strlit("0.1.0");
    assert(decimal(0) =~= seq!['0']);
    assert(decimal(1) =~= seq!['1']);
    assert(this_version() =~= decimal(0) + seq!['.'] + decimal(1) + seq!['.'] + decimal(0));
}

/// A check is good for a day. After that, and where there was none, the latest release is
/// asked for.
pub proof fn law_check_is_good_for_a_day(r: CheckPlan, state: Option<&UpdateState>, now: u64)
    requires
        is_check_plan(r, state, now),
    ensures
        state is None ==> r is Fetch,
        state matches Some(s) ==> (r is Fetch <==> now > s.checked_at + 24 * 60 * 60),
        r matches CheckPlan::Known(v) ==> (state matches Some(s) && (v matches Some(t) ==> t@
            == s.latest_version@) && (v is Some <==> newer(s.latest_version@, "0.1.0"@))),
{
}

/// The machines that there are releases for, and what their archives are called.
pub proof fn law_machines_have_their_archives(arch: Seq<char>, os: Seq<char>)
    ensures
        arch_part(arch) is Some <==> arch == "x86_64"@ || arch == "aarch64"@,
        arch_part(arch) matches Some(a) ==> a == arch,
        os_part(os) is Some <==> os == "linux"@ || os == "macos"@,
        os_part("linux"@) == Some("unknown-linux-gnu"@),
        os_part("macos"@) == Some("apple-darwin"@),
{
    reveal_strlit("linux");
    reveal_strlit("macos");
    assert("linux"@[0] == 'l' && "macos"@[0] == 'm');
}

/// Something is downloaded only if it is newer, from where its version is, under the name
/// that fits the machine, and never where the program belongs to another manager.
pub proof fn law_download_fits_the_machine(
    r: Result<UpdatePlan, UpdateError>,
    exe: Option<&str>,
    latest: Seq<char>,
    arch: Seq<char>,
    os: Seq<char>,
)
    requires
        is_update_plan(r, exe, latest, arch, os),
    ensures
        r matches Err(UpdateError::NixManaged) <==> (exe matches Some(p) && has_prefix(
            p@,
            "/nix/store/"@,
        )),
        r matches Ok(UpdatePlan::UpToDate) ==> !newer(latest, "0.1.0"@),
        r matches Err(UpdateError::UnsupportedArchitecture(a)) ==> a@ == arch && arch != "x86_64"@
            && arch != "aarch64"@,
        r matches Err(UpdateError::UnsupportedOs(o)) ==> o@ == os && os != "linux"@ && os
            != "macos"@,
        r matches Ok(UpdatePlan::Download { url, archive }) ==> {
            &&& newer(latest, "0.1.0"@)
            &&& os == "linux"@ ==> archive@ == "gitsitter-"@ + (arch + "-"@
                + "unknown-linux-gnu"@) + ".tar.gz"@
            &&& os == "macos"@ ==> archive@ == "gitsitter-"@ + (arch + "-"@ + "apple-darwin"@)
                + ".tar.gz"@
            &&& url@ == "https://github.com/mathijshenquet/gitsitter/releases/download/"@ + latest
                + "/"@ + archive@
        },
        !(exe matches Some(p) && has_prefix(p@, "/nix/store/"@)) && newer(latest, "0.1.0"@) && (
        arch == "x86_64"@ || arch == "aarch64"@) && (os == "linux"@ || os == "macos"@) ==> (
        r matches Ok(plan) && plan is Download),
{
    law_machines_have_their_archives(arch, os);
    reveal_strlit("linux");
    reveal_strlit("macos");
    assert("linux"@[0] == 'l' && "macos"@[0] == 'm');
}

} // verus!
