//! Path resolution for gitsitter.
//!
//! [`Paths`] is resolved once at startup and threaded through the program.

use vstd::prelude::*;

use crate::text::{
    cat, chars_of, clone_opt, code_of, decimal, format_u64, view_opt,
};

verus! {

/// Resolved set of gitsitter paths. Immutable after construction.
#[derive(Debug, Clone, PartialEq)]
pub struct Paths {
    pub config_file: String,
    pub repos_file: String,
    pub trusted_hosts_file: String,
    pub daemon_log: String,
    pub daemon_pid: String,
    pub socket_path: String,
}

/// What the environment and the platform say of directories.
#[derive(Debug)]
pub struct PathEnv {
    /// `GITSITTER_CONFIG_DIR`
    pub config_override: Option<String>,
    /// The config directory of the platform.
    pub config_dir: Option<String>,
    /// `GITSITTER_STATE_DIR`
    pub state_override: Option<String>,
    /// The state directory of the platform.
    pub state_dir: Option<String>,
    /// The directory for local data of the platform.
    pub data_local_dir: Option<String>,
    /// `GITSITTER_SOCKET_PATH`
    pub socket_override: Option<String>,
    /// The socket path of the platform.
    pub platform_socket: String,
    /// What separates the components of a path.
    pub separator: char,
}

/// The path of `name` in the directory `base`.
pub open spec fn joined_path(base: Seq<char>, name: Seq<char>, separator: char) -> Seq<char> {
    if base.len() == 0 || base.last() == '/' || base.last() == separator {
        base + name
    } else {
        base + seq![separator] + name
    }
}

/// The path of `name` in the directory `base`.
pub fn join_path(base: &str, name: &str, separator: char) -> (r: String)
    ensures
        r@ == joined_path(base@, name@, separator),
{
    let cs = chars_of(base);
    let mut out = String::from_str(base);
    if !(cs.len() == 0 || cs[cs.len() - 1] == '/' || cs[cs.len() - 1] == separator) {
        out.push(separator);
        assert(out@ =~= base@ + seq![separator]);
    }
    out.append(name);
    out
}

impl PathEnv {
    /// The directory that holds the config directory of gitsitter.
    pub open spec fn config_base(self) -> Option<Seq<char>> {
        if self.config_override is Some {
            view_opt(self.config_override)
        } else {
            view_opt(self.config_dir)
        }
    }

    /// The directory that holds the state directory of gitsitter. A platform
    /// without a directory for state has one for local data.
    pub open spec fn state_base(self) -> Option<Seq<char>> {
        if self.state_override is Some {
            view_opt(self.state_override)
        } else if self.state_dir is Some {
            view_opt(self.state_dir)
        } else {
            view_opt(self.data_local_dir)
        }
    }

    /// The config directory of gitsitter.
    pub open spec fn config_home(self) -> Seq<char> {
        joined_path(self.config_base()->0, "gitsitter"@, self.separator)
    }

    /// The state directory of gitsitter.
    pub open spec fn state_home(self) -> Seq<char> {
        joined_path(self.state_base()->0, "gitsitter"@, self.separator)
    }

    /// The config directory of gitsitter, if there is a place for it.
    pub fn config_directory(&self) -> (r: Option<String>)
        ensures
            match r {
                Some(d) => self.config_base() is Some && d@ == self.config_home(),
                None => self.config_base() is None,
            },
    {
        let base = if self.config_override.is_some() {
            clone_opt(&self.config_override)
        } else {
            clone_opt(&self.config_dir)
        };
        match base {
            Some(b) => Some(join_path(b.as_str(), "gitsitter", self.separator)),
            None => None,
        }
    }

    /// The state directory of gitsitter, if there is a place for it.
    pub fn state_directory(&self) -> (r: Option<String>)
        ensures
            match r {
                Some(d) => self.state_base() is Some && d@ == self.state_home(),
                None => self.state_base() is None,
            },
    {
        let base = if self.state_override.is_some() {
            clone_opt(&self.state_override)
        } else if self.state_dir.is_some() {
            clone_opt(&self.state_dir)
        } else {
            clone_opt(&self.data_local_dir)
        };
        match base {
            Some(b) => Some(join_path(b.as_str(), "gitsitter", self.separator)),
            None => None,
        }
    }
}

impl Paths {
    /// Resolve paths from environment variables and platform defaults.
    pub fn resolve(env: &PathEnv) -> (r: Paths)
        requires
            env.config_base() is Some,
            env.state_base() is Some,
        ensures
            r.config_file@ == joined_path(env.config_home(), "config.toml"@, env.separator),
            r.repos_file@ == joined_path(env.config_home(), "repos.toml"@, env.separator),
            r.trusted_hosts_file@ == joined_path(
                env.config_home(),
                "trusted_hosts"@,
                env.separator,
            ),
            r.daemon_log@ == joined_path(env.state_home(), "daemon.log"@, env.separator),
            r.daemon_pid@ == joined_path(env.state_home(), "daemon.pid"@, env.separator),
            r.socket_path@ == (match env.socket_override {
                Some(s) => s@,
                None => env.platform_socket@,
            }),
    {
        let config = match env.config_directory() {
            Some(d) => d,
            None => String::new(),
        };
        let state = match env.state_directory() {
            Some(d) => d,
            None => String::new(),
        };
        let socket_path = match &env.socket_override {
            Some(s) => String::from_str(s.as_str()),
            None => String::from_str(env.platform_socket.as_str()),
        };
        Paths {
            config_file: join_path(config.as_str(), "config.toml", env.separator),
            repos_file: join_path(config.as_str(), "repos.toml", env.separator),
            trusted_hosts_file: join_path(config.as_str(), "trusted_hosts", env.separator),
            daemon_log: join_path(state.as_str(), "daemon.log", env.separator),
            daemon_pid: join_path(state.as_str(), "daemon.pid", env.separator),
            socket_path,
        }
    }
}

/// Path to the file that caches the latest known version + last check time.
pub fn update_state_path(env: &PathEnv) -> (r: String)
    requires
        env.state_base() is Some,
    ensures
        r@ == joined_path(env.state_home(), "update_check.json"@, env.separator),
{
    let state = match env.state_directory() {
        Some(d) => d,
        None => String::new(),
    };
    join_path(state.as_str(), "update_check.json", env.separator)
}

/// The socket of the daemon on Unix.
pub open spec fn unix_socket(runtime_dir: Option<&str>, uid: nat) -> Seq<char> {
    match runtime_dir {
        Some(dir) => joined_path(dir@, "gitsitter.sock"@, '/'),
        None => "/tmp/gitsitter-"@ + decimal(uid) + ".sock"@,
    }
}

/// The Unix socket: in the runtime directory, or else under `/tmp` with the id
/// of the user.
pub fn unix_socket_path(runtime_dir: Option<&str>, uid: u32) -> (r: String)
    ensures
        r@ == unix_socket(runtime_dir, uid as nat),
        r@ == (match runtime_dir {
            Some(dir) => joined_path(dir@, "gitsitter.sock"@, '/'),
            None => "/tmp/gitsitter-"@ + decimal(uid as nat) + ".sock"@,
        }),
{
    match runtime_dir {
        Some(dir) => join_path(dir, "gitsitter.sock", '/'),
        None => {
            let mut out = String::from_str("/tmp/gitsitter-");
            out.append(format_u64(uid as u64).as_str());
            out.append(".sock");
            out
        },
    }
}

/// Whether a character may stand in the name of a pipe.
pub open spec fn is_pipe_char(c: char) -> bool {
    ||| 48 <= c as int <= 57
    ||| 65 <= c as int <= 90
    ||| 97 <= c as int <= 122
    ||| c == '-'
    ||| c == '_'
}

/// A user name with `_` for each character that may not stand in a pipe's name.
pub open spec fn pipe_name(user: Seq<char>) -> Seq<char> {
    Seq::new(
        user.len(),
        |i: int|
            if is_pipe_char(user[i]) {
                user[i]
            } else {
                '_'
            },
    )
}

/// The name of a pipe holds only characters that may stand there.
pub proof fn law_pipe_name_is_clean(user: Seq<char>)
    ensures
        forall|i: int| 0 <= i < pipe_name(user).len() ==> is_pipe_char(#[trigger] pipe_name(user)[i]),
        pipe_name(pipe_name(user)) == pipe_name(user),
{
    assert(pipe_name(pipe_name(user)) =~= pipe_name(user));
}

/// The Windows pipe, named after the user.
pub fn windows_pipe_path(user: Option<&str>) -> (r: String)
    ensures
        r@ == "\\\\.\\pipe\\gitsitter-"@ + pipe_name(
            match user {
                Some(u) => if u@.len() > 0 {
                    u@
                } else {
                    "default"@
                },
                None => "default"@,
            },
        ),
{
    let name = match user {
        Some(u) => if u.is_empty() {
            "default"
        } else {
            u
        },
        None => "default",
    };
    let cs = chars_of(name);
    let mut clean = String::new();
    let mut i: usize = 0;
    assert(clean@ =~= pipe_name(name@).take(0));
    while i < cs.len()
        invariant
            i <= cs@.len(),
            cs@ == name@,
            clean@ == pipe_name(name@).take(i as int),
        decreases cs.len() - i,
    {
        let c = cs[i];
        let n = code_of(c);
        if (48 <= n && n <= 57) || (65 <= n && n <= 90) || (97 <= n && n <= 122) || c == '-' || c
            == '_' {
            clean.push(c);
        } else {
            clean.push('_');
        }
        assert(clean@ =~= pipe_name(name@).take(i + 1));
        i = i + 1;
    }
    assert(pipe_name(name@).take(i as int) =~= pipe_name(name@));
    cat("\\\\.\\pipe\\gitsitter-", clean.as_str())
}

// ---------------------------------------------------------------------------
// Where things are
// ---------------------------------------------------------------------------

/// A name stands behind its directory, with one separator between them.
pub proof fn law_name_stands_behind_its_directory(
    base: Seq<char>,
    name: Seq<char>,
    separator: char,
)
    ensures
        joined_path(Seq::empty(), name, separator) == name,
        joined_path(base.push('/'), name, separator) == base + seq!['/'] + name,
        joined_path(base.push(separator), name, separator) == base + seq![separator] + name,
        base.len() > 0 && base.last() != '/' && base.last() != separator ==> joined_path(
            base,
            name,
            separator,
        ) == base + seq![separator] + name,
{
    assert(Seq::<char>::empty() + name =~= name);
    assert(base.push('/') + name =~= base + seq!['/'] + name);
    assert(base.push(separator) + name =~= base + seq![separator] + name);
}

/// What the user sets goes before what the platform has, and the state falls back to the
/// local data where the platform has no place for it. Both are under the name of the
/// program.
pub proof fn law_overrides_go_first(env: PathEnv)
    ensures
        env.config_override matches Some(d) ==> env.config_base() == Some(d@)
            && env.config_home() == joined_path(d@, "gitsitter"@, env.separator),
        env.config_override is None ==> (env.config_dir matches Some(d) ==> env.config_base()
            == Some(d@) && env.config_home() == joined_path(d@, "gitsitter"@, env.separator)),
        env.config_override is None && env.config_dir is None ==> env.config_base() is None,
        env.state_override matches Some(d) ==> env.state_base() == Some(d@) && env.state_home()
            == joined_path(d@, "gitsitter"@, env.separator),
        env.state_override is None ==> (env.state_dir matches Some(d) ==> env.state_base() == Some(
            d@,
        ) && env.state_home() == joined_path(d@, "gitsitter"@, env.separator)),
        env.state_override is None && env.state_dir is None ==> (env.data_local_dir matches Some(
            d,
        ) ==> env.state_base() == Some(d@) && env.state_home() == joined_path(
            d@,
            "gitsitter"@,
            env.separator,
        )),
        env.state_override is None && env.state_dir is None && env.data_local_dir is None
            ==> env.state_base() is None,
{
}

/// The socket is in the runtime directory of the user, or else a file of that user alone.
pub proof fn law_socket_belongs_to_the_user(dir: &str, uid: nat, other: nat)
    ensures
        unix_socket(Some(dir), uid) == joined_path(dir@, "gitsitter.sock"@, '/'),
        unix_socket(None, uid) == "/tmp/gitsitter-"@ + decimal(uid) + ".sock"@,
        unix_socket(None, uid) == unix_socket(None, other) ==> uid == other,
{
    if unix_socket(None, uid) == unix_socket(None, other) {
        let front = "/tmp/gitsitter-"@;
        let back = ".sock"@;
        let a = unix_socket(None, uid);
        let n = front.len() as int;
        assert(a.len() == n + decimal(uid).len() + back.len());
        assert(a.subrange(n, a.len() - back.len()) =~= decimal(uid));
        assert(unix_socket(None, other).subrange(n, a.len() - back.len()) =~= decimal(other));
        crate::text::lemma_decimal(uid);
        crate::text::lemma_decimal(other);
    }
}

/// The name of a pipe is that of the user, with a low line for each character that it
/// may not hold. Letters and digits of ASCII, hyphens and low lines stay.
pub proof fn law_pipe_is_named_for_the_user(user: Seq<char>, i: int)
    ensures
        pipe_name(user).len() == user.len(),
        0 <= i < user.len() ==> {
            let c = user[i];
            let stays = ('0' as int <= c as int <= '9' as int) || ('A' as int <= c as int
                <= 'Z' as int) || ('a' as int <= c as int <= 'z' as int) || c == '-' || c == '_';
            &&& stays ==> pipe_name(user)[i] == c
            &&& !stays ==> pipe_name(user)[i] == '_'
        },
{
}

} // verus!
