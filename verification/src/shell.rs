//! Shell hook generation and installation for bash, zsh, fish and PowerShell.
//!
//! The hook stands in the shell's config file between two marker lines.

use vstd::prelude::*;

use crate::text::{
    chars_of, find, find_part, has_part, is_first_match, lemma_find, lemma_find_unique, matches_at,
    string_of, text_eq, view_opt, views,
};

verus! {

// ---------------------------------------------------------------------------
// Shells
// ---------------------------------------------------------------------------

/// List supported shells.
pub fn supported_shells() -> (r: &'static [&'static str])
    ensures
        r@.len() == 5,
        r@[0]@ == "bash"@,
        r@[1]@ == "zsh"@,
        r@[2]@ == "fish"@,
        r@[3]@ == "powershell"@,
        r@[4]@ == "pwsh"@,
{
    &["bash", "zsh", "fish", "powershell", "pwsh"]
}

/// Whether a shell is supported.
pub open spec fn is_supported(shell: Seq<char>) -> bool {
    ||| shell == "bash"@
    ||| shell == "zsh"@
    ||| shell == "fish"@
    ||| shell == "powershell"@
    ||| shell == "pwsh"@
}

/// Whether a shell is supported.
fn supported(shell: &str) -> (r: bool)
    ensures
        r == is_supported(shell@),
{
    let shells = supported_shells();
    let mut i: usize = 0;
    while i < shells.len()
        invariant
            i <= shells@.len(),
            shells@.len() == 5,
            shells@[0]@ == "bash"@,
            shells@[1]@ == "zsh"@,
            shells@[2]@ == "fish"@,
            shells@[3]@ == "powershell"@,
            shells@[4]@ == "pwsh"@,
            forall|k: int| 0 <= k < i ==> (#[trigger] shells@[k])@ != shell@,
        decreases shells.len() - i,
    {
        if text_eq(shells[i], shell) {
            return true;
        }
        i = i + 1;
    }
    assert(shells@[0]@ != shell@ && shells@[1]@ != shell@ && shells@[2]@ != shell@);
    assert(shells@[3]@ != shell@ && shells@[4]@ != shell@);
    false
}

/// A shell that is not supported.
#[derive(Debug, Clone, PartialEq)]
pub struct UnsupportedShell {
    pub shell: String,
}

impl UnsupportedShell {
    /// The message for people.
    pub fn message(&self) -> (r: String)
        ensures
            r@ == "unsupported shell: "@ + self.shell@
                + " (supported: bash, zsh, fish, powershell, pwsh)"@,
    {
        let mut out = String::from_str("unsupported shell: ");
        out.append(self.shell.as_str());
        out.append(" (supported: bash, zsh, fish, powershell, pwsh)");
        out
    }
}

/// What `$SHELL` names.
#[derive(Debug)]
pub enum ShellVar {
    /// The variable is not set, or is no text.
    Unset,
    /// The variable holds a path without a file name.
    Nameless,
    /// The file name of the path that the variable holds.
    Name(String),
}

/// The shell of the user, as far as the environment tells.
pub open spec fn detected(
    shell: ShellVar,
    on_windows: bool,
    ps_module_path: Option<&str>,
) -> Option<Seq<char>> {
    match shell {
        ShellVar::Nameless => None,
        ShellVar::Name(name) if is_supported(name@) => Some(name@),
        _ => if on_windows && (ps_module_path matches Some(p) && p@.len() > 0) {
            Some("powershell"@)
        } else {
            None
        },
    }
}

/// Detect the current shell from the `$SHELL` environment variable.
///
/// Returns the shell basename (e.g. "bash", "zsh", "fish") if it is a supported
/// shell. On Windows a module path of PowerShell stands for PowerShell.
pub fn detect_shell(
    shell: &ShellVar,
    on_windows: bool,
    ps_module_path: Option<&str>,
) -> (r: Option<String>)
    ensures
        view_opt(r) == detected(*shell, on_windows, ps_module_path),
        view_opt(r) == (match *shell {
            ShellVar::Nameless => None,
            ShellVar::Name(name) if is_supported(name@) => Some(name@),
            _ => if on_windows && (ps_module_path matches Some(p) && p@.len() > 0) {
                Some("powershell"@)
            } else {
                None
            },
        }),
{
    match shell {
        ShellVar::Nameless => {
            return None;
        },
        ShellVar::Name(name) => {
            if supported(name.as_str()) {
                return Some(String::from_str(name.as_str()));
            }
        },
        ShellVar::Unset => {},
    }
    if on_windows {
        if let Some(p) = ps_module_path {
            if !p.is_empty() {
                return Some(String::from_str("powershell"));
            }
        }
    }
    None
}

/// Where the config file of a shell stands below the home directory.
pub open spec fn config_place(shell: Seq<char>) -> Option<Seq<Seq<char>>> {
    if shell == "bash"@ {
        Some(seq![".bashrc"@])
    } else if shell == "zsh"@ {
        Some(seq![".zshrc"@])
    } else if shell == "fish"@ {
        Some(seq![".config"@, "fish"@, "config.fish"@])
    } else if shell == "powershell"@ {
        Some(seq!["Documents"@, "WindowsPowerShell"@, "Microsoft.PowerShell_profile.ps1"@])
    } else if shell == "pwsh"@ {
        Some(seq!["Documents"@, "PowerShell"@, "Microsoft.PowerShell_profile.ps1"@])
    } else {
        None
    }
}

fn one(a: &str) -> (r: Vec<String>)
    ensures
        views(r@) == seq![a@],
{
    let mut out: Vec<String> = Vec::new();
    out.push(String::from_str(a));
    assert(views(out@) =~= seq![a@]);
    out
}

fn three(a: &str, b: &str, c: &str) -> (r: Vec<String>)
    ensures
        views(r@) == seq![a@, b@, c@],
{
    let mut out: Vec<String> = Vec::new();
    out.push(String::from_str(a));
    out.push(String::from_str(b));
    out.push(String::from_str(c));
    assert(views(out@) =~= seq![a@, b@, c@]);
    out
}

/// Get the config file path for a shell: its components below the home directory.
pub fn shell_config_path(shell: &str) -> (r: Result<Vec<String>, UnsupportedShell>)
    ensures
        match r {
            Ok(parts) => config_place(shell@) == Some(views(parts@)),
            Err(e) => config_place(shell@) is None && e.shell@ == shell@,
        },
{
    if text_eq(shell, "bash") {
        Ok(one(".bashrc"))
    } else if text_eq(shell, "zsh") {
        Ok(one(".zshrc"))
    } else if text_eq(shell, "fish") {
        Ok(three(".config", "fish", "config.fish"))
    } else if text_eq(shell, "powershell") {
        Ok(three("Documents", "WindowsPowerShell", "Microsoft.PowerShell_profile.ps1"))
    } else if text_eq(shell, "pwsh") {
        Ok(three("Documents", "PowerShell", "Microsoft.PowerShell_profile.ps1"))
    } else {
        Err(UnsupportedShell { shell: String::from_str(shell) })
    }
}

// ---------------------------------------------------------------------------
// Hooks
// ---------------------------------------------------------------------------

/// The hook of bash.
pub open spec fn bash_hook() -> Seq<char> {
    "__gitsitter_hook() {\n  local status=$?\n  command gitsitter _prompt\n  return $status\n}\ncase \";${PROMPT_COMMAND:-};\" in\n  *\";__gitsitter_hook;\"*) ;;\n  *) PROMPT_COMMAND=\"__gitsitter_hook;${PROMPT_COMMAND:-}\" ;;\nesac"@
}

/// The hook of zsh.
pub open spec fn zsh_hook() -> Seq<char> {
    "__gitsitter_hook() {\n  local status_before=$?\n  command gitsitter _prompt\n  return $status_before\n}\ntypeset -ag precmd_functions\nif (( ! ${precmd_functions[(I)__gitsitter_hook]} )); then\n  precmd_functions+=(__gitsitter_hook)\nfi"@
}

/// The hook of fish.
pub open spec fn fish_hook() -> Seq<char> {
    "function __gitsitter_hook --on-event fish_prompt\n  command gitsitter _prompt\nend"@
}

/// The hook of PowerShell.
pub open spec fn powershell_hook() -> Seq<char> {
    "function global:__gitsitter_hook {\n  gitsitter _prompt\n}\nif (-not $global:__gitsitter_prompt) {\n  $global:__gitsitter_prompt = $function:prompt\n}\nfunction global:prompt {\n  __gitsitter_hook\n  & $global:__gitsitter_prompt\n}"@
}

/// The hook of a shell.
pub open spec fn hook_of(shell: Seq<char>) -> Option<Seq<char>> {
    if shell == "bash"@ {
        Some(bash_hook())
    } else if shell == "zsh"@ {
        Some(zsh_hook())
    } else if shell == "fish"@ {
        Some(fish_hook())
    } else if shell == "powershell"@ || shell == "pwsh"@ {
        Some(powershell_hook())
    } else {
        None
    }
}

/// The supported shells are those with a hook, and those with a config file.
pub proof fn law_supported_shells_have_hooks(shell: Seq<char>)
    ensures
        is_supported(shell) <==> hook_of(shell) is Some,
        is_supported(shell) <==> config_place(shell) is Some,
{
}

/// Generate the shell hook script for the given shell.
pub fn generate_hook(shell: &str) -> (r: Result<String, UnsupportedShell>)
    ensures
        match r {
            Ok(hook) => hook_of(shell@) == Some(hook@),
            Err(e) => hook_of(shell@) is None && e.shell@ == shell@,
        },
{
    if text_eq(shell, "bash") {
        Ok(String::from_str(
            "__gitsitter_hook() {\n  local status=$?\n  command gitsitter _prompt\n  return $status\n}\ncase \";${PROMPT_COMMAND:-};\" in\n  *\";__gitsitter_hook;\"*) ;;\n  *) PROMPT_COMMAND=\"__gitsitter_hook;${PROMPT_COMMAND:-}\" ;;\nesac",
        ))
    } else if text_eq(shell, "zsh") {
        Ok(String::from_str(
            "__gitsitter_hook() {\n  local status_before=$?\n  command gitsitter _prompt\n  return $status_before\n}\ntypeset -ag precmd_functions\nif (( ! ${precmd_functions[(I)__gitsitter_hook]} )); then\n  precmd_functions+=(__gitsitter_hook)\nfi",
        ))
    } else if text_eq(shell, "fish") {
        Ok(String::from_str(
            "function __gitsitter_hook --on-event fish_prompt\n  command gitsitter _prompt\nend",
        ))
    } else if text_eq(shell, "powershell") || text_eq(shell, "pwsh") {
        Ok(String::from_str(
            "function global:__gitsitter_hook {\n  gitsitter _prompt\n}\nif (-not $global:__gitsitter_prompt) {\n  $global:__gitsitter_prompt = $function:prompt\n}\nfunction global:prompt {\n  __gitsitter_hook\n  & $global:__gitsitter_prompt\n}",
        ))
    } else {
        Err(UnsupportedShell { shell: String::from_str(shell) })
    }
}

// ---------------------------------------------------------------------------
// The hook in the config file
// ---------------------------------------------------------------------------

/// The line before the hook.
pub open spec fn start_marker() -> Seq<char> {
    "# >>> gitsitter hook >>>"@
}

/// The line behind the hook.
pub open spec fn end_marker() -> Seq<char> {
    "# <<< gitsitter hook <<<"@
}

/// The name of the hook's function, by which a hook is known without its markers.
pub open spec fn hook_name() -> Seq<char> {
    "__gitsitter_hook"@
}

/// The hook with its markers.
pub open spec fn block(hook: Seq<char>) -> Seq<char> {
    start_marker() + "\n"@ + hook + "\n"@ + end_marker() + "\n"@
}

/// The position behind the end marker at `end`, and behind its line feed.
pub open spec fn behind_marker(text: Seq<char>, end: int) -> int {
    let stop = end + end_marker().len();
    if stop < text.len() && text[stop] == '\n' {
        stop + 1
    } else {
        stop
    }
}

/// The position of a start marker at `start`, or of the line feed before it.
pub open spec fn before_marker(text: Seq<char>, start: int) -> int {
    if start > 0 && text[start - 1] == '\n' {
        start - 1
    } else {
        start
    }
}

/// A config file with the hook in it. One between its markers is replaced in its
/// place, and one without them is left as it is; else the hook comes last.
pub open spec fn with_hook(text: Seq<char>, hook: Seq<char>) -> Seq<char> {
    match (find(text, start_marker()), find(text, end_marker())) {
        (Some(start), Some(end)) => text.take(start) + block(hook) + text.skip(
            behind_marker(text, end),
        ),
        _ => if has_part(text, hook_name()) {
            text
        } else {
            text + "\n"@ + block(hook)
        },
    }
}

/// A config file without the hook.
pub open spec fn without_hook(text: Seq<char>) -> Seq<char> {
    match (find(text, start_marker()), find(text, end_marker())) {
        (Some(start), Some(end)) => text.take(before_marker(text, start)) + text.skip(
            behind_marker(text, end),
        ),
        _ => text,
    }
}

/// The positions of the first start marker and the first end marker, if both
/// are there.
fn find_markers(cs: &Vec<char>) -> (r: Option<(usize, usize)>)
    ensures
        match r {
            Some((start, end)) => find(cs@, start_marker()) == Some(start as int) && find(
                cs@,
                end_marker(),
            ) == Some(end as int) && start <= cs@.len() && end + end_marker().len() <= cs@.len(),
            None => find(cs@, start_marker()) is None || find(cs@, end_marker()) is None,
        },
{
    let start = chars_of("# >>> gitsitter hook >>>");
    let end = chars_of("# <<< gitsitter hook <<<");
    match find_part(cs, &start) {
        Some(s) => match find_part(cs, &end) {
            Some(e) => Some((s, e)),
            None => None,
        },
        None => None,
    }
}

fn stop_of_marker(cs: &Vec<char>, end: usize) -> (r: usize)
    requires
        end + end_marker().len() <= cs@.len(),
    ensures
        r == behind_marker(cs@, end as int),
        r <= cs@.len(),
{
    let total: usize = cs.len();
    let marker = chars_of("# <<< gitsitter hook <<<");
    let stop: usize = end + marker.len();
    if stop < total && cs[stop] == '\n' {
        stop + 1
    } else {
        stop
    }
}

/// Puts the hook into the text of a config file: replaces the one between the
/// markers, or appends it. If a hook is already installed without the markers
/// (detected by `__gitsitter_hook` in the file), this is a no-op.
pub fn install_hook(existing: &str, hook: &str) -> (r: String)
    ensures
        r@ == with_hook(existing@, hook@),
{
    let mut text = String::from_str("# >>> gitsitter hook >>>");
    text.append("\n");
    text.append(hook);
    text.append("\n");
    text.append("# <<< gitsitter hook <<<");
    text.append("\n");
    assert(text@ == block(hook@));
    let cs = chars_of(existing);
    match find_markers(&cs) {
        Some((start, end)) => {
            let stop = stop_of_marker(&cs, end);
            let mut out = string_of(&cs, 0, start);
            out.append(text.as_str());
            out.append(string_of(&cs, stop, cs.len()).as_str());
            assert(cs@.subrange(0, start as int) =~= existing@.take(start as int));
            assert(cs@.subrange(stop as int, cs@.len() as int) =~= existing@.skip(stop as int));
            out
        },
        None => {
            let mut out = String::from_str(existing);
            if find_part(&cs, &chars_of("__gitsitter_hook")).is_some() {
                return out;
            }
            out.append("\n");
            out.append(text.as_str());
            out
        },
    }
}

/// Takes the hook out of the text of a config file, with its markers.
pub fn uninstall_hook(content: &str) -> (r: String)
    ensures
        r@ == without_hook(content@),
{
    let cs = chars_of(content);
    match find_markers(&cs) {
        Some((start, end)) => {
            let stop = stop_of_marker(&cs, end);
            let from: usize = if start > 0 && cs[start - 1] == '\n' {
                start - 1
            } else {
                start
            };
            let mut out = string_of(&cs, 0, from);
            out.append(string_of(&cs, stop, cs.len()).as_str());
            assert(cs@.subrange(0, from as int) =~= content@.take(from as int));
            assert(cs@.subrange(stop as int, cs@.len() as int) =~= content@.skip(stop as int));
            out
        },
        None => String::from_str(content),
    }
}

// ---------------------------------------------------------------------------
// Installing and uninstalling
// ---------------------------------------------------------------------------

/// Whether `c` does not occur in `s`.
pub open spec fn lacks(s: Seq<char>, c: char) -> bool {
    forall|i: int| 0 <= i < s.len() ==> #[trigger] s[i] != c
}

/// Whether a config file holds neither marker.
pub open spec fn is_unmarked(text: Seq<char>) -> bool {
    !has_part(text, start_marker()) && !has_part(text, end_marker())
}

/// A part without a line feed lies on one side of a line feed.
proof fn lemma_part_beside_line_feed(a: Seq<char>, b: Seq<char>, p: Seq<char>, i: int)
    requires
        lacks(p, '\n'),
        p.len() > 0,
        matches_at(a + seq!['\n'] + b, p, i),
    ensures
        matches_at(a, p, i) || matches_at(b, p, i - a.len() - 1),
{
    let s = a + seq!['\n'] + b;
    let n = a.len() as int;
    assert(s.subrange(i, i + p.len()) == p);
    if i <= n && n < i + p.len() {
        assert(s[n] == '\n');
        assert(s.subrange(i, i + p.len())[n - i] == '\n');
        assert(p[n - i] != '\n');
    }
    if i + p.len() <= n {
        assert(a.subrange(i, i + p.len()) =~= p);
    } else {
        let k = i - n - 1;
        assert(b.subrange(k, k + p.len()) =~= p);
    }
}

/// The first place of a part that stands at `k` behind a line feed, and nowhere
/// before.
proof fn lemma_first_behind_line_feed(a: Seq<char>, b: Seq<char>, p: Seq<char>, k: int)
    requires
        lacks(p, '\n'),
        p.len() > 0,
        !has_part(a, p),
        is_first_match(b, p, k),
    ensures
        is_first_match(a + seq!['\n'] + b, p, a.len() + 1 + k),
{
    let s = a + seq!['\n'] + b;
    let at = a.len() + 1 + k;
    assert(s.subrange(at, at + p.len()) =~= b.subrange(k, k + p.len()));
    assert(matches_at(s, p, at));
    assert forall|j: int| 0 <= j < at implies !#[trigger] matches_at(s, p, j) by {
        if matches_at(s, p, j) {
            lemma_part_beside_line_feed(a, b, p, j);
            if matches_at(b, p, j - a.len() - 1) {
                assert(0 <= j - a.len() - 1);
                assert(j - a.len() - 1 < k);
            }
        }
    }
}

proof fn lemma_markers()
    ensures
        start_marker().len() == 24,
        end_marker().len() == 24,
        lacks(start_marker(), '\n'),
        lacks(end_marker(), '\n'),
        end_marker()[2] == '<',
        start_marker()[2] == '>',
        "\n"@ == seq!['\n'],
{
    reveal_strlit("# >>> gitsitter hook >>>");
    reveal_strlit("# <<< gitsitter hook <<<");
    reveal_strlit("\n");
    assert("\n"@ =~= seq!['\n']);
}

/// A text without `<` does not hold the end marker.
proof fn lemma_no_end_marker(s: Seq<char>)
    requires
        lacks(s, '<'),
    ensures
        !has_part(s, end_marker()),
{
    lemma_markers();
    assert forall|i: int| !#[trigger] matches_at(s, end_marker(), i) by {
        if matches_at(s, end_marker(), i) {
            assert(s.subrange(i, i + end_marker().len())[2] == '<');
            assert(s[i + 2] == '<');
        }
    }
}

proof fn lemma_start_is_no_end()
    ensures
        !has_part(start_marker(), end_marker()),
{
    lemma_markers();
    assert forall|i: int| !#[trigger] matches_at(start_marker(), end_marker(), i) by {
        if matches_at(start_marker(), end_marker(), i) {
            assert(start_marker().subrange(0, 24)[2] == '<');
        }
    }
}

/// No hook holds an end marker.
pub proof fn law_hooks_hold_no_end_marker(shell: Seq<char>)
    ensures
        hook_of(shell) matches Some(hook) ==> !has_part(hook, end_marker()),
{
    reveal_strlit(
        "__gitsitter_hook() {\n  local status=$?\n  command gitsitter _prompt\n  return $status\n}\ncase \";${PROMPT_COMMAND:-};\" in\n  *\";__gitsitter_hook;\"*) ;;\n  *) PROMPT_COMMAND=\"__gitsitter_hook;${PROMPT_COMMAND:-}\" ;;\nesac",
    );
    reveal_strlit(
        "__gitsitter_hook() {\n  local status_before=$?\n  command gitsitter _prompt\n  return $status_before\n}\ntypeset -ag precmd_functions\nif (( ! ${precmd_functions[(I)__gitsitter_hook]} )); then\n  precmd_functions+=(__gitsitter_hook)\nfi",
    );
    reveal_strlit(
        "function __gitsitter_hook --on-event fish_prompt\n  command gitsitter _prompt\nend",
    );
    reveal_strlit(
        "function global:__gitsitter_hook {\n  gitsitter _prompt\n}\nif (-not $global:__gitsitter_prompt) {\n  $global:__gitsitter_prompt = $function:prompt\n}\nfunction global:prompt {\n  __gitsitter_hook\n  & $global:__gitsitter_prompt\n}",
    );
    if let Some(hook) = hook_of(shell) {
        assert(lacks(bash_hook(), '<'));
        assert(lacks(zsh_hook(), '<'));
        assert(lacks(fish_hook(), '<'));
        assert(lacks(powershell_hook(), '<'));
        lemma_no_end_marker(hook);
    }
}

/// Where the markers stand after a first install.
proof fn lemma_installed(text: Seq<char>, hook: Seq<char>)
    requires
        is_unmarked(text),
        !has_part(text, hook_name()),
        !has_part(hook, end_marker()),
    ensures
        ({
            let done = with_hook(text, hook);
            let n = text.len() as int;
            let end = n + 27 + hook.len();
            &&& done == text + seq!['\n'] + block(hook)
            &&& find(done, start_marker()) == Some(n + 1)
            &&& find(done, end_marker()) == Some(end)
            &&& behind_marker(done, end) == done.len()
            &&& before_marker(done, n + 1) == n
        }),
{
    lemma_markers();
    lemma_find(text, start_marker());
    lemma_find(text, end_marker());
    let done = with_hook(text, hook);
    let b = block(hook);
    let n = text.len() as int;
    let h = hook.len() as int;
    assert(done =~= text + seq!['\n'] + b);
    // The start marker.
    assert(b.subrange(0, 24) =~= start_marker());
    assert(is_first_match(b, start_marker(), 0));
    lemma_first_behind_line_feed(text, b, start_marker(), 0);
    lemma_find_unique(done, start_marker(), n + 1);
    // The end marker.
    let tail = end_marker() + seq!['\n'];
    assert(tail.subrange(0, 24) =~= end_marker());
    assert(is_first_match(tail, end_marker(), 0));
    let inner = hook + seq!['\n'] + tail;
    lemma_first_behind_line_feed(hook, tail, end_marker(), 0);
    lemma_start_is_no_end();
    assert(b =~= start_marker() + seq!['\n'] + inner);
    lemma_first_behind_line_feed(start_marker(), inner, end_marker(), h + 1);
    lemma_first_behind_line_feed(text, b, end_marker(), 26 + h);
    lemma_find_unique(done, end_marker(), n + 27 + h);
    assert(done[n + 27 + h + 24] == '\n');
    assert(done[n] == '\n');
}

/// Uninstalling the hook of a shell gives back the config file as it was before
/// the hook was installed.
pub proof fn law_uninstall_undoes_install(text: Seq<char>, shell: Seq<char>)
    requires
        is_unmarked(text),
        !has_part(text, hook_name()),
        is_supported(shell),
    ensures
        without_hook(with_hook(text, hook_of(shell)->0)) == text,
{
    let hook = hook_of(shell)->0;
    law_hooks_hold_no_end_marker(shell);
    lemma_installed(text, hook);
    let done = with_hook(text, hook);
    assert(done.take(text.len() as int) =~= text);
    assert(done.skip(done.len() as int) =~= Seq::<char>::empty());
    assert(without_hook(done) =~= text);
}

/// Installing again replaces the hook in its place: the config file is as if
/// only the last hook had been installed.
pub proof fn law_install_updates_in_place(text: Seq<char>, first: Seq<char>, second: Seq<char>)
    requires
        is_unmarked(text),
        !has_part(text, hook_name()),
        is_supported(first),
        is_supported(second),
    ensures
        with_hook(with_hook(text, hook_of(first)->0), hook_of(second)->0) == with_hook(
            text,
            hook_of(second)->0,
        ),
{
    let hook = hook_of(first)->0;
    law_hooks_hold_no_end_marker(first);
    law_hooks_hold_no_end_marker(second);
    lemma_installed(text, hook);
    lemma_installed(text, hook_of(second)->0);
    let done = with_hook(text, hook);
    assert(done.take(text.len() as int + 1) =~= text + seq!['\n']);
    assert(done.skip(done.len() as int) =~= Seq::<char>::empty());
    assert(with_hook(done, hook_of(second)->0) =~= text + seq!['\n'] + block(hook_of(second)->0));
}

/// Installing leaves a config file as it is that holds a hook without its markers.
pub proof fn law_install_keeps_an_unmarked_hook(text: Seq<char>, hook: Seq<char>)
    requires
        !has_part(text, start_marker()) || !has_part(text, end_marker()),
        has_part(text, hook_name()),
    ensures
        with_hook(text, hook) == text,
{
}

/// Uninstalling leaves a config file without a hook as it is.
pub proof fn law_uninstall_needs_a_hook(text: Seq<char>)
    requires
        !has_part(text, start_marker()) || !has_part(text, end_marker()),
    ensures
        without_hook(text) == text,
{
}

/// The hook of every shell runs the prompt of this program, under the name by which an
/// installed hook is known.
pub proof fn law_hooks_run_the_prompt(shell: Seq<char>)
    requires
        is_supported(shell),
    ensures
        hook_of(shell) matches Some(hook) && has_part(hook, "gitsitter _prompt"@) && has_part(
            hook,
            "__gitsitter_hook"@,
        ),
{
    let p = "gitsitter _prompt"@;
    let n = "__gitsitter_hook"@;
    reveal_strlit("gitsitter _prompt");
    reveal_strlit("__gitsitter_hook");
    law_supported_shells_have_hooks(shell);
    let hook = hook_of(shell)->0;
    if shell == "bash"@ {
        reveal_strlit(
            "__gitsitter_hook() {\n  local status=$?\n  command gitsitter _prompt\n  return $status\n}\ncase \";${PROMPT_COMMAND:-};\" in\n  *\";__gitsitter_hook;\"*) ;;\n  *) PROMPT_COMMAND=\"__gitsitter_hook;${PROMPT_COMMAND:-}\" ;;\nesac",
        );
        assert(hook.subrange(49, 66) =~= p);
        assert(hook.subrange(0, 16) =~= n);
        assert(matches_at(hook, p, 49) && matches_at(hook, n, 0));
    } else if shell == "zsh"@ {
        reveal_strlit(
            "__gitsitter_hook() {\n  local status_before=$?\n  command gitsitter _prompt\n  return $status_before\n}\ntypeset -ag precmd_functions\nif (( ! ${precmd_functions[(I)__gitsitter_hook]} )); then\n  precmd_functions+=(__gitsitter_hook)\nfi",
        );
        assert(hook.subrange(56, 73) =~= p);
        assert(hook.subrange(0, 16) =~= n);
        assert(matches_at(hook, p, 56) && matches_at(hook, n, 0));
    } else if shell == "fish"@ {
        reveal_strlit(
            "function __gitsitter_hook --on-event fish_prompt\n  command gitsitter _prompt\nend",
        );
        assert(hook.subrange(59, 76) =~= p);
        assert(hook.subrange(9, 25) =~= n);
        assert(matches_at(hook, p, 59) && matches_at(hook, n, 9));
    } else {
        reveal_strlit(
            "function global:__gitsitter_hook {\n  gitsitter _prompt\n}\nif (-not $global:__gitsitter_prompt) {\n  $global:__gitsitter_prompt = $function:prompt\n}\nfunction global:prompt {\n  __gitsitter_hook\n  & $global:__gitsitter_prompt\n}",
        );
        assert(hook.subrange(37, 54) =~= p);
        assert(hook.subrange(16, 32) =~= n);
        assert(matches_at(hook, p, 37) && matches_at(hook, n, 16));
    }
}

/// Where the config file of each shell is, from the home of the user.
pub proof fn law_shells_have_their_files(shell: Seq<char>)
    ensures
        shell == "bash"@ ==> config_place(shell) == Some(seq![".bashrc"@]),
        shell == "zsh"@ ==> config_place(shell) == Some(seq![".zshrc"@]),
        shell == "fish"@ ==> config_place(shell) == Some(
            seq![".config"@, "fish"@, "config.fish"@],
        ),
        shell == "powershell"@ ==> config_place(shell) == Some(
            seq!["Documents"@, "WindowsPowerShell"@, "Microsoft.PowerShell_profile.ps1"@],
        ),
        shell == "pwsh"@ ==> config_place(shell) == Some(
            seq!["Documents"@, "PowerShell"@, "Microsoft.PowerShell_profile.ps1"@],
        ),
        config_place(shell) is Some ==> shell == "bash"@ || shell == "zsh"@ || shell == "fish"@
            || shell == "powershell"@ || shell == "pwsh"@,
{
    reveal_strlit("bash");
    reveal_strlit("zsh");
    reveal_strlit("fish");
    reveal_strlit("powershell");
    reveal_strlit("pwsh");
    assert("bash"@.len() == 4 && "zsh"@.len() == 3 && "fish"@.len() == 4 && "powershell"@.len()
        == 10 && "pwsh"@.len() == 4);
    assert("bash"@[0] == 'b' && "fish"@[0] == 'f' && "pwsh"@[0] == 'p');
}

/// A hook goes behind what the file holds, between two marks on lines of their own.
pub proof fn law_hook_goes_behind_the_text(text: Seq<char>, hook: Seq<char>)
    requires
        !has_part(text, "# >>> gitsitter hook >>>"@) || !has_part(
            text,
            "# <<< gitsitter hook <<<"@,
        ),
        !has_part(text, "__gitsitter_hook"@),
    ensures
        with_hook(text, hook) == text + "\n"@ + ("# >>> gitsitter hook >>>"@ + "\n"@ + hook + "\n"@
            + "# <<< gitsitter hook <<<"@ + "\n"@),
{
}

/// What stands between the marks is replaced by a new hook, and taken out with them when
/// the hook is. What stands before and behind stays.
pub proof fn law_rest_of_the_file_stays(
    front: Seq<char>,
    inner: Seq<char>,
    back: Seq<char>,
    hook: Seq<char>,
)
    requires
        ({
            let text = front + "# >>> gitsitter hook >>>"@ + inner + "# <<< gitsitter hook <<<"@
                + seq!['\n'] + back;
            &&& is_first_match(text, "# >>> gitsitter hook >>>"@, front.len() as int)
            &&& is_first_match(
                text,
                "# <<< gitsitter hook <<<"@,
                (front.len() + 24 + inner.len()) as int,
            )
        }),
    ensures
        ({
            let text = front + "# >>> gitsitter hook >>>"@ + inner + "# <<< gitsitter hook <<<"@
                + seq!['\n'] + back;
            &&& with_hook(text, hook) == front + ("# >>> gitsitter hook >>>"@ + "\n"@ + hook
                + "\n"@ + "# <<< gitsitter hook <<<"@ + "\n"@) + back
            &&& front.len() > 0 && front.last() == '\n' ==> without_hook(text)
                == front.drop_last() + back
            &&& front.len() == 0 || front.last() != '\n' ==> without_hook(text) == front + back
        }),
{
    let text = front + start_marker() + inner + end_marker() + seq!['\n'] + back;
    let n = front.len() as int;
    let e = n + 24 + inner.len();
    lemma_markers();
    lemma_find_unique(text, start_marker(), n);
    lemma_find_unique(text, end_marker(), e);
    assert(text[e + 24] == '\n');
    assert(text.skip(e + 25) =~= back);
    assert(text.take(n) =~= front);
    if n > 0 {
        assert(text[n - 1] == front.last());
        assert(text.take(n - 1) =~= front.drop_last());
    }
}

/// The shell that is set goes first, if it is supported. Else there is one only on
/// Windows, where PowerShell runs, and none at all if what is set has no name.
pub proof fn law_own_shell_goes_first(
    shell: ShellVar,
    on_windows: bool,
    ps_module_path: Option<&str>,
    name: Seq<char>,
)
    ensures
        shell is Nameless ==> detected(shell, on_windows, ps_module_path) is None,
        shell matches ShellVar::Name(n) ==> (is_supported(n@) ==> detected(
            shell,
            on_windows,
            ps_module_path,
        ) == Some(n@)),
        shell is Unset || (shell matches ShellVar::Name(n) && !is_supported(n@)) ==> {
            &&& detected(shell, on_windows, ps_module_path) == Some("powershell"@) <==> on_windows
                && (ps_module_path matches Some(p) && p@.len() > 0)
            &&& detected(shell, on_windows, ps_module_path) matches Some(s) ==> s
                == "powershell"@
        },
        is_supported(name) <==> name == "bash"@ || name == "zsh"@ || name == "fish"@ || name
            == "powershell"@ || name == "pwsh"@,
{
}

} // verus!
