# gitsitter

A daemon that keeps local git branches in sync with the remotes they track, and the
command line that talks to it. What it decides is proved with Verus; what it reads,
runs and prints is ordinary Rust around that.

## Layout

- `src/` is the library. Every function of it has a contract. Verus proves these
  contracts, but for those of the functions that call another crate or an unspecified
  part of the standard library.
  - Policy: `sync` and `daemon` decide what happens to a branch, `executor` takes a
    branch through its sync step by step, `cycle` says which repos and remotes are due,
    `requests` answers the command line, `watcher` debounces file changes.
  - Configuration: `config`, `hosts`, `paths`, `shell`, `service`, `self_update`.
  - Git and the forge: `git_ops`, `forge`, `json`.
  - Command line: `cli`, `cli_config`, `cli_status`, `cli_ui`, `prompt`, `resolve`,
    `lifecycle`.
  - Stored state: `state`, `queries`. Messages: `transport`.
  - Foundations: `text`, `table`, `clock`, `timestamp`.
- `tests/` runs the library on concrete values, some of them on real git repositories.
- `app/` is the program: arguments, files, sockets, processes, tasks.

## How the two parts meet

The library never waits and never touches a file. Where a decision needs something
from outside, the library says what it needs (`executor::Task`, `resolve::ResolveTask`,
`lifecycle::StartStep`, `forge::ForgeStep`), the program gets it, and hands it back as
a plain value. The same step function then says what comes next.

## What is proved

Each function's `ensures` says what it returns. Beyond that, the public proof functions
named `law_*` state what holds across functions: only remotes that are enabled and
trusted are fetched from and pushed to, and a branch is pushed only with a right to; a
sync changes no worktree but the branch's own, and that only if it is clean; rewritten
history is held; every branch that is out of sync is offered for resolving; backoffs
double and end; what is installed can be uninstalled; what is written to a file is read
back from it.

## What is believed

Twelve small functions marked `#[verifier::external_body]` call `serde_json` (`json`),
`chrono` (`timestamp`), `crossterm` (`cli_ui`) and the standard library (`cli_config`,
`git_ops`), and one `assume_specification` speaks of `String::push` (`text`). Verus takes
their contracts as given. Where such a result is too long to state it only has a name, so
that what is proved holds whatever it is.
