# zed_mojo

Mojo language support for the Zed editor: finding `mojo-lsp-server`, `mojo`
and the LLDB debug adapter of a worktree's SDK, turning `mojo run` tasks and
Zed's debug dialogs into debug configurations, and setting those
configurations up for the Mojo LLDB plugin. The decisions are written in
Verus and proved against their specifications.

## Layout

- `src/` — the verified library.
  - `text.rs`: trimming, searching and splitting text, specified over
    `Seq<char>`.
  - `json.rs`: JSON values as plain data; objects keep unique keys.
  - `config.rs`: `modular.cfg`, `pyvenv.cfg` and `pyproject.toml` reading.
  - `worktree.rs`: the worktree as facts (root, platform, shell environment,
    files read, executable look-ups) and the paths derived from them.
  - `discovery.rs`: where the language server, the compiler and the debug
    adapter come from, and which look-ups that takes.
  - `args.rs`: `mojo run` tasks and the compiler options a debug build keeps.
  - `debug.rs`: debug configurations: request kind, build options,
    environment, build directory, and the LLDB set-up.
  - `scenario.rs`: debug scenarios from the new-session dialog and from run
    tasks.
  - `process.rs`: the processes the extension runs and how their results are
    judged.
  - `session.rs`: the single decisions of a language server or debug start.
  - `startup.rs`: the starts that run processes first, as steps that say what
    to run next.
  - `laws.rs`: properties that relate several functions.
- `tests/` — tests of the library on concrete values.
- `app/` — the Zed extension itself: host calls, JSON conversion with
  `serde_json`, and running the processes that the library asks for.
