# hank

Hank keeps track of the configuration files of command line tools so that they
can be synced to a repository.

- `src/` is the verified library (Verus):
  - `configs` — the catalogue of known configuration files and how an entry is
    resolved to a path (home directory, XDG variables, `/etc`);
  - `init` — the answers of the setup dialogue and the checks applied to them
    (GitHub usernames, Unix-style paths);
  - `selection` — the list of found files offered for tracking, stably sorted
    by lowercase tool name;
  - `flow` — the setup dialogue as a state machine (state + event -> state,
    state -> action);
  - `sync` — gathering the tracked files;
  - `utils`, `text` — path and string helpers.
- `app/` is the `hank` command: terminal prompts (cliclack), environment
  variables, JSON files on disk (serde, serde_json), and copies of the
  library's types that carry the serde and strum derives.
- `tests/` exercise the library.
