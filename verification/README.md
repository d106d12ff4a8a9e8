# viewyard

A multi-repository workspace tool: a *viewset* is a directory listing GitHub
repositories (`.viewyard-repos.json`, with its protocol in `.viewyard-config.json`);
a *view* is a directory of the viewset holding a clone of each of them, all on one
branch. Workspace commands (`status`, `rebase`, `commit-all`, `push-all`) work on
every repository of the view they are run in.

## Layout

- `src/` is the library, verified with Verus. Every command is a state machine:
  it starts from plain values (the current directory, its parent, the SSH host
  aliases, the command's arguments) and each step either asks for a `Request`
  (run a program, look at or change the filesystem, ask the user) or ends with
  the command's result. Each step comes with the notices to show.
  The contracts state, for every reply, what the next step is.
  - `git.rs`, `github.rs`: the git and `gh` commands and how their output is read.
  - `view.rs`, `checked_view.rs`, `guard.rs`, `survey.rs`, `batch.rs`, `rebase.rs`, `status.rs`,
    `workspace.rs`: the workspace commands.
  - `viewset.rs`, `setup.rs`, `views.rs`, `viewset_commands.rs`: creating and
    updating viewsets and views.
  - `laws.rs`: properties stated across functions and proved.
  - `text.rs`, `error.rs`, `command.rs`, `session.rs`, `models.rs`: text
    handling, errors, processes, requests and the data model.
- `app/` is the `viewyard` program: command-line parsing, the JSON files, the
  terminal, and performing the requests the library makes.
- `tests/` drive the library's commands against scripted environments.
