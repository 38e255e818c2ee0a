# codex_accounts

Save and switch named local Codex CLI authentication profiles.

The library (`src/`, verified with Verus) holds the decisions:

- `name`: the profile-name rule and the proof that a valid name is a
  single, harmless path component.
- `paths`: where things live (`<CODEX_HOME>/auth.json`,
  `<CODEX_HOME>/account-profiles/<name>/auth.json`), `~` expansion and the
  resolution order of the data directory.
- `cli`: the command line, with the laws that `--opt=VALUE` means
  `--opt VALUE` and that command aliases mean the same command.
- `auth`: what a credential file must hold (a JSON object, checked with
  serde_json).
- `copy`: the atomic credential copy as a state machine; the caller performs
  each file operation and reports back. Its laws: the destination is only
  replaced by renaming a fully written private temporary file, an existing
  profile is kept without `--force`, a symlink is never replaced, and every
  copy ends.
- `listing`, `commands`, `text`, `error`: listing, the plans of the other
  commands, help and completion texts, and error messages.

`app/main.rs` is the program: it reads the environment and the file system
and carries out what the library decides.
