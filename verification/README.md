# pc_custom

The verified core of a Windows customisation assistant: every setting change
is planned, backed up, journaled and reversible, and game profiles apply and
restore settings as games start and stop.

`src/` is the library, verified with Verus:

- `ipc/` — the request envelope of the elevated helper and its strict checks.
- `backup/` — fingerprints, registry backups and their restore decisions, and
  the integrity of backup envelopes.
- `compatibility/` — the Windows identity and which builds may be changed.
- `journal/`, `engine/` — the journal's states and the decisions of a
  commit (its opening checks, failure and rollback), explicit rollback,
  the crash reconciliation pass and health probes.
- `display_profile`, `display_rescue`, `window_layout`, `actions/` — display
  comparison and the guarded restore of saved window layouts.
- `hot_corner`, `health_report`, `config_snapshot`, `bootstrap`,
  `presentation` — what the user interface shows.
- `game_profile/` — the profile store, process matching, resource leases,
  the supervisor that applies and restores through a caller's sink, manual
  runs and the watcher's health.
- `text`, `ids`, `error`, `action` — shared vocabulary.

The two traits that callers implement, the supervisor's sink and the
elevated-action allowlist, carry specifications of their own (the sink's
logs of what it was handed, the allowlist's answer), and the supervisor and
the request validation are stated over them.

`app/` holds what Verus does not check: JSON wire types, file persistence,
locks shared between threads, and the operating-system queries. `tests/`
exercises the library from outside.
