# fadb desktop

A desktop toolbox for Android devices over ADB: a logcat console, an
interactive shell, an AI assistant dock, network connects with remembered
endpoints and an update check.

The logic lives in a library verified with Verus (`src/`); the window, the
adb processes and file access live in `app/`.

## Library modules

- `strings` — string helpers over the `Seq<char>` view (trim, parse, decimal
  notation, replace, substring search, the `White_Space` and `Cc` character
  classes) and the wrappers around `char`/`str` functions of std.
- `catalog_zh`, `catalog_en`, `i18n` — the interface texts and localized
  error messages.
- `domain` — errors, device identities, session identifiers and the
  command/event vocabulary between panels and backend.
- `logline`, `logcat` — `logcat -v threadtime` rows, filters, and the console
  state machine with its bounded ring of rows.
- `terminal`, `screen`, `shell` — keyboard and clipboard input encoding, the
  `vt100` screen, and the shell panel state machine.
- `assistant` — the chat transcript, the send rule and the provider settings
  form.
- `update` — release tags against the running version and the automatic
  check schedule.
- `desktop`, `session` — panels, resize seams, APK drops, recent endpoints and
  the app-wide state driven by backend events.
- `backend` — the backend worker's own decisions: the development-backend
  switch, the `FADB_ADB` override, and the network connect flow from its
  announcement to its single outcome.
- `screenshot`, `output_batch`, `files` — screenshot decoding, output
  coalescing and file-change prechecks.

Run `tests/` for concrete scenarios; laws relating several operations are
public proof functions next to the functions they speak of.
