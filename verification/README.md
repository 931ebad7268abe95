# browser_shell

The core of a desktop browser shell, written in Verus: tab management and
navigation history, the browser chrome (tabs, menus, toolbar, address bar,
shortcuts, context menus, downloads, crash recovery), developer tools,
printing, themes, settings, an embedded web view and its message bridge,
renderer-process state, session state, and cross-device sync (changes,
conflict resolution, encryption, offline queue).

## Layout

- `src/` — the verified library.  Public functions state what they return
  or change in their `ensures`, over the views and spec functions of their
  module; the exceptions are the constructors that draw random identifiers
  and the readings of the clock, of which only what holds of every outcome
  is stated.  Properties that span several calls are public `law_*` proof
  functions.  Calls into outside crates (`url`, `uuid`, `ring`, `base64`)
  and the few std functions that have no specification here go through
  small trusted wrappers whose doc comments say what is assumed of them.
- `tests/` — tests that run the compiled library.
- `app/` — what cannot be verified: drawing with egui, files and the SQLite
  settings database, renderer processes, the system theme, environment
  variables, JSON records and measurements kept in floating point.  It calls
  the library for every decision.
