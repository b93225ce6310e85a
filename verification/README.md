# annoying_break_timer

A focus timer for the menu bar: a window asks for a session of the configured
length (25 minutes by default), the tray
counts it down as `mm:ss`, and the window comes back when the time is up.

- `src/` is the verified library: the countdown (`timer`), the decimal text it
  shows (`digits`), the state that the timer thread and the tray menu share and
  the decisions taken on it (`session`), the tray menu's entries (`menu`) and the
  settings (`config`).
- `app/` is the desktop shell (Tauri): windows, tray, the settings file and the
  thread that runs the countdown once a second.
- `tests/` runs the library on concrete values.
