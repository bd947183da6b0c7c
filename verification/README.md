# tempo-shortcut

A Linux system-tray timer that books time on Jira issues as worklogs (Jira
Server/Data Center with the Tempo Timesheets plugin tracks time through native
worklogs).

- `src/` is the verified library:
  - `tray.rs`: the application as a state machine. `AppTray::handle` takes an
    event (menu choice, dialog answer, clock reading, request outcome) and
    returns the next action; its contract is the specification `next`.
  - `laws.rs`: properties of `next` over several events or all states.
  - `icons.rs`: the clock and hourglass tray icons, drawn with exact integer
    geometry.
  - `dialogs.rs`, `jira.rs`, `config.rs`, `text.rs`: dialog command lines,
    Jira requests and error texts, the settings, and text helpers.
- `app/` is the program around it: the settings file, running `zenity` and
  `notify-send`, the HTTP exchanges with Jira, the clocks, and the tray
  service (`ksni`).
- `tests/` exercises the library on concrete values.
