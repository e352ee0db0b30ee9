# wifitui

A terminal WiFi manager for Linux that talks to NetworkManager over D-Bus.

- `src/` is the verified core (Verus): the security classification of
  access points (`types`), the lossy decoding of SSIDs and other text helpers
  (`text`), saved profiles (`saved`), the merged and ordered network list
  with its laws (`networks`), the adapter panel (`adapter`), the settings of a
  new connection (`settings`), small NetworkManager decisions (`manager`),
  error messages (`error`), the configuration (`config`), the password text
  field, edited through `tui-input` (`field`), the state machine of the
  interface (`app`) and the layout and texts of the screen (`ui`).
- `app/` is the program around it: command line, configuration file, D-Bus
  calls, the event loop, terminal drawing.
- `tests/` exercises the library on concrete values.
