# apptidying

Restores and saves window layouts on macOS: which application's window goes
on which display, where, and how large.

The library in `src/` holds the logic, with its contracts proved by Verus:

- `config`: the settings and layout files, their checks, and how layout
  values (`"left"`, `"half"`, pixel counts, unset fields) become pixels.
- `applescript`: the AppleScript and JavaScript for Automation scripts that
  query and move applications, windows and displays, and what their output
  means.
- `loader`: restoring a layout, as a state machine that asks for one script
  or wait at a time.
- `saver`: turning the queried windows into a layout to save.
- `logger`: message texts, how a message reaches the user, and log rotation.
- `cli`: the command line and what each command reports.

`app/` is the `apptidying` command: it parses the command line, reads and
writes the files, runs `osascript`, and drives the loader.

Positions: a saved layout records each window's position in screen space,
while a loaded layout reads a pixel position relative to its display and
adds the display's origin.  A window saved on the display at the origin of
the screen space comes back where it was; a window saved on another display
comes back moved by that display's origin.  A layout field left unset
(`null`) keeps the window's current position or size.

When saving, the windows of the terminal that runs the command are left out
unless `--own` is given: the command hands the library the ids of its own
process and of the processes it runs under, and every application whose
process is among them is skipped.
