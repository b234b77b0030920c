# todo_tui

A two-pane terminal to-do list (pending and completed tasks) with undo/redo.

- `src/` is the verified library: the task data (`data`), the key bindings
  (`keys`), the application state machine driven by commands and key events
  (`app`), the text of the command line and the help window's placement
  (`screen`), the std string calls it relies on (`text`), and the properties
  proved of the state machine (`laws`).
- `app/` is the terminal program around it: reading and writing the JSON data
  file, turning terminal key events into the library's keys, and drawing the
  screen.
- `tests/` runs the library on concrete inputs.
