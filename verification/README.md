# simulang-log-viewer

A floating, always-on-top log window for automation scripts, with its
decision logic verified in Verus.

- `src/` — the verified library:
  - `wire.rs`: newline-delimited framing (one JSON object per line, surrounding
    white space ignored, blank lines skipped);
  - `ipc.rs`: the messages exchanged between host and viewer;
  - `window.rs`: the host-side state machine (spawn, send, pause, close, viewer
    exit) and its error messages;
  - `viewer.rs`: the viewer's log, its frame start, the grab/pause state and the
    window's hint text and colours;
  - `hotkey.rs`: the global grab hotkey;
  - `paths.rs`, `platform.rs`: where the viewer executable lives.
- `app/` — the Node bindings (`LogWindow`), the process, pipe, lock and JSON
  plumbing, the loader lookup of the library's own path, and the eframe viewer
  window, all driving the library's state machines.
- `tests/` — tests of the library on concrete values.
