# aiu_desktop

The desktop and tray frontend of AIU. The Go backend owns every account
operation; this frontend launches it once per operation, speaks the version 1
JSON Lines contract on its stdout, and presents the results.

- `src/` is the verified library (Verus):
  - `protocol` — the contract's account rows, banked-reset state and events;
  - `reader` — bounded line framing of the backend's stdout;
  - `session` — the per-operation protocol rules (hello first, result
    terminal, exit status must agree) and the backend's argument list;
  - `keys` — account selectors and command arguments;
  - `intents` — reset intents (one request id per confirmed redemption) and
    threshold drafts;
  - `panel`, `view` — the panel's state machine and per-account decisions;
  - `tray` — tray commands and the tray icon's pixels;
  - `laws` — properties that span calls, proved over the specifications.
- `app/` is the program around it: command line, JSON decoding, the child
  process and its threads, the egui window and the system tray.
- `tests/` exercises the library on concrete values.
