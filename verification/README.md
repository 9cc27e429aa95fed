# babelmap

The verified core of babelmap, a terminal front-end for interactive fiction
that draws a map of the game as it is played. The library holds the rules of
the front-end with their contracts, proved by Verus; the terminal, the files
and the signals live in the small program under `app/`.

## Layout

- `src/` — the verified library, one module per concern:
  - `keys`, `keymap`, `hints` — key specs and their parsing and labels, the
    default key bindings, user overrides and hotkey groups, the hint bar and
    the help row;
  - `dialogs`, `overlays` — the dialogs' key and mouse handling, the text
    field, and which overlay sits on top;
  - `turns`, `ingame_io`, `save_flow`, `slash_dispatch`, `command_status`,
    `hint_session` — the decisions a run loop makes around a game turn
    (echo, exit, bookkeeping, background tidy), in-game save and restore,
    saving and deleting, the slash commands and what they report;
  - `persist`, `calendar` — save-slot names, save listings in order, and
    RFC 3339 timestamps;
  - `map_dump` — the text dump of the map and its line-art picture;
  - `launch_options` — the launch dialog: picture archives and interpreter
    numbers;
  - `period`, `native_font`, `layout` — the period look of the screen, native
    bitmap faces, and the frame's pane geometry;
  - `pager` — the `[more]` pager;
  - `text` — string helpers with their specifications.
- `tests/` — tests of the library on concrete values.
- `app/` — a small program over the library: it lists a game directory's
  saves and picture archives, or prints the help row and hint bars, with the
  terminal conversions, save files on disk and signal handling it needs. It
  does not play games: the story interpreter and the screen a full run loop
  drives are not part of this repository.

## Checking

Verus verifies `src/`; the tests run with `cargo test` against the compiled
library.
