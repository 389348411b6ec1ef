# lyrtui

A terminal client for Lyrion Music Server, with its logic verified by Verus.

- `src/` is the library. It holds the client's state and every decision made on it: the
  key, mouse and message handlers, the dialogs, navigation, the list filter (`/`), the
  volume and queue rules, the screen geometry that clicks are tested against, and the
  parsers for the server's replies and discovery answers. Each handler takes the state
  by `&mut` and returns the requests to make as values (`effects.rs`); its contract says
  what the new state and the requests are. `laws.rs` states properties that span several
  operations.
- `app/` is the program around the library: the terminal loop, drawing with ratatui, the
  HTTP client, the UDP scan, and the settings file. It performs the requests that the
  library returns and hands back the server's replies as messages.
- `tests/` runs the library on concrete values.

Verify with `verus` on `src/lib.rs`; the outside crates are listed in `Cargo.toml`.
