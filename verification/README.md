# reqtui

A terminal HTTP client in the style of Postman: compose a request (name,
method, protocol, address, JSON body), send it, browse the session history and
load earlier requests back, and keep requests in named collections.

## Layout

- `src/` — the library, verified with Verus:
  - `api.rs` — methods, protocols, requests, address validation, what is sent.
  - `app.rs` — the application state, its screens and the operations on it.
  - `update.rs` — what each key press does on each screen, as a transition
    function with the outside work it calls for.
  - `history.rs` — the session history, an insertion-ordered set of requests.
  - `view.rs` — what the screens show, computed from the state.
  - `config.rs`, `theme.rs` — settings and colours.
  - `laws.rs` — properties that hold across key presses.
- `app/` — the terminal program: drawing, key events, files, HTTP.
- `tests/` — tests of the library.
