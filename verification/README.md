# gateway

An authentication gateway for Fabi-SC ID: a host-routed reverse proxy for
HTTP and WebSocket traffic whose routes may require a signed-in, whitelisted
user, with an admin interface for routes and settings.

## Layout

- `src/` — the verified library (Verus). Every routing, access, session,
  header, storage-format and page decision is an executable function with a
  contract; the properties that span functions are proof functions.
  - `text.rs` — character-sequence helpers and their specifications.
  - `config.rs`, `store.rs` — settings and routes, and their stored rows.
  - `proxy.rs` — host resolution, route lookup, upstream URLs and headers.
  - `access.rs` — who is let through, which admin page or API call is served.
  - `auth.rs` — identity-service client values, sessions and cookies.
  - `admin.rs` — admin API requests and the first-run setup form.
  - `websocket.rs` — upstream handshake and frame translation, including
    reassembly of fragmented client messages.
  - `templates.rs`, `error.rs` — the HTML pages and error answers.
  - `ext.rs` — the trusted calls into std, `urlencoding`, `chrono`, `uuid`
    and `serde_json`.
- `app/` — the program around it: command line, SQLite, HTTP server,
  outgoing HTTP and WebSocket connections.
- `tests/` — tests of the library.
