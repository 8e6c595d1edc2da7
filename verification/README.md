# termchat

A terminal chat client with channels and direct messages. The client's
logic is a formally verified library; a thin program around it talks to
the terminal, the REST API and the WebSocket.

## Layout

- `src/` — the verified library
  - `state.rs` — the client state, the message caches (at most 500
    messages per conversation) and unread counters, and the popups
  - `events.rs` — what every key does on the login screen, on the main
    screen and inside each popup
  - `app.rs` — the decisions around network round trips: login, loading
    lists and history, subscribing, popup actions, pushed envelopes
  - `order.rs` — ordering channels by name (a stable insertion sort)
  - `view.rs` — the text and geometry of the screens
  - `rest.rs`, `config.rs` — request paths, response reading, server and
    token settings
  - `text.rs` — character-level string helpers
  - `laws.rs` — properties that span several operations
- `tests/` — tests of the library
- `app/` — the program: terminal setup, event loop, HTTP and WebSocket I/O,
  JSON, drawing

## Running

`TERMCHAT_SERVER=http://localhost:8080 termchat` connects to another
server; the login token is kept in `<config dir>/termchat/token`.
