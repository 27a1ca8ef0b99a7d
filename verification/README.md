# trading_engine

The verified core of a desktop trading workstation, written in Verus.

- `src/roles.rs` — user roles, their permissions and the laws between them.
- `src/password.rs` — bcrypt hashing and verification of passwords.
- `src/crypto.rs` — AES-256-GCM encryption of secrets with base64 transport.
- `src/accounts.rs` — adding and removing trading accounts.
- `src/ide.rs` — the algorithm editor's run, pause, stop, reset and debugger controls.
- `src/login.rs` — completing a login from a database lookup.
- `src/backtest.rs` — running and resetting a backtest, and its progress and result lines.
- `src/views.rs` — what the main window shows: tabs, status bar, captions.
- `src/text.rs`, `src/error.rs` — decimal spelling, text helpers and the error type.

`app/` holds the druid user interface, the SQLite store and the logger,
which call into the library.
