# chat_server

A socket.io chat server (text channels, direct messages, end-to-end key
bundles) whose rules are written in Verus and proved against their contracts.

- `src/` is the verified library: session cookies and their HMAC signatures
  (`cookie`, `crypto_manager`, `codec`), message encryption at rest
  (`message_crypto`), passwords (`passwords`, `user`), roles (`permissions`,
  `admin`), sessions (`session`), channels (`channel`, `channels`), key
  bundles (`keys`), ids and text helpers (`ids`, `text`).
- `app/` is the program around it: environment, SQLite through `sqlx`, and
  the socket.io namespaces. It hands the library plain values (ids as
  `u128`, instants as seconds and nanoseconds) and sends back its answers.
- `tests/` exercise the library with the real outside crates linked.

Setup: copy `.env.demo` to `.env`, put a secret made with
`openssl rand -hex 32` into it, create the database with the `sqlx` CLI
(`sqlx database create`, `sqlx migrate run`), then run the server. The first
user to register becomes the admin; `ADMIN_USER_ID` in `.env` changes it.
