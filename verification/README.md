# lethe_server

The core of Lethe, an anonymous board and end-to-end-encrypted room
server that federates its public posts between servers, written in Verus
with its behaviour stated as contracts and proved.

## Layout

- `src/` — the verified library.
  - `federation/` — the server identity, the signed event format and its
    encoding laws, the event-stream and peer-administration logic, the
    pull worker's decisions, and the info document.
  - `logic/` — request checks for threads, posts, reports and rooms, and
    the decisions taken on the database's answers.
  - `moderation/` — the deterministic content rules and the classifier hook.
  - `pow.rs`, `ids.rs`, `decimal.rs`, `text.rs`, `bytes.rs` — proof of
    work, base64 ids, decimal text, and character and byte helpers.
  - `config.rs`, `cli.rs`, `csp.rs`, `routes/`, `db/` — settings parsing,
    operator command-line output, security headers, page and feed
    choices, and the row types and read models of the database layer.
- `tests/` — tests of the library on concrete values.
- `app/` — the binary: HTTP routing, database queries, the pull loop,
  the key file, and the operator command line (run as `lethe-cli`).

Functions that call outside crates (`sha2`, `ed25519-dalek`, `base64`,
`time`, `rustrict`, `rand`, `sqlx`) do so through small trusted wrappers,
each documented with what its contract claims.
