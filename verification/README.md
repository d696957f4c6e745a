# ems

The back end of a small messaging service: signup and login with bcrypt
password hashes and HS256 bearer tokens, and chat creation between two
users.

- `src/` is the library, verified with Verus: the checks of each request,
  the reading of the `authorization` header, token issuing, and the
  decisions each handler takes around its database queries. The calls
  into `bcrypt`, `jsonwebtoken`, `chrono` and `uuid` stand behind small
  trusted functions whose contracts are stated in `crypto.rs`, `clock.rs`
  and `ids.rs`.
- `app/` is the server: settings from the environment, the SQLite pool,
  the axum routes with rate limiting and CORS, and logging. Each handler
  runs its queries and hands the outcome to the library.
- `tests/` exercise the library on concrete values.
