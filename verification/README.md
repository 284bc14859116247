# blog_api

The verified core of a small blogging API (accounts with tokens, categories,
posts), written in Verus.

- `src/` is the library. Each route's decisions stand there as functions with
  contracts: the checks made before the database is asked anything (who may
  act, which slug an item gets, who the author is), the reading of the
  database's answers, the issuing of tokens, and the status each outcome is
  answered with. Calls into `bcrypt`, `jsonwebtoken`, `slug` and `uuid` go
  through small trusted wrappers whose contracts say what those crates do.
- `app/` is the server around it: axum routes and extractors, the PostgreSQL
  repositories (sqlx), reading `JWT_SECRET` and the clock, checking incoming
  tokens, and the serde forms of the library's types.
- `tests/` runs the library with the real crates linked.
