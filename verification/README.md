# Treasury

A personal-finance web service whose rules are verified with Verus.

- `src/` is the verified library. Each request is decided there: the
  bearer token and its verification against the identity provider's keys,
  the permissions of the caller's groups (from a casbin policy), the service
  step that those permissions allow (fail, answer, look a record up, or run a
  statement), the SQL statement with its bound values, the error answer and
  the paging. Where an outside crate answers (the policy engine, signature
  checks, the database), the contracts state what is asked of it and what
  the library does with each answer; what the crate itself answers is
  stated only as far as its source shows it.
- `app/` is the server around it: it reads the environment, fetches the
  identity provider's keys, runs the statements on PostgreSQL with sqlx, and
  serves the HTTP API with axum.
- `tests/` checks the library on concrete values.
