# taskgeneral_server

REST API server for a task manager backed by Postgres, with Supabase
authentication.

- `src/` is the library, verified with Verus: configuration from the
  environment, the `TASKGENERAL_PORT` parser, bearer-token extraction and the
  rules a token must meet, UUID handling, error classification and answers, and
  the decisions of each route (sort order, status codes, task paths, sync view
  and answers, the working set).
- `app/` is the axum program around it: reading the environment, the Postgres
  connection, the task store calls on blocking threads, JSON framing, token
  decoding with `jsonwebtoken`, and serving the frontend.
- `tests/` exercises the library on concrete values.

Token decoding (signature, expiry, audience, issuer) happens in `app/`, with
`jsonwebtoken`, because it deserializes the claims through serde. The library
states the rules a token must meet (`Auth::token_rules`) and what is done with
the decoded claims (`Auth::validate_token`); nothing in `src/` ties the raw
token to those claims.
