# actix_api

A small JSON web API (products, spare parts, users, login with a session
cookie, and an in-memory todo list) whose decisions are verified with Verus.

- `src/` is the verified library: the JSON envelope and the status code each
  status word selects (`helpers::response`), the session cookie guard
  (`middlewares::cookie`), the decision steps of every endpoint
  (`controllers::*`), and the todo list with its operations
  (`structs::todo`). Laws about them are public proof functions next to the
  definitions they speak of.
- `app/` is the actix-web server around it: reading requests, the Postgres
  queries, signing and checking session tokens, and writing responses.
- `tests/` runs the library on concrete values.
