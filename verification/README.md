# pastebin

A pastebin service: clients post a text, get back a short id, and read the
text back as JSON or as an HTML page.

- `src/` is the verified library (Verus). It reads the configuration from the
  values of the environment variables, checks paste requests, builds the row
  of a new paste (random id, creation time, expiry), decides the replies of
  the handlers, including the statuses of refused requests, and renders the HTML pages with escaped content. Its contracts
  and the proofs in `src/laws.rs` state what the service promises.
- `app/` is the server around it: environment, logging, the SQLite database,
  and the axum router with its tower-http layers.
- `tests/` exercises the library on concrete values.
