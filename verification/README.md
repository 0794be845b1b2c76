# api_switch

The core of an AI API gateway that routes OpenAI-compatible requests to a
pool of upstream channels, written in Verus.

`src/` is the verified library:

- `models` – the records the gateway stores and the requests that change them,
  with the default settings.
- `auth` – password hashing (SHA-256 of the password and a salt, as lowercase
  hex) and session tokens.
- `circuit_breaker` – per-channel failure counting; a channel is refused after
  five failures in a row until 300 s have passed, and let through again after
  a success. Its laws are public proof functions.
- `sql` – the SQLite connection (through `rusqlite`) and the plain values that
  go in and out of it.
- `rows` – decoding result rows into records, column by column.
- `writes` – the parameters records are written with, and the proof that,
  under the model `stored` of what SQLite gives back for a stored parameter,
  a record written that way decodes back to itself.
- `json` – the JSON text a channel's model list is stored as.
- `db` – the store: users, sessions, channels, pool entries, client keys,
  request logs and settings. Each operation, opening the store included,
  states what it hands to SQLite (the path it opens, the statements and
  their parameters, in order) over a ghost record of the calls made
  (`Database::calls`), and its result as a function of the answers. A
  query's answer is the rows it stepped through and the error it stopped
  on, if any; lists stop at the first row that fails, single lookups read
  the first row.

`app/` is the HTTP server around it (axum, tokio, Redis), and `tests/` runs the
library, including the store on an in-memory database.
